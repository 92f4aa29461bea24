use vstd::prelude::*;
use rand::Rng;
use crate::rules::SCALE;

verus! {

/// Relies on `rand::Rng::gen_range` over `rand::thread_rng()`: on a non-empty range `0..n`
/// it returns a value in `[0, n)`. It panics on an empty range, which `requires` leaves out.
#[verifier::external_body]
pub(crate) fn uniform_below(n: u64) -> (r: u64)
    requires
        n > 0,
    ensures
        r < n,
{
    rand::thread_rng().gen_range(0..n)
}

/// Relies on `rand::random::<bool>`: a fair coin. Nothing is promised of its value.
#[verifier::external_body]
fn fair_coin() -> (r: bool) {
    rand::random::<bool>()
}

/// The random values that one draw may consult: a level roll, an up roll and a balance roll
/// in `[0, SCALE)`, the up slot of either tier, and a coin for balance ties.
#[derive(Clone, Copy, Debug, PartialEq, Eq, Structural)]
pub struct Rolls {
    pub level: u64,
    pub up: u64,
    pub rare_slot: u32,
    pub near_rare_slot: u32,
    pub coin: bool,
    pub balance: u64,
}

impl Rolls {
    /// The rolls are in range for a banner with the given numbers of up slots.
    pub open spec fn fits(self, rare_slots: u32, near_rare_slots: u32) -> bool {
        &&& self.level < SCALE
        &&& self.up < SCALE
        &&& self.balance < SCALE
        &&& self.rare_slot < rare_slots
        &&& self.near_rare_slot < near_rare_slots
    }

    /// Draws every roll independently and uniformly.
    pub fn draw(rare_slots: u32, near_rare_slots: u32) -> (r: Rolls)
        requires
            rare_slots > 0,
            near_rare_slots > 0,
        ensures
            r.fits(rare_slots, near_rare_slots),
    {
        let level = uniform_below(SCALE);
        let up = uniform_below(SCALE);
        let rare_slot = uniform_below(rare_slots as u64) as u32;
        let near_rare_slot = uniform_below(near_rare_slots as u64) as u32;
        let coin = fair_coin();
        let balance = uniform_below(SCALE);
        Rolls { level, up, rare_slot, near_rare_slot, coin, balance }
    }
}

} // verus!
