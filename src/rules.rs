use vstd::prelude::*;
use crate::outcome::{ItemLevel, ItemType, UpType};

verus! {

/// Probabilities are integers in parts per million: `SCALE` stands for certainty.
pub const SCALE: u64 = 1_000_000;

/// An upper bound of every probability on a curve whose base is at most `SCALE`.
pub const MAX_PROB: u64 = 42_949_672_951_000_000;

/// The pity curve of one tier: a base probability (in parts per million), the count after
/// which the soft-pity ramp starts, and the count at which a hit becomes certain.
#[derive(Clone, Copy, Debug, PartialEq, Eq, Structural)]
pub struct PityRule {
    pub base: u64,
    pub threshold: u32,
    pub ceiling: u32,
}

/// The spotlight rule of one tier: the chance (in parts per million) that a hit which is not
/// guaranteed is up, and how many up slots there are.
#[derive(Clone, Copy, Debug, PartialEq, Eq, Structural)]
pub struct UpRule {
    pub up_prob: u64,
    pub slots: u32,
}

/// The soft-pity curve: `base` up to `threshold`, then `base * (1 + 10 * (count - threshold))`.
pub open spec fn ramp(base: int, threshold: int, count: int) -> int {
    if count > threshold {
        base * (1 + 10 * (count - threshold))
    } else {
        base
    }
}

/// A counter one higher, held at `u32::MAX` once it gets there.
pub open spec fn bump(c: u32) -> u32 {
    if c < u32::MAX {
        (c + 1) as u32
    } else {
        c
    }
}

/// Which tier a level roll in `[0, SCALE)` picks, given the rare and near-rare probabilities.
pub open spec fn level_of(p_rare: int, p_near_rare: int, roll: int) -> ItemLevel {
    if roll < p_rare {
        ItemLevel::Star5
    } else if roll < p_rare + p_near_rare {
        ItemLevel::Star4
    } else {
        ItemLevel::Star3
    }
}

/// Up-slot selection: a hit after a non-up hit is always up; otherwise it is up when the roll
/// falls under the up probability. An up hit lands on `slot`.
pub open spec fn up_of(last_is_up: bool, up_prob: int, roll: int, slot: u32) -> UpType {
    if !last_is_up || roll < up_prob {
        UpType::Up(slot)
    } else {
        UpType::NonUp
    }
}

/// Which category wins a tier, given each category's balance weight (twice its probability in
/// parts per million), a fair coin for ties and a roll in `[0, SCALE)`. The roll is scaled by
/// `min(pA + pB, 1)` and held against the larger of the two probabilities.
pub open spec fn balance_of(w_character: int, w_weapon: int, coin: bool, roll: int) -> ItemType {
    let total = if w_character + w_weapon < 2 * SCALE {
        w_character + w_weapon
    } else {
        2 * SCALE as int
    };
    if w_character == w_weapon {
        if coin {
            ItemType::Character
        } else {
            ItemType::Weapon
        }
    } else if w_character < w_weapon {
        if roll * total >= w_weapon * SCALE {
            ItemType::Character
        } else {
            ItemType::Weapon
        }
    } else {
        if roll * total < w_character * SCALE {
            ItemType::Character
        } else {
            ItemType::Weapon
        }
    }
}

impl PityRule {
    /// Probability (parts per million) of hitting the tier on the `count`-th draw since the
    /// last hit.
    pub open spec fn prob_spec(self, count: int) -> int {
        ramp(self.base as int, self.threshold as int, count)
    }

    /// Weight of one category in the tier's balance after `count` draws since that category
    /// last won: twice its probability, which is half the tier's, ramping past `threshold`.
    pub open spec fn balance_weight_spec(self, threshold: u32, count: int) -> int {
        ramp(self.base as int, threshold as int, count)
    }

    pub open spec fn valid(self) -> bool {
        &&& 0 < self.base <= SCALE
        &&& self.threshold < self.ceiling
        &&& self.prob_spec(self.ceiling as int) >= SCALE
    }

    pub fn is_valid(&self) -> (r: bool)
        ensures
            r == self.valid(),
    {
        if self.base == 0 || self.base > SCALE || self.threshold >= self.ceiling {
            return false;
        }
        self.prob(self.ceiling) >= SCALE
    }

    /// Probability of a hit on the `count`-th draw since the last one.
    pub fn prob(&self, count: u32) -> (p: u64)
        requires
            self.base <= SCALE,
        ensures
            p == self.prob_spec(count as int),
            p <= MAX_PROB,
    {
        ramp_exec(self.base, self.threshold, count)
    }

    /// Balance weight of a category after `count` draws since it last won the tier.
    pub fn balance_weight(&self, threshold: u32, count: u32) -> (w: u64)
        requires
            self.base <= SCALE,
        ensures
            w == self.balance_weight_spec(threshold, count as int),
            w <= MAX_PROB,
    {
        ramp_exec(self.base, threshold, count)
    }
}

impl UpRule {
    pub open spec fn valid(self) -> bool {
        self.up_prob <= SCALE && self.slots > 0
    }

    pub fn is_valid(&self) -> (r: bool)
        ensures
            r == self.valid(),
    {
        self.up_prob <= SCALE && self.slots > 0
    }
}

fn ramp_exec(base: u64, threshold: u32, count: u32) -> (p: u64)
    requires
        base <= SCALE,
    ensures
        p == ramp(base as int, threshold as int, count as int),
        p <= MAX_PROB,
{
    if count > threshold {
        let steps: u64 = 1 + 10 * ((count - threshold) as u64);
        assert(base * steps <= 1_000_000 * 42_949_672_951) by (nonlinear_arith)
            requires
                base <= 1_000_000,
                steps <= 42_949_672_951,
        ;
        base * steps
    } else {
        base
    }
}

/// Increments a counter, holding it at `u32::MAX`.
pub fn bumped(c: u32) -> (r: u32)
    ensures
        r == bump(c),
{
    if c < u32::MAX {
        c + 1
    } else {
        c
    }
}

/// Picks the tier of a draw from the two tier probabilities and a level roll.
pub fn resolve_level(p_rare: u64, p_near_rare: u64, roll: u64) -> (r: ItemLevel)
    requires
        p_rare + p_near_rare <= u64::MAX,
    ensures
        r == level_of(p_rare as int, p_near_rare as int, roll as int),
{
    if roll < p_rare {
        ItemLevel::Star5
    } else if roll < p_rare + p_near_rare {
        ItemLevel::Star4
    } else {
        ItemLevel::Star3
    }
}

/// Decides whether a hit of a tier is up, and on which slot.
pub fn resolve_up(last_is_up: bool, up_prob: u64, roll: u64, slot: u32) -> (r: UpType)
    ensures
        r == up_of(last_is_up, up_prob as int, roll as int, slot),
{
    if !last_is_up || roll < up_prob {
        UpType::Up(slot)
    } else {
        UpType::NonUp
    }
}

/// Decides which category wins a tier from the two balance weights, a tie coin and a roll.
pub fn resolve_balance(w_character: u64, w_weapon: u64, coin: bool, roll: u64) -> (r: ItemType)
    requires
        w_character <= u64::MAX / 2,
        w_weapon <= u64::MAX / 2,
        roll < SCALE,
    ensures
        r == balance_of(w_character as int, w_weapon as int, coin, roll as int),
{
    let sum: u64 = w_character + w_weapon;
    let total: u128 = if sum < 2 * SCALE {
        sum as u128
    } else {
        (2 * SCALE) as u128
    };
    let r128 = roll as u128;
    assert(r128 * total <= 2_000_000_000_000) by (nonlinear_arith)
        requires
            r128 < 1_000_000,
            total <= 2_000_000,
    ;
    assert((w_character as u128) * (SCALE as u128) <= (u64::MAX as u128) * (SCALE as u128))
        by (nonlinear_arith);
    assert((w_weapon as u128) * (SCALE as u128) <= (u64::MAX as u128) * (SCALE as u128))
        by (nonlinear_arith);
    let scaled: u128 = r128 * total;
    if w_character == w_weapon {
        if coin {
            ItemType::Character
        } else {
            ItemType::Weapon
        }
    } else if w_character < w_weapon {
        if scaled >= (w_weapon as u128) * (SCALE as u128) {
            ItemType::Character
        } else {
            ItemType::Weapon
        }
    } else {
        if scaled < (w_character as u128) * (SCALE as u128) {
            ItemType::Character
        } else {
            ItemType::Weapon
        }
    }
}


/// The pity curve of a valid rule: up to its threshold a tier's probability is the base rate;
/// past it the probability is `base * (1 + 10 * (count - threshold))`, so each further draw
/// adds ten times the base rate; from the ceiling count on a hit is certain.
pub proof fn lemma_pity_curve(rule: PityRule, count: int)
    requires
        rule.valid(),
        count >= 0,
    ensures
        count <= rule.threshold ==> rule.prob_spec(count) == rule.base,
        count > rule.threshold ==> rule.prob_spec(count) == rule.base * (1 + 10 * (count
            - rule.threshold)),
        count >= rule.threshold ==> rule.prob_spec(count + 1) == rule.prob_spec(count) + 10
            * rule.base,
        count >= rule.ceiling ==> rule.prob_spec(count) >= SCALE,
{
    let b = rule.base as int;
    let t = rule.threshold as int;
    let c = rule.ceiling as int;
    if count >= t {
        assert(b * (1 + 10 * (count + 1 - t)) == b * (1 + 10 * (count - t)) + 10 * b)
            by (nonlinear_arith);
        assert(count == t ==> b * (1 + 10 * (count + 1 - t)) == b + 10 * b) by (nonlinear_arith);
    }
    if count >= c {
        assert(b * (1 + 10 * (count - t)) >= b * (1 + 10 * (c - t))) by (nonlinear_arith)
            requires
                b > 0,
                count >= c,
        ;
    }
}

/// With equal balance weights the category is the tie coin alone, whatever the roll.
pub proof fn lemma_balance_tie(w: int, coin: bool, roll: int)
    ensures
        balance_of(w, w, coin, roll) == (if coin {
            ItemType::Character
        } else {
            ItemType::Weapon
        }),
{
}

} // verus!
