use vstd::prelude::*;
use crate::outcome::{ItemLevel, ItemType, UpType};
use crate::rules::{
    balance_of, bump, bumped, lemma_pity_curve, level_of, resolve_balance, resolve_level,
    resolve_up, up_of, PityRule, UpRule, SCALE,
};

verus! {

/// Draws since the last rare and since the last near-rare hit.
#[derive(Clone, Copy, Debug, PartialEq, Eq, Structural)]
pub struct PityCounters {
    pub rare: u32,
    pub near_rare: u32,
}

/// Draws of a tier since each of its two categories last won it.
#[derive(Clone, Copy, Debug, PartialEq, Eq, Structural)]
pub struct BalanceCounters {
    pub character: u32,
    pub weapon: u32,
}

impl PityCounters {
    pub open spec fn level_spec(self, rare: PityRule, near_rare: PityRule, roll: u64) -> ItemLevel {
        level_of(
            rare.prob_spec(bump(self.rare) as int),
            near_rare.prob_spec(bump(self.near_rare) as int),
            roll as int,
        )
    }

    /// The hit tier's counter restarts at zero; the other tiers' counters advance.
    pub open spec fn after_level(self, level: ItemLevel) -> PityCounters {
        match level {
            ItemLevel::Star5 => PityCounters { rare: 0, near_rare: bump(self.near_rare) },
            ItemLevel::Star4 => PityCounters { rare: bump(self.rare), near_rare: 0 },
            ItemLevel::Star3 => PityCounters { rare: bump(self.rare), near_rare: bump(self.near_rare) },
        }
    }

    /// Classifies a draw by tier from the level roll and updates both pity counters.
    pub fn get_item_level(&mut self, rare: &PityRule, near_rare: &PityRule, roll: u64) -> (r:
        ItemLevel)
        requires
            rare.base <= SCALE,
            near_rare.base <= SCALE,
        ensures
            r == old(self).level_spec(*rare, *near_rare, roll),
            *final(self) == old(self).after_level(r),
    {
        let count_rare = bumped(self.rare);
        let count_near_rare = bumped(self.near_rare);
        let p_rare = rare.prob(count_rare);
        let p_near_rare = near_rare.prob(count_near_rare);
        let level = resolve_level(p_rare, p_near_rare, roll);
        match level {
            ItemLevel::Star5 => {
                self.rare = 0;
                self.near_rare = count_near_rare;
            },
            ItemLevel::Star4 => {
                self.rare = count_rare;
                self.near_rare = 0;
            },
            ItemLevel::Star3 => {
                self.rare = count_rare;
                self.near_rare = count_near_rare;
            },
        }
        level
    }
}

impl BalanceCounters {
    pub open spec fn winner_spec(self, rule: PityRule, threshold: u32, coin: bool, roll: u64) -> ItemType {
        balance_of(
            rule.balance_weight_spec(threshold, bump(self.character) as int),
            rule.balance_weight_spec(threshold, bump(self.weapon) as int),
            coin,
            roll as int,
        )
    }

    /// The winner's counter restarts at zero; the loser's advances by one.
    pub open spec fn after_win(self, winner: ItemType) -> BalanceCounters {
        match winner {
            ItemType::Character => BalanceCounters { character: 0, weapon: bump(self.weapon) },
            ItemType::Weapon => BalanceCounters { character: bump(self.character), weapon: 0 },
        }
    }

    /// Both categories missed the tier.
    pub open spec fn after_miss(self) -> BalanceCounters {
        BalanceCounters { character: bump(self.character), weapon: bump(self.weapon) }
    }

    /// Awards a tier hit to one category (see `balance_of`) and updates both counters.
    pub fn get_balance_type(&mut self, rule: &PityRule, threshold: u32, coin: bool, roll: u64) -> (r:
        ItemType)
        requires
            rule.base <= SCALE,
            roll < SCALE,
        ensures
            r == old(self).winner_spec(*rule, threshold, coin, roll),
            *final(self) == old(self).after_win(r),
    {
        let count_character = bumped(self.character);
        let count_weapon = bumped(self.weapon);
        let w_character = rule.balance_weight(threshold, count_character);
        let w_weapon = rule.balance_weight(threshold, count_weapon);
        let winner = resolve_balance(w_character, w_weapon, coin, roll);
        self.record_win(winner);
        winner
    }

    /// Records that `winner` took the tier without a balance decision.
    pub fn record_win(&mut self, winner: ItemType)
        ensures
            *final(self) == old(self).after_win(winner),
    {
        match winner {
            ItemType::Character => {
                self.character = 0;
                self.weapon = bumped(self.weapon);
            },
            ItemType::Weapon => {
                self.character = bumped(self.character);
                self.weapon = 0;
            },
        }
    }

    /// Records that neither category took the tier.
    pub fn record_miss(&mut self)
        ensures
            *final(self) == old(self).after_miss(),
    {
        self.character = bumped(self.character);
        self.weapon = bumped(self.weapon);
    }
}

/// Decides whether a hit of a tier is up (see `up_of`) and records the answer as the tier's
/// guarantee flag.
pub fn get_up_type(last_is_up: &mut bool, rule: &UpRule, roll: u64, slot: u32) -> (r: UpType)
    ensures
        r == up_of(*old(last_is_up), rule.up_prob as int, roll as int, slot),
        *final(last_is_up) == (r is Up),
{
    let r = resolve_up(*last_is_up, rule.up_prob, roll, slot);
    *last_is_up = matches!(r, UpType::Up(_));
    r
}


/// The balance rule of a tier: with equal counters the winner is the tie coin alone (each
/// category wins with the coin's even odds); after a win the winner's counter is zero and
/// the loser's is one higher.
pub proof fn lemma_balance(
    counters: BalanceCounters,
    rule: PityRule,
    threshold: u32,
    coin: bool,
    roll: u64,
)
    requires
        counters.character < u32::MAX,
        counters.weapon < u32::MAX,
    ensures
        counters.character == counters.weapon ==> counters.winner_spec(rule, threshold, coin, roll)
            == (if coin {
            ItemType::Character
        } else {
            ItemType::Weapon
        }),
        counters.after_win(ItemType::Character).character == 0,
        counters.after_win(ItemType::Character).weapon == counters.weapon + 1,
        counters.after_win(ItemType::Weapon).weapon == 0,
        counters.after_win(ItemType::Weapon).character == counters.character + 1,
{
    if counters.character == counters.weapon {
        crate::rules::lemma_balance_tie(
            rule.balance_weight_spec(threshold, bump(counters.character) as int),
            coin,
            roll as int,
        );
    }
}


/// Before either pity ramp starts (as on the first draws of a fresh banner) the tier of a draw
/// is decided by the two base rates alone: rare when the level roll is under the rare base
/// rate, near-rare when it is under the sum of both, common otherwise.
pub proof fn lemma_level_before_ramp(
    pity: PityCounters,
    rare: PityRule,
    near_rare: PityRule,
    roll: u64,
)
    requires
        pity.rare < rare.threshold,
        pity.near_rare < near_rare.threshold,
    ensures
        pity.level_spec(rare, near_rare, roll) == level_of(
            rare.base as int,
            near_rare.base as int,
            roll as int,
        ),
{
}

/// Hard pity: when the next draw is the rare tier's ceiling count (or later), it is rare
/// whatever the level roll.
pub proof fn lemma_hard_pity(pity: PityCounters, rare: PityRule, near_rare: PityRule, roll: u64)
    requires
        rare.valid(),
        roll < SCALE,
        pity.rare < u32::MAX,
        pity.rare + 1 >= rare.ceiling,
    ensures
        pity.level_spec(rare, near_rare, roll) == ItemLevel::Star5,
{
    lemma_pity_curve(rare, bump(pity.rare) as int);
}

} // verus!
