use vstd::prelude::*;
use crate::counters::{BalanceCounters, PityCounters};
use crate::outcome::{ItemLevel, ItemType, NormalGachaType};
use crate::random::Rolls;
use crate::rules::PityRule;

verus! {

/// Constants of the generic banner: both pity curves and both balance thresholds.
#[derive(Clone, Copy, Debug, PartialEq, Eq, Structural)]
pub struct NormalConfig {
    pub rare: PityRule,
    pub near_rare: PityRule,
    pub rare_balance_threshold: u32,
    pub near_rare_balance_threshold: u32,
}

/// The counters of a generic banner.
#[derive(Clone, Copy, Debug, PartialEq, Eq, Structural)]
pub struct NormalCounters {
    pub pity: PityCounters,
    pub rare_balance: BalanceCounters,
    pub near_rare_balance: BalanceCounters,
}

/// Draw state of the generic banner: no up slots, both tiers balanced between categories.
pub struct NormalGachaState {
    config: NormalConfig,
    counters: NormalCounters,
}

impl NormalConfig {
    pub open spec fn valid(self) -> bool {
        self.rare.valid() && self.near_rare.valid()
    }

    pub fn is_valid(&self) -> (r: bool)
        ensures
            r == self.valid(),
    {
        self.rare.is_valid() && self.near_rare.is_valid()
    }

    pub open spec fn standard_spec() -> NormalConfig {
        NormalConfig {
            rare: PityRule { base: 6_000, threshold: 73, ceiling: 90 },
            near_rare: PityRule { base: 51_000, threshold: 8, ceiling: 10 },
            rare_balance_threshold: 146,
            near_rare_balance_threshold: 17,
        }
    }

    /// The generic banner's usual constants: rare 0.6% ramping after 73 draws and certain at
    /// 90, near-rare 5.1% ramping after 8 and certain at 10, balance thresholds 146 and 17.
    pub fn standard() -> (c: NormalConfig)
        ensures
            c == Self::standard_spec(),
            c.valid(),
    {
        NormalConfig {
            rare: PityRule { base: 6_000, threshold: 73, ceiling: 90 },
            near_rare: PityRule { base: 51_000, threshold: 8, ceiling: 10 },
            rare_balance_threshold: 146,
            near_rare_balance_threshold: 17,
        }
    }
}

impl NormalCounters {
    /// Counters of a fresh banner: all zero.
    pub open spec fn fresh() -> NormalCounters {
        NormalCounters {
            pity: PityCounters { rare: 0, near_rare: 0 },
            rare_balance: BalanceCounters { character: 0, weapon: 0 },
            near_rare_balance: BalanceCounters { character: 0, weapon: 0 },
        }
    }

    /// One draw: the counters after it and its outcome. The balance of the tier that was hit
    /// decides the category; the balances of the tiers that were missed advance.
    pub open spec fn step(self, cfg: NormalConfig, rolls: Rolls) -> (NormalCounters, NormalGachaType) {
        let level = self.pity.level_spec(cfg.rare, cfg.near_rare, rolls.level);
        let pity = self.pity.after_level(level);
        match level {
            ItemLevel::Star3 => (
                NormalCounters {
                    pity,
                    rare_balance: self.rare_balance.after_miss(),
                    near_rare_balance: self.near_rare_balance.after_miss(),
                },
                NormalGachaType::Other3Star,
            ),
            ItemLevel::Star4 => {
                let winner = self.near_rare_balance.winner_spec(
                    cfg.near_rare,
                    cfg.near_rare_balance_threshold,
                    rolls.coin,
                    rolls.balance,
                );
                (
                    NormalCounters {
                        pity,
                        rare_balance: self.rare_balance.after_miss(),
                        near_rare_balance: self.near_rare_balance.after_win(winner),
                    },
                    match winner {
                        ItemType::Character => NormalGachaType::Character4Star,
                        ItemType::Weapon => NormalGachaType::Weapon4Star,
                    },
                )
            },
            ItemLevel::Star5 => {
                let winner = self.rare_balance.winner_spec(
                    cfg.rare,
                    cfg.rare_balance_threshold,
                    rolls.coin,
                    rolls.balance,
                );
                (
                    NormalCounters {
                        pity,
                        rare_balance: self.rare_balance.after_win(winner),
                        near_rare_balance: self.near_rare_balance.after_miss(),
                    },
                    match winner {
                        ItemType::Character => NormalGachaType::Character5Star,
                        ItemType::Weapon => NormalGachaType::Weapon5Star,
                    },
                )
            },
        }
    }
}

impl View for NormalGachaState {
    type V = NormalCounters;

    closed spec fn view(&self) -> NormalCounters {
        self.counters
    }
}

impl NormalGachaState {
    pub closed spec fn config(&self) -> NormalConfig {
        self.config
    }

    pub open spec fn wf(&self) -> bool {
        self.config().valid()
    }

    /// A fresh generic banner with the usual constants.
    pub fn new() -> (r: NormalGachaState)
        ensures
            r.wf(),
            r.config() == NormalConfig::standard_spec(),
            r@ == NormalCounters::fresh(),
    {
        NormalGachaState {
            config: NormalConfig::standard(),
            counters: NormalCounters {
                pity: PityCounters { rare: 0, near_rare: 0 },
                rare_balance: BalanceCounters { character: 0, weapon: 0 },
                near_rare_balance: BalanceCounters { character: 0, weapon: 0 },
            },
        }
    }

    /// A fresh generic banner with the given constants, or `None` when they are invalid.
    pub fn with_config(config: NormalConfig) -> (r: Option<NormalGachaState>)
        ensures
            r is Some <==> config.valid(),
            r matches Some(s) ==> s.wf() && s.config() == config && s@ == NormalCounters::fresh(),
    {
        if !config.is_valid() {
            return None;
        }
        Some(
            NormalGachaState {
                config,
                counters: NormalCounters {
                    pity: PityCounters { rare: 0, near_rare: 0 },
                    rare_balance: BalanceCounters { character: 0, weapon: 0 },
                    near_rare_balance: BalanceCounters { character: 0, weapon: 0 },
                },
            },
        )
    }

    /// One draw with the given rolls.
    pub fn apply_draw(&mut self, rolls: &Rolls) -> (r: NormalGachaType)
        requires
            old(self).wf(),
            rolls.fits(1, 1),
        ensures
            final(self).wf(),
            final(self).config() == old(self).config(),
            (final(self)@, r) == old(self)@.step(old(self).config(), *rolls),
    {
        let level = self.counters.pity.get_item_level(
            &self.config.rare,
            &self.config.near_rare,
            rolls.level,
        );
        match level {
            ItemLevel::Star3 => {
                self.counters.rare_balance.record_miss();
                self.counters.near_rare_balance.record_miss();
                NormalGachaType::Other3Star
            },
            ItemLevel::Star4 => {
                self.counters.rare_balance.record_miss();
                match self.counters.near_rare_balance.get_balance_type(
                    &self.config.near_rare,
                    self.config.near_rare_balance_threshold,
                    rolls.coin,
                    rolls.balance,
                ) {
                    ItemType::Character => NormalGachaType::Character4Star,
                    ItemType::Weapon => NormalGachaType::Weapon4Star,
                }
            },
            ItemLevel::Star5 => {
                self.counters.near_rare_balance.record_miss();
                match self.counters.rare_balance.get_balance_type(
                    &self.config.rare,
                    self.config.rare_balance_threshold,
                    rolls.coin,
                    rolls.balance,
                ) {
                    ItemType::Character => NormalGachaType::Character5Star,
                    ItemType::Weapon => NormalGachaType::Weapon5Star,
                }
            },
        }
    }

    /// One draw with fresh random rolls.
    pub fn simulate_normal_gacha(&mut self) -> (r: NormalGachaType)
        requires
            old(self).wf(),
        ensures
            final(self).wf(),
            final(self).config() == old(self).config(),
            exists|rolls: Rolls|
                rolls.fits(1, 1) && (final(self)@, r) == old(self)@.step(old(self).config(), rolls),
    {
        let rolls = Rolls::draw(1, 1);
        self.apply_draw(&rolls)
    }

    pub fn get_config(&self) -> (r: NormalConfig)
        ensures
            r == self.config(),
    {
        self.config
    }

    pub fn get_since_last_5star(&self) -> (r: u32)
        ensures
            r == self@.pity.rare,
    {
        self.counters.pity.rare
    }

    pub fn get_since_last_4star(&self) -> (r: u32)
        ensures
            r == self@.pity.near_rare,
    {
        self.counters.pity.near_rare
    }

    pub fn get_since_last_4star_character(&self) -> (r: u32)
        ensures
            r == self@.near_rare_balance.character,
    {
        self.counters.near_rare_balance.character
    }

    pub fn get_since_last_4star_weapon(&self) -> (r: u32)
        ensures
            r == self@.near_rare_balance.weapon,
    {
        self.counters.near_rare_balance.weapon
    }

    pub fn get_since_last_5star_character(&self) -> (r: u32)
        ensures
            r == self@.rare_balance.character,
    {
        self.counters.rare_balance.character
    }

    pub fn get_since_last_5star_weapon(&self) -> (r: u32)
        ensures
            r == self@.rare_balance.weapon,
    {
        self.counters.rare_balance.weapon
    }
}

} // verus!
