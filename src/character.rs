use vstd::prelude::*;
use crate::counters::{get_up_type, BalanceCounters, PityCounters};
use crate::outcome::{CharacterGachaType, ItemLevel, ItemType, UpType};
use crate::random::Rolls;
use crate::rules::{up_of, PityRule, UpRule};

verus! {

/// Constants of the character banner: both pity curves, both spotlight rules and the
/// near-rare balance threshold.
#[derive(Clone, Copy, Debug, PartialEq, Eq, Structural)]
pub struct CharacterConfig {
    pub rare: PityRule,
    pub near_rare: PityRule,
    pub rare_up: UpRule,
    pub near_rare_up: UpRule,
    pub near_rare_balance_threshold: u32,
}

/// The counters of a character banner.
#[derive(Clone, Copy, Debug, PartialEq, Eq, Structural)]
pub struct CharacterCounters {
    pub pity: PityCounters,
    pub near_rare_balance: BalanceCounters,
    pub last_5star_is_up: bool,
    pub last_4star_is_up: bool,
}

/// Draw state of the character banner.
pub struct CharacterGachaState {
    config: CharacterConfig,
    counters: CharacterCounters,
}

impl CharacterConfig {
    pub open spec fn valid(self) -> bool {
        &&& self.rare.valid()
        &&& self.near_rare.valid()
        &&& self.rare_up.valid()
        &&& self.near_rare_up.valid()
    }

    pub fn is_valid(&self) -> (r: bool)
        ensures
            r == self.valid(),
    {
        self.rare.is_valid() && self.near_rare.is_valid() && self.rare_up.is_valid()
            && self.near_rare_up.is_valid()
    }

    pub open spec fn standard_spec() -> CharacterConfig {
        CharacterConfig {
            rare: PityRule { base: 6_000, threshold: 73, ceiling: 90 },
            near_rare: PityRule { base: 51_000, threshold: 8, ceiling: 10 },
            rare_up: UpRule { up_prob: 500_000, slots: 1 },
            near_rare_up: UpRule { up_prob: 500_000, slots: 3 },
            near_rare_balance_threshold: 17,
        }
    }

    /// The character banner's usual constants: rare 0.6% ramping after 73 draws and certain
    /// at 90, near-rare 5.1% ramping after 8 and certain at 10, up chance 50% for both tiers
    /// with one rare and three near-rare up slots, near-rare balance threshold 17.
    pub fn standard() -> (c: CharacterConfig)
        ensures
            c == Self::standard_spec(),
            c.valid(),
    {
        CharacterConfig {
            rare: PityRule { base: 6_000, threshold: 73, ceiling: 90 },
            near_rare: PityRule { base: 51_000, threshold: 8, ceiling: 10 },
            rare_up: UpRule { up_prob: 500_000, slots: 1 },
            near_rare_up: UpRule { up_prob: 500_000, slots: 3 },
            near_rare_balance_threshold: 17,
        }
    }
}

impl CharacterCounters {
    /// Counters of a fresh banner: all zero, both guarantee flags set.
    pub open spec fn fresh() -> CharacterCounters {
        CharacterCounters {
            pity: PityCounters { rare: 0, near_rare: 0 },
            near_rare_balance: BalanceCounters { character: 0, weapon: 0 },
            last_5star_is_up: true,
            last_4star_is_up: true,
        }
    }

    /// One draw: the counters after it and its outcome. Up near-rare items of this banner are
    /// characters; the rare tier has no balance between categories.
    pub open spec fn step(self, cfg: CharacterConfig, rolls: Rolls) -> (
        CharacterCounters,
        CharacterGachaType,
    ) {
        let level = self.pity.level_spec(cfg.rare, cfg.near_rare, rolls.level);
        let pity = self.pity.after_level(level);
        match level {
            ItemLevel::Star3 => (
                CharacterCounters {
                    pity,
                    near_rare_balance: self.near_rare_balance.after_miss(),
                    ..self
                },
                CharacterGachaType::Other3Star,
            ),
            ItemLevel::Star4 => {
                let up = up_of(
                    self.last_4star_is_up,
                    cfg.near_rare_up.up_prob as int,
                    rolls.up as int,
                    rolls.near_rare_slot,
                );
                match up {
                    UpType::Up(slot) => (
                        CharacterCounters {
                            pity,
                            near_rare_balance: self.near_rare_balance.after_win(
                                ItemType::Character,
                            ),
                            last_4star_is_up: true,
                            ..self
                        },
                        CharacterGachaType::Up4Star(slot),
                    ),
                    UpType::NonUp => {
                        let winner = self.near_rare_balance.winner_spec(
                            cfg.near_rare,
                            cfg.near_rare_balance_threshold,
                            rolls.coin,
                            rolls.balance,
                        );
                        (
                            CharacterCounters {
                                pity,
                                near_rare_balance: self.near_rare_balance.after_win(winner),
                                last_4star_is_up: false,
                                ..self
                            },
                            match winner {
                                ItemType::Character => CharacterGachaType::Other4StarCharacter,
                                ItemType::Weapon => CharacterGachaType::Other4StarWeapon,
                            },
                        )
                    },
                }
            },
            ItemLevel::Star5 => {
                let up = up_of(
                    self.last_5star_is_up,
                    cfg.rare_up.up_prob as int,
                    rolls.up as int,
                    rolls.rare_slot,
                );
                (
                    CharacterCounters {
                        pity,
                        near_rare_balance: self.near_rare_balance.after_miss(),
                        last_5star_is_up: up is Up,
                        ..self
                    },
                    if up is Up {
                        CharacterGachaType::Up5Star
                    } else {
                        CharacterGachaType::Other5Star
                    },
                )
            },
        }
    }
}

/// A non-up near-rare outcome.
pub open spec fn is_other_near_rare(out: CharacterGachaType) -> bool {
    out is Other4StarCharacter || out is Other4StarWeapon
}

impl CharacterCounters {
    /// The outcomes of a sequence of draws.
    pub open spec fn run(self, cfg: CharacterConfig, rolls: Seq<Rolls>) -> Seq<CharacterGachaType>
        decreases rolls.len(),
    {
        if rolls.len() == 0 {
            Seq::empty()
        } else {
            let (next, out) = self.step(cfg, rolls[0]);
            seq![out] + next.run(cfg, rolls.drop_first())
        }
    }
}

proof fn lemma_run_shape(v: CharacterCounters, cfg: CharacterConfig, rolls: Seq<Rolls>)
    ensures
        v.run(cfg, rolls).len() == rolls.len(),
        rolls.len() > 0 ==> v.run(cfg, rolls)[0] == v.step(cfg, rolls[0]).1,
        forall|k: int|
            0 <= k < rolls.len() - 1 ==> #[trigger] v.run(cfg, rolls)[k + 1] == v.step(
                cfg,
                rolls[0],
            ).0.run(cfg, rolls.drop_first())[k],
    decreases rolls.len(),
{
    if rolls.len() > 0 {
        lemma_run_shape(v.step(cfg, rolls[0]).0, cfg, rolls.drop_first());
    }
}

/// While a tier's guarantee flag is clear, the first hit of that tier in a run is up.
proof fn lemma_flag_holds(v: CharacterCounters, cfg: CharacterConfig, rolls: Seq<Rolls>, j: int)
    requires
        0 <= j < rolls.len(),
    ensures
        !v.last_5star_is_up && v.run(cfg, rolls)[j].is_rare() && (forall|k: int|
            0 <= k < j ==> !(#[trigger] v.run(cfg, rolls)[k]).is_rare()) ==> v.run(cfg, rolls)[j]
            == CharacterGachaType::Up5Star,
        !v.last_4star_is_up && v.run(cfg, rolls)[j].is_near_rare() && (forall|k: int|
            0 <= k < j ==> !(#[trigger] v.run(cfg, rolls)[k]).is_near_rare()) ==> v.run(
            cfg,
            rolls,
        )[j] is Up4Star,
    decreases j,
{
    lemma_run_shape(v, cfg, rolls);
    let next = v.step(cfg, rolls[0]).0;
    if j > 0 {
        lemma_flag_holds(next, cfg, rolls.drop_first(), j - 1);
        lemma_run_shape(next, cfg, rolls.drop_first());
        assert(v.run(cfg, rolls)[j] == next.run(cfg, rolls.drop_first())[j - 1]);
        if !v.last_5star_is_up && (forall|k: int|
            0 <= k < j ==> !(#[trigger] v.run(cfg, rolls)[k]).is_rare()) {
            assert(!v.run(cfg, rolls)[0].is_rare());
            assert forall|k: int| 0 <= k < j - 1 implies !(#[trigger] next.run(
                cfg,
                rolls.drop_first(),
            )[k]).is_rare() by {
                assert(v.run(cfg, rolls)[k + 1] == next.run(cfg, rolls.drop_first())[k]);
            }
        }
        if !v.last_4star_is_up && (forall|k: int|
            0 <= k < j ==> !(#[trigger] v.run(cfg, rolls)[k]).is_near_rare()) {
            assert(!v.run(cfg, rolls)[0].is_near_rare());
            assert forall|k: int| 0 <= k < j - 1 implies !(#[trigger] next.run(
                cfg,
                rolls.drop_first(),
            )[k]).is_near_rare() by {
                assert(v.run(cfg, rolls)[k + 1] == next.run(cfg, rolls.drop_first())[k]);
            }
        }
    }
}

/// The guarantee of both tiers: in any run of draws, the next rare hit after a non-up rare
/// hit is up, and the next near-rare hit after a non-up near-rare hit is up.
pub proof fn lemma_character_guarantee(
    v: CharacterCounters,
    cfg: CharacterConfig,
    rolls: Seq<Rolls>,
    i: int,
    j: int,
)
    requires
        0 <= i < j < rolls.len(),
    ensures
        v.run(cfg, rolls)[i] == CharacterGachaType::Other5Star && v.run(cfg, rolls)[j].is_rare()
            && (forall|k: int| i < k < j ==> !(#[trigger] v.run(cfg, rolls)[k]).is_rare())
            ==> v.run(cfg, rolls)[j] == CharacterGachaType::Up5Star,
        is_other_near_rare(v.run(cfg, rolls)[i]) && v.run(cfg, rolls)[j].is_near_rare() && (
        forall|k: int| i < k < j ==> !(#[trigger] v.run(cfg, rolls)[k]).is_near_rare())
            ==> v.run(cfg, rolls)[j] is Up4Star,
    decreases i,
{
    lemma_run_shape(v, cfg, rolls);
    let next = v.step(cfg, rolls[0]).0;
    let rest = rolls.drop_first();
    lemma_run_shape(next, cfg, rest);
    assert(v.run(cfg, rolls)[j] == next.run(cfg, rest)[j - 1]);
    if i > 0 {
        lemma_character_guarantee(next, cfg, rest, i - 1, j - 1);
        assert(v.run(cfg, rolls)[i] == next.run(cfg, rest)[i - 1]);
        assert forall|k: int| i - 1 < k < j - 1 implies (#[trigger] next.run(cfg, rest)[k])
            == v.run(cfg, rolls)[k + 1] by {}
    } else {
        lemma_flag_holds(next, cfg, rest, j - 1);
        assert forall|k: int| 0 <= k < j - 1 implies (#[trigger] next.run(cfg, rest)[k])
            == v.run(cfg, rolls)[k + 1] by {}
    }
}

impl View for CharacterGachaState {
    type V = CharacterCounters;

    closed spec fn view(&self) -> CharacterCounters {
        self.counters
    }
}

impl CharacterGachaState {
    pub closed spec fn config(&self) -> CharacterConfig {
        self.config
    }

    pub open spec fn wf(&self) -> bool {
        self.config().valid()
    }

    /// A fresh character banner with the usual constants.
    pub fn new() -> (r: CharacterGachaState)
        ensures
            r.wf(),
            r.config() == CharacterConfig::standard_spec(),
            r@ == CharacterCounters::fresh(),
    {
        CharacterGachaState {
            config: CharacterConfig::standard(),
            counters: CharacterCounters {
                pity: PityCounters { rare: 0, near_rare: 0 },
                near_rare_balance: BalanceCounters { character: 0, weapon: 0 },
                last_5star_is_up: true,
                last_4star_is_up: true,
            },
        }
    }

    /// A fresh character banner with the given constants, or `None` when they are invalid.
    pub fn with_config(config: CharacterConfig) -> (r: Option<CharacterGachaState>)
        ensures
            r is Some <==> config.valid(),
            r matches Some(s) ==> s.wf() && s.config() == config && s@ == CharacterCounters::fresh(),
    {
        if !config.is_valid() {
            return None;
        }
        Some(
            CharacterGachaState {
                config,
                counters: CharacterCounters {
                    pity: PityCounters { rare: 0, near_rare: 0 },
                    near_rare_balance: BalanceCounters { character: 0, weapon: 0 },
                    last_5star_is_up: true,
                    last_4star_is_up: true,
                },
            },
        )
    }

    /// One draw with the given rolls.
    pub fn apply_draw(&mut self, rolls: &Rolls) -> (r: CharacterGachaType)
        requires
            old(self).wf(),
            rolls.fits(old(self).config().rare_up.slots, old(self).config().near_rare_up.slots),
        ensures
            final(self).wf(),
            final(self).config() == old(self).config(),
            (final(self)@, r) == old(self)@.step(old(self).config(), *rolls),
    {
        let level = self.counters.pity.get_item_level(
            &self.config.rare,
            &self.config.near_rare,
            rolls.level,
        );
        match level {
            ItemLevel::Star3 => {
                self.counters.near_rare_balance.record_miss();
                CharacterGachaType::Other3Star
            },
            ItemLevel::Star4 => {
                match get_up_type(
                    &mut self.counters.last_4star_is_up,
                    &self.config.near_rare_up,
                    rolls.up,
                    rolls.near_rare_slot,
                ) {
                    UpType::Up(slot) => {
                        self.counters.near_rare_balance.record_win(ItemType::Character);
                        CharacterGachaType::Up4Star(slot)
                    },
                    UpType::NonUp => {
                        match self.counters.near_rare_balance.get_balance_type(
                            &self.config.near_rare,
                            self.config.near_rare_balance_threshold,
                            rolls.coin,
                            rolls.balance,
                        ) {
                            ItemType::Character => CharacterGachaType::Other4StarCharacter,
                            ItemType::Weapon => CharacterGachaType::Other4StarWeapon,
                        }
                    },
                }
            },
            ItemLevel::Star5 => {
                self.counters.near_rare_balance.record_miss();
                match get_up_type(
                    &mut self.counters.last_5star_is_up,
                    &self.config.rare_up,
                    rolls.up,
                    rolls.rare_slot,
                ) {
                    UpType::Up(_) => CharacterGachaType::Up5Star,
                    UpType::NonUp => CharacterGachaType::Other5Star,
                }
            },
        }
    }

    /// One draw with fresh random rolls.
    pub fn simulate_character_gacha(&mut self) -> (r: CharacterGachaType)
        requires
            old(self).wf(),
        ensures
            final(self).wf(),
            final(self).config() == old(self).config(),
            exists|rolls: Rolls|
                rolls.fits(old(self).config().rare_up.slots, old(self).config().near_rare_up.slots)
                    && (final(self)@, r) == old(self)@.step(old(self).config(), rolls),
    {
        let rolls = Rolls::draw(self.config.rare_up.slots, self.config.near_rare_up.slots);
        self.apply_draw(&rolls)
    }

    pub fn get_config(&self) -> (r: CharacterConfig)
        ensures
            r == self.config(),
    {
        self.config
    }

    pub fn get_since_last_5star(&self) -> (r: u32)
        ensures
            r == self@.pity.rare,
    {
        self.counters.pity.rare
    }

    pub fn get_since_last_4star(&self) -> (r: u32)
        ensures
            r == self@.pity.near_rare,
    {
        self.counters.pity.near_rare
    }

    pub fn get_since_last_4star_character(&self) -> (r: u32)
        ensures
            r == self@.near_rare_balance.character,
    {
        self.counters.near_rare_balance.character
    }

    pub fn get_since_last_4star_weapon(&self) -> (r: u32)
        ensures
            r == self@.near_rare_balance.weapon,
    {
        self.counters.near_rare_balance.weapon
    }

    pub fn get_last_5star_is_up(&self) -> (r: bool)
        ensures
            r == self@.last_5star_is_up,
    {
        self.counters.last_5star_is_up
    }

    pub fn get_last_4star_is_up(&self) -> (r: bool)
        ensures
            r == self@.last_4star_is_up,
    {
        self.counters.last_4star_is_up
    }
}

} // verus!
