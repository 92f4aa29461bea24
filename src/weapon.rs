use vstd::prelude::*;
use crate::counters::{get_up_type, BalanceCounters, PityCounters};
use crate::outcome::{ItemLevel, ItemType, UpType, WantState, WeaponGachaType};
use crate::random::Rolls;
use crate::rules::{up_of, PityRule, UpRule};

verus! {

/// Constants of the weapon banner: both pity curves, both spotlight rules, the near-rare
/// balance threshold and the want ceiling.
#[derive(Clone, Copy, Debug, PartialEq, Eq, Structural)]
pub struct WeaponConfig {
    pub rare: PityRule,
    pub near_rare: PityRule,
    pub rare_up: UpRule,
    pub near_rare_up: UpRule,
    pub near_rare_balance_threshold: u32,
    pub want_ceiling: u32,
}

/// The counters of a weapon banner.
#[derive(Clone, Copy, Debug, PartialEq, Eq, Structural)]
pub struct WeaponCounters {
    pub pity: PityCounters,
    pub near_rare_balance: BalanceCounters,
    pub last_5star_is_up: bool,
    pub last_4star_is_up: bool,
    pub want: WantState,
}

/// Draw state of the weapon banner.
pub struct WeaponGachaState {
    config: WeaponConfig,
    counters: WeaponCounters,
}

impl WeaponConfig {
    pub open spec fn valid(self) -> bool {
        &&& self.rare.valid()
        &&& self.near_rare.valid()
        &&& self.rare_up.valid()
        &&& self.near_rare_up.valid()
    }

    pub fn is_valid(&self) -> (r: bool)
        ensures
            r == self.valid(),
    {
        self.rare.is_valid() && self.near_rare.is_valid() && self.rare_up.is_valid()
            && self.near_rare_up.is_valid()
    }

    /// A want state fits the banner when its slot is an up slot of the rare tier and its
    /// count has not passed the ceiling.
    pub open spec fn want_fits(self, want: WantState) -> bool {
        match want {
            WantState::Want(slot, count) => slot < self.rare_up.slots && count <= self.want_ceiling,
            WantState::Untracked => true,
        }
    }

    pub fn is_fitting_want(&self, want: WantState) -> (r: bool)
        ensures
            r == self.want_fits(want),
    {
        match want {
            WantState::Want(slot, count) => slot < self.rare_up.slots && count <= self.want_ceiling,
            WantState::Untracked => true,
        }
    }

    pub open spec fn standard_spec() -> WeaponConfig {
        WeaponConfig {
            rare: PityRule { base: 7_000, threshold: 62, ceiling: 80 },
            near_rare: PityRule { base: 60_000, threshold: 7, ceiling: 10 },
            rare_up: UpRule { up_prob: 750_000, slots: 2 },
            near_rare_up: UpRule { up_prob: 750_000, slots: 5 },
            near_rare_balance_threshold: 14,
            want_ceiling: 2,
        }
    }

    /// The weapon banner's usual constants: rare 0.7% ramping after 62 draws and certain at
    /// 80, near-rare 6% ramping after 7 and certain at 10, up chance 75% for both tiers with
    /// two rare and five near-rare up slots, near-rare balance threshold 14, want ceiling 2.
    pub fn standard() -> (c: WeaponConfig)
        ensures
            c == Self::standard_spec(),
            c.valid(),
    {
        WeaponConfig {
            rare: PityRule { base: 7_000, threshold: 62, ceiling: 80 },
            near_rare: PityRule { base: 60_000, threshold: 7, ceiling: 10 },
            rare_up: UpRule { up_prob: 750_000, slots: 2 },
            near_rare_up: UpRule { up_prob: 750_000, slots: 5 },
            near_rare_balance_threshold: 14,
            want_ceiling: 2,
        }
    }
}

/// Resolution of a rare hit: the new guarantee flag, the new want state and the outcome.
/// A want that has reached the ceiling forces its slot; otherwise an ordinary up-slot
/// selection runs, an up hit (on any slot) clears the want count and a non-up hit advances it.
pub open spec fn rare_hit(cfg: WeaponConfig, last_is_up: bool, want: WantState, rolls: Rolls) -> (
    bool,
    WantState,
    WeaponGachaType,
) {
    let up = up_of(last_is_up, cfg.rare_up.up_prob as int, rolls.up as int, rolls.rare_slot);
    match want {
        WantState::Want(target, count) => {
            if count >= cfg.want_ceiling {
                (true, WantState::Want(target, 0), WeaponGachaType::Up5Star(target))
            } else {
                match up {
                    UpType::Up(slot) => (true, WantState::Want(target, 0), WeaponGachaType::Up5Star(
                        slot,
                    )),
                    UpType::NonUp => (
                        false,
                        WantState::Want(target, (count + 1) as u32),
                        WeaponGachaType::Other5Star,
                    ),
                }
            }
        },
        WantState::Untracked => match up {
            UpType::Up(slot) => (true, WantState::Untracked, WeaponGachaType::Up5Star(slot)),
            UpType::NonUp => (false, WantState::Untracked, WeaponGachaType::Other5Star),
        },
    }
}

impl WeaponCounters {
    /// Counters of a fresh banner: all zero, both guarantee flags set, and `want`.
    pub open spec fn fresh(want: WantState) -> WeaponCounters {
        WeaponCounters {
            pity: PityCounters { rare: 0, near_rare: 0 },
            near_rare_balance: BalanceCounters { character: 0, weapon: 0 },
            last_5star_is_up: true,
            last_4star_is_up: true,
            want,
        }
    }

    /// One draw: the counters after it and its outcome. Up near-rare items of this banner are
    /// weapons.
    pub open spec fn step(self, cfg: WeaponConfig, rolls: Rolls) -> (WeaponCounters, WeaponGachaType) {
        let level = self.pity.level_spec(cfg.rare, cfg.near_rare, rolls.level);
        let pity = self.pity.after_level(level);
        match level {
            ItemLevel::Star3 => (
                WeaponCounters {
                    pity,
                    near_rare_balance: self.near_rare_balance.after_miss(),
                    ..self
                },
                WeaponGachaType::Other3Star,
            ),
            ItemLevel::Star4 => {
                let up = up_of(
                    self.last_4star_is_up,
                    cfg.near_rare_up.up_prob as int,
                    rolls.up as int,
                    rolls.near_rare_slot,
                );
                match up {
                    UpType::Up(slot) => (
                        WeaponCounters {
                            pity,
                            near_rare_balance: self.near_rare_balance.after_win(ItemType::Weapon),
                            last_4star_is_up: true,
                            ..self
                        },
                        WeaponGachaType::Up4Star(slot),
                    ),
                    UpType::NonUp => {
                        let winner = self.near_rare_balance.winner_spec(
                            cfg.near_rare,
                            cfg.near_rare_balance_threshold,
                            rolls.coin,
                            rolls.balance,
                        );
                        (
                            WeaponCounters {
                                pity,
                                near_rare_balance: self.near_rare_balance.after_win(winner),
                                last_4star_is_up: false,
                                ..self
                            },
                            match winner {
                                ItemType::Character => WeaponGachaType::Other4StarCharacter,
                                ItemType::Weapon => WeaponGachaType::Other4StarWeapon,
                            },
                        )
                    },
                }
            },
            ItemLevel::Star5 => {
                let hit = rare_hit(cfg, self.last_5star_is_up, self.want, rolls);
                (
                    WeaponCounters {
                        pity,
                        near_rare_balance: self.near_rare_balance.after_miss(),
                        last_5star_is_up: hit.0,
                        want: hit.1,
                        ..self
                    },
                    hit.2,
                )
            },
        }
    }
}

/// A non-up near-rare outcome.
pub open spec fn is_other_near_rare(out: WeaponGachaType) -> bool {
    out is Other4StarCharacter || out is Other4StarWeapon
}

/// The number of rare outcomes in a sequence.
pub open spec fn rare_count(outs: Seq<WeaponGachaType>) -> nat
    decreases outs.len(),
{
    if outs.len() == 0 {
        0
    } else {
        (if outs[0].is_rare() {
            1nat
        } else {
            0nat
        }) + rare_count(outs.drop_first())
    }
}

impl WeaponCounters {
    /// The outcomes of a sequence of draws.
    pub open spec fn run(self, cfg: WeaponConfig, rolls: Seq<Rolls>) -> Seq<WeaponGachaType>
        decreases rolls.len(),
    {
        if rolls.len() == 0 {
            Seq::empty()
        } else {
            let (next, out) = self.step(cfg, rolls[0]);
            seq![out] + next.run(cfg, rolls.drop_first())
        }
    }
}

proof fn lemma_run_shape(v: WeaponCounters, cfg: WeaponConfig, rolls: Seq<Rolls>)
    ensures
        v.run(cfg, rolls).len() == rolls.len(),
        rolls.len() > 0 ==> v.run(cfg, rolls)[0] == v.step(cfg, rolls[0]).1,
        rolls.len() > 0 ==> v.run(cfg, rolls).drop_first() == v.step(cfg, rolls[0]).0.run(
            cfg,
            rolls.drop_first(),
        ),
        forall|k: int|
            0 <= k < rolls.len() - 1 ==> #[trigger] v.run(cfg, rolls)[k + 1] == v.step(
                cfg,
                rolls[0],
            ).0.run(cfg, rolls.drop_first())[k],
    decreases rolls.len(),
{
    if rolls.len() > 0 {
        let (next, out) = v.step(cfg, rolls[0]);
        lemma_run_shape(next, cfg, rolls.drop_first());
        assert((seq![out] + next.run(cfg, rolls.drop_first())).drop_first() =~= next.run(
            cfg,
            rolls.drop_first(),
        ));
    }
}

/// While a tier's guarantee flag is clear, the first hit of that tier in a run is up.
proof fn lemma_flag_holds(v: WeaponCounters, cfg: WeaponConfig, rolls: Seq<Rolls>, j: int)
    requires
        0 <= j < rolls.len(),
    ensures
        !v.last_5star_is_up && v.run(cfg, rolls)[j].is_rare() && (forall|k: int|
            0 <= k < j ==> !(#[trigger] v.run(cfg, rolls)[k]).is_rare()) ==> v.run(
            cfg,
            rolls,
        )[j] is Up5Star,
        !v.last_4star_is_up && v.run(cfg, rolls)[j].is_near_rare() && (forall|k: int|
            0 <= k < j ==> !(#[trigger] v.run(cfg, rolls)[k]).is_near_rare()) ==> v.run(
            cfg,
            rolls,
        )[j] is Up4Star,
    decreases j,
{
    lemma_run_shape(v, cfg, rolls);
    let next = v.step(cfg, rolls[0]).0;
    if j > 0 {
        lemma_flag_holds(next, cfg, rolls.drop_first(), j - 1);
        lemma_run_shape(next, cfg, rolls.drop_first());
        assert(v.run(cfg, rolls)[j] == next.run(cfg, rolls.drop_first())[j - 1]);
        if !v.last_5star_is_up && (forall|k: int|
            0 <= k < j ==> !(#[trigger] v.run(cfg, rolls)[k]).is_rare()) {
            assert(!v.run(cfg, rolls)[0].is_rare());
            assert forall|k: int| 0 <= k < j - 1 implies !(#[trigger] next.run(
                cfg,
                rolls.drop_first(),
            )[k]).is_rare() by {
                assert(v.run(cfg, rolls)[k + 1] == next.run(cfg, rolls.drop_first())[k]);
            }
        }
        if !v.last_4star_is_up && (forall|k: int|
            0 <= k < j ==> !(#[trigger] v.run(cfg, rolls)[k]).is_near_rare()) {
            assert(!v.run(cfg, rolls)[0].is_near_rare());
            assert forall|k: int| 0 <= k < j - 1 implies !(#[trigger] next.run(
                cfg,
                rolls.drop_first(),
            )[k]).is_near_rare() by {
                assert(v.run(cfg, rolls)[k + 1] == next.run(cfg, rolls.drop_first())[k]);
            }
        }
    }
}

/// The guarantee of both tiers: in any run of draws, the next rare hit after a non-up rare
/// hit is up, and the next near-rare hit after a non-up near-rare hit is up.
pub proof fn lemma_weapon_guarantee(
    v: WeaponCounters,
    cfg: WeaponConfig,
    rolls: Seq<Rolls>,
    i: int,
    j: int,
)
    requires
        0 <= i < j < rolls.len(),
    ensures
        v.run(cfg, rolls)[i] == WeaponGachaType::Other5Star && v.run(cfg, rolls)[j].is_rare() && (
        forall|k: int| i < k < j ==> !(#[trigger] v.run(cfg, rolls)[k]).is_rare()) ==> v.run(
            cfg,
            rolls,
        )[j] is Up5Star,
        is_other_near_rare(v.run(cfg, rolls)[i]) && v.run(cfg, rolls)[j].is_near_rare() && (
        forall|k: int| i < k < j ==> !(#[trigger] v.run(cfg, rolls)[k]).is_near_rare())
            ==> v.run(cfg, rolls)[j] is Up4Star,
    decreases i,
{
    lemma_run_shape(v, cfg, rolls);
    let next = v.step(cfg, rolls[0]).0;
    let rest = rolls.drop_first();
    lemma_run_shape(next, cfg, rest);
    assert(v.run(cfg, rolls)[j] == next.run(cfg, rest)[j - 1]);
    if i > 0 {
        lemma_weapon_guarantee(next, cfg, rest, i - 1, j - 1);
        assert(v.run(cfg, rolls)[i] == next.run(cfg, rest)[i - 1]);
        assert forall|k: int| i - 1 < k < j - 1 implies (#[trigger] next.run(cfg, rest)[k])
            == v.run(cfg, rolls)[k + 1] by {}
    } else {
        lemma_flag_holds(next, cfg, rest, j - 1);
        assert forall|k: int| 0 <= k < j - 1 implies (#[trigger] next.run(cfg, rest)[k])
            == v.run(cfg, rolls)[k + 1] by {}
    }
}

/// With the want at `count`, a run without any up rare hit has at most `ceiling - count`
/// rare hits.
proof fn lemma_want_bound(v: WeaponCounters, cfg: WeaponConfig, rolls: Seq<Rolls>)
    requires
        v.want is Want,
        v.want->Want_1 <= cfg.want_ceiling,
        forall|k: int|
            0 <= k < rolls.len() ==> !(#[trigger] v.run(cfg, rolls)[k] is Up5Star),
    ensures
        rare_count(v.run(cfg, rolls)) + v.want->Want_1 <= cfg.want_ceiling,
    decreases rolls.len(),
{
    lemma_run_shape(v, cfg, rolls);
    if rolls.len() > 0 {
        let next = v.step(cfg, rolls[0]).0;
        let rest = rolls.drop_first();
        lemma_run_shape(next, cfg, rest);
        assert(!(v.run(cfg, rolls)[0] is Up5Star));
        assert forall|k: int| 0 <= k < rest.len() implies !(#[trigger] next.run(
            cfg,
            rest,
        )[k] is Up5Star) by {
            assert(v.run(cfg, rolls)[k + 1] == next.run(cfg, rest)[k]);
        }
        lemma_want_bound(next, cfg, rest);
    }
}

/// The want guarantee: among any `ceiling + 1` rare hits in a row, none of which is an up hit
/// on a slot other than the wanted one, at least one is the wanted slot.
pub proof fn lemma_want_window(v: WeaponCounters, cfg: WeaponConfig, rolls: Seq<Rolls>)
    requires
        v.want is Want,
        cfg.want_fits(v.want),
        rare_count(v.run(cfg, rolls)) > cfg.want_ceiling,
        forall|k: int|
            0 <= k < rolls.len() && (#[trigger] v.run(cfg, rolls)[k]) is Up5Star ==> v.run(
                cfg,
                rolls,
            )[k]->Up5Star_0 == v.want->Want_0,
    ensures
        exists|k: int|
            0 <= k < rolls.len() && #[trigger] v.run(cfg, rolls)[k] == WeaponGachaType::Up5Star(
                v.want->Want_0,
            ),
{
    lemma_run_shape(v, cfg, rolls);
    if forall|k: int|
        0 <= k < rolls.len() ==> #[trigger] v.run(cfg, rolls)[k] != WeaponGachaType::Up5Star(
            v.want->Want_0,
        ) {
        assert forall|k: int| 0 <= k < rolls.len() implies !(#[trigger] v.run(
            cfg,
            rolls,
        )[k] is Up5Star) by {
            if v.run(cfg, rolls)[k] is Up5Star {
                assert(v.run(cfg, rolls)[k] == WeaponGachaType::Up5Star(v.want->Want_0));
            }
        }
        lemma_want_bound(v, cfg, rolls);
    }
}

impl View for WeaponGachaState {
    type V = WeaponCounters;

    closed spec fn view(&self) -> WeaponCounters {
        self.counters
    }
}

impl WeaponGachaState {
    pub closed spec fn config(&self) -> WeaponConfig {
        self.config
    }

    pub open spec fn wf(&self) -> bool {
        self.config().valid() && self.config().want_fits(self@.want)
    }

    /// A fresh weapon banner with the usual constants, tracking up slot 0 as the wanted item.
    pub fn new() -> (r: WeaponGachaState)
        ensures
            r.wf(),
            r.config() == WeaponConfig::standard_spec(),
            r@ == WeaponCounters::fresh(WantState::Want(0, 0)),
    {
        WeaponGachaState {
            config: WeaponConfig::standard(),
            counters: WeaponCounters {
                pity: PityCounters { rare: 0, near_rare: 0 },
                near_rare_balance: BalanceCounters { character: 0, weapon: 0 },
                last_5star_is_up: true,
                last_4star_is_up: true,
                want: WantState::Want(0, 0),
            },
        }
    }

    /// A fresh weapon banner with the given constants and want state, or `None` when the
    /// constants are invalid or the want state does not fit them.
    pub fn with_config(config: WeaponConfig, want: WantState) -> (r: Option<WeaponGachaState>)
        ensures
            r is Some <==> config.valid() && config.want_fits(want),
            r matches Some(s) ==> s.wf() && s.config() == config && s@ == WeaponCounters::fresh(want),
    {
        if !config.is_valid() || !config.is_fitting_want(want) {
            return None;
        }
        Some(
            WeaponGachaState {
                config,
                counters: WeaponCounters {
                    pity: PityCounters { rare: 0, near_rare: 0 },
                    near_rare_balance: BalanceCounters { character: 0, weapon: 0 },
                    last_5star_is_up: true,
                    last_4star_is_up: true,
                    want,
                },
            },
        )
    }

    /// Resolves a rare hit against the want state and the guarantee flag.
    fn resolve_rare_hit(&mut self, rolls: &Rolls) -> (r: WeaponGachaType)
        requires
            old(self).wf(),
            rolls.fits(old(self).config().rare_up.slots, old(self).config().near_rare_up.slots),
        ensures
            final(self).config() == old(self).config(),
            final(self)@.pity == old(self)@.pity,
            final(self)@.near_rare_balance == old(self)@.near_rare_balance,
            final(self)@.last_4star_is_up == old(self)@.last_4star_is_up,
            (final(self)@.last_5star_is_up, final(self)@.want, r) == rare_hit(
                old(self).config(),
                old(self)@.last_5star_is_up,
                old(self)@.want,
                *rolls,
            ),
            final(self).wf(),
    {
        match self.counters.want {
            WantState::Want(target, count) => {
                if count >= self.config.want_ceiling {
                    self.counters.last_5star_is_up = true;
                    self.counters.want = WantState::Want(target, 0);
                    WeaponGachaType::Up5Star(target)
                } else {
                    match get_up_type(
                        &mut self.counters.last_5star_is_up,
                        &self.config.rare_up,
                        rolls.up,
                        rolls.rare_slot,
                    ) {
                        UpType::Up(slot) => {
                            self.counters.want = WantState::Want(target, 0);
                            WeaponGachaType::Up5Star(slot)
                        },
                        UpType::NonUp => {
                            self.counters.want = WantState::Want(target, count + 1);
                            WeaponGachaType::Other5Star
                        },
                    }
                }
            },
            WantState::Untracked => {
                match get_up_type(
                    &mut self.counters.last_5star_is_up,
                    &self.config.rare_up,
                    rolls.up,
                    rolls.rare_slot,
                ) {
                    UpType::Up(slot) => WeaponGachaType::Up5Star(slot),
                    UpType::NonUp => WeaponGachaType::Other5Star,
                }
            },
        }
    }

    /// One draw with the given rolls.
    pub fn apply_draw(&mut self, rolls: &Rolls) -> (r: WeaponGachaType)
        requires
            old(self).wf(),
            rolls.fits(old(self).config().rare_up.slots, old(self).config().near_rare_up.slots),
        ensures
            final(self).wf(),
            final(self).config() == old(self).config(),
            (final(self)@, r) == old(self)@.step(old(self).config(), *rolls),
    {
        let level = self.counters.pity.get_item_level(
            &self.config.rare,
            &self.config.near_rare,
            rolls.level,
        );
        match level {
            ItemLevel::Star3 => {
                self.counters.near_rare_balance.record_miss();
                WeaponGachaType::Other3Star
            },
            ItemLevel::Star4 => {
                match get_up_type(
                    &mut self.counters.last_4star_is_up,
                    &self.config.near_rare_up,
                    rolls.up,
                    rolls.near_rare_slot,
                ) {
                    UpType::Up(slot) => {
                        self.counters.near_rare_balance.record_win(ItemType::Weapon);
                        WeaponGachaType::Up4Star(slot)
                    },
                    UpType::NonUp => {
                        match self.counters.near_rare_balance.get_balance_type(
                            &self.config.near_rare,
                            self.config.near_rare_balance_threshold,
                            rolls.coin,
                            rolls.balance,
                        ) {
                            ItemType::Character => WeaponGachaType::Other4StarCharacter,
                            ItemType::Weapon => WeaponGachaType::Other4StarWeapon,
                        }
                    },
                }
            },
            ItemLevel::Star5 => {
                self.counters.near_rare_balance.record_miss();
                self.resolve_rare_hit(rolls)
            },
        }
    }

    /// One draw with fresh random rolls.
    pub fn simulate_weapon_gacha(&mut self) -> (r: WeaponGachaType)
        requires
            old(self).wf(),
        ensures
            final(self).wf(),
            final(self).config() == old(self).config(),
            exists|rolls: Rolls|
                rolls.fits(old(self).config().rare_up.slots, old(self).config().near_rare_up.slots)
                    && (final(self)@, r) == old(self)@.step(old(self).config(), rolls),
    {
        let rolls = Rolls::draw(self.config.rare_up.slots, self.config.near_rare_up.slots);
        self.apply_draw(&rolls)
    }

    pub fn get_config(&self) -> (r: WeaponConfig)
        ensures
            r == self.config(),
    {
        self.config
    }

    pub fn get_since_last_5star(&self) -> (r: u32)
        ensures
            r == self@.pity.rare,
    {
        self.counters.pity.rare
    }

    pub fn get_since_last_4star(&self) -> (r: u32)
        ensures
            r == self@.pity.near_rare,
    {
        self.counters.pity.near_rare
    }

    pub fn get_since_last_4star_character(&self) -> (r: u32)
        ensures
            r == self@.near_rare_balance.character,
    {
        self.counters.near_rare_balance.character
    }

    pub fn get_since_last_4star_weapon(&self) -> (r: u32)
        ensures
            r == self@.near_rare_balance.weapon,
    {
        self.counters.near_rare_balance.weapon
    }

    pub fn get_last_5star_is_up(&self) -> (r: bool)
        ensures
            r == self@.last_5star_is_up,
    {
        self.counters.last_5star_is_up
    }

    pub fn get_last_4star_is_up(&self) -> (r: bool)
        ensures
            r == self@.last_4star_is_up,
    {
        self.counters.last_4star_is_up
    }

    pub fn get_want_state(&self) -> (r: WantState)
        ensures
            r == self@.want,
    {
        self.counters.want
    }
}

} // verus!
