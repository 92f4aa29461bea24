use gacha_sim::{
    CharacterConfig, CharacterGachaState, CharacterGachaType, NormalConfig, NormalGachaState,
    NormalGachaType, PityRule, Rolls, WantState, WeaponConfig, WeaponGachaState, WeaponGachaType,
};

fn rolls(level: u64, up: u64, rare_slot: u32, near_rare_slot: u32, coin: bool) -> Rolls {
    Rolls { level, up, rare_slot, near_rare_slot, coin, balance: 0 }
}

const RARE: u64 = 0;
const NEAR_RARE: u64 = 6_000;
const COMMON: u64 = 999_999;
const UP: u64 = 0;
const NOT_UP: u64 = 999_999;

#[test]
fn fresh_states_start_at_zero_with_flags_set() {
    let c = CharacterGachaState::new();
    assert_eq!(c.get_since_last_5star(), 0);
    assert_eq!(c.get_since_last_4star(), 0);
    assert_eq!(c.get_since_last_4star_character(), 0);
    assert_eq!(c.get_since_last_4star_weapon(), 0);
    assert!(c.get_last_5star_is_up());
    assert!(c.get_last_4star_is_up());

    let w = WeaponGachaState::new();
    assert_eq!(w.get_since_last_5star(), 0);
    assert_eq!(w.get_since_last_4star(), 0);
    assert!(w.get_last_5star_is_up());
    assert!(w.get_last_4star_is_up());
    assert_eq!(w.get_want_state(), WantState::Want(0, 0));

    let n = NormalGachaState::new();
    assert_eq!(n.get_since_last_5star(), 0);
    assert_eq!(n.get_since_last_4star(), 0);
    assert_eq!(n.get_since_last_5star_character(), 0);
    assert_eq!(n.get_since_last_5star_weapon(), 0);
    assert_eq!(n.get_since_last_4star_character(), 0);
    assert_eq!(n.get_since_last_4star_weapon(), 0);
}

#[test]
fn fresh_states_mostly_draw_common_first() {
    let mut rare_or_near_rare = 0u32;
    for _ in 0..1_000 {
        let mut c = CharacterGachaState::new();
        for _ in 0..3 {
            if c.simulate_character_gacha() != CharacterGachaType::Other3Star {
                rare_or_near_rare += 1;
            }
        }
    }
    // Expected about 3000 * 0.057 = 171.
    assert!(rare_or_near_rare < 400, "{}", rare_or_near_rare);
}

#[test]
fn character_non_up_rare_forces_up_next() {
    let mut c = CharacterGachaState::new();
    assert_eq!(c.apply_draw(&rolls(RARE, NOT_UP, 0, 0, true)), CharacterGachaType::Other5Star);
    assert!(!c.get_last_5star_is_up());
    assert_eq!(c.apply_draw(&rolls(COMMON, NOT_UP, 0, 0, true)), CharacterGachaType::Other3Star);
    assert!(!c.get_last_5star_is_up());
    assert_eq!(c.apply_draw(&rolls(RARE, NOT_UP, 0, 0, true)), CharacterGachaType::Up5Star);
    assert!(c.get_last_5star_is_up());
}

#[test]
fn character_rare_up_by_roll() {
    let mut c = CharacterGachaState::new();
    assert_eq!(c.apply_draw(&rolls(RARE, UP, 0, 0, true)), CharacterGachaType::Up5Star);
    assert_eq!(c.get_since_last_5star(), 0);
    assert_eq!(c.get_since_last_4star(), 1);
    assert_eq!(c.get_since_last_4star_character(), 1);
    assert_eq!(c.get_since_last_4star_weapon(), 1);
}

#[test]
fn character_near_rare_up_and_guarantee() {
    let mut c = CharacterGachaState::new();
    assert_eq!(c.apply_draw(&rolls(NEAR_RARE, UP, 0, 2, true)), CharacterGachaType::Up4Star(2));
    assert_eq!(c.get_since_last_4star_character(), 0);
    assert_eq!(c.get_since_last_4star_weapon(), 1);
    assert_eq!(c.get_since_last_4star(), 0);
    assert_eq!(c.get_since_last_5star(), 1);
    let other = c.apply_draw(&rolls(NEAR_RARE, NOT_UP, 0, 1, true));
    assert!(other == CharacterGachaType::Other4StarCharacter
        || other == CharacterGachaType::Other4StarWeapon);
    assert!(!c.get_last_4star_is_up());
    assert_eq!(c.apply_draw(&rolls(NEAR_RARE, NOT_UP, 0, 1, true)), CharacterGachaType::Up4Star(1));
}

#[test]
fn character_near_rare_non_up_balance() {
    let mut c = CharacterGachaState::new();
    // Equal balance counters: the coin decides.
    assert_eq!(
        c.apply_draw(&rolls(NEAR_RARE, NOT_UP, 0, 0, false)),
        CharacterGachaType::Other4StarWeapon
    );
    assert_eq!(c.get_since_last_4star_character(), 1);
    assert_eq!(c.get_since_last_4star_weapon(), 0);
}

#[test]
fn character_common_advances_counters() {
    let mut c = CharacterGachaState::new();
    assert_eq!(c.apply_draw(&rolls(COMMON, UP, 0, 0, true)), CharacterGachaType::Other3Star);
    assert_eq!(c.get_since_last_5star(), 1);
    assert_eq!(c.get_since_last_4star(), 1);
    assert_eq!(c.get_since_last_4star_character(), 1);
    assert_eq!(c.get_since_last_4star_weapon(), 1);
}

#[test]
fn character_rare_is_certain_at_ceiling() {
    let mut c = CharacterGachaState::new();
    // Draws at the top of the roll range miss every tier until a ramp reaches it.
    let mut rare_seen_at = 0u32;
    for i in 1..=90u32 {
        let out = c.apply_draw(&rolls(COMMON, UP, 0, 0, true));
        if out == CharacterGachaType::Up5Star {
            rare_seen_at = i;
            break;
        }
    }
    assert_eq!(rare_seen_at, 90);
}

#[test]
fn character_invalid_config_rejected() {
    let mut cfg = CharacterConfig::standard();
    cfg.near_rare_up.slots = 0;
    assert!(CharacterGachaState::with_config(cfg).is_none());
    let mut cfg = CharacterConfig::standard();
    cfg.rare = PityRule { base: 6_000, threshold: 73, ceiling: 78 };
    assert!(CharacterGachaState::with_config(cfg).is_none());
    assert!(CharacterGachaState::with_config(CharacterConfig::standard()).is_some());
}

#[test]
fn weapon_want_at_ceiling_forces_target() {
    let mut w =
        WeaponGachaState::with_config(WeaponConfig::standard(), WantState::Want(1, 2)).unwrap();
    assert_eq!(w.apply_draw(&rolls(RARE, NOT_UP, 0, 0, true)), WeaponGachaType::Up5Star(1));
    assert_eq!(w.get_want_state(), WantState::Want(1, 0));
    assert!(w.get_last_5star_is_up());
}

#[test]
fn weapon_non_up_advances_want_and_up_clears_it() {
    let mut w =
        WeaponGachaState::with_config(WeaponConfig::standard(), WantState::Want(1, 0)).unwrap();
    assert_eq!(w.apply_draw(&rolls(RARE, NOT_UP, 0, 0, true)), WeaponGachaType::Other5Star);
    assert_eq!(w.get_want_state(), WantState::Want(1, 1));
    assert!(!w.get_last_5star_is_up());
    // Guaranteed up, on the other slot: any up hit clears the want count.
    assert_eq!(w.apply_draw(&rolls(RARE, NOT_UP, 0, 0, true)), WeaponGachaType::Up5Star(0));
    assert_eq!(w.get_want_state(), WantState::Want(1, 0));
    assert_eq!(w.apply_draw(&rolls(RARE, UP, 1, 0, true)), WeaponGachaType::Up5Star(1));
    assert_eq!(w.get_want_state(), WantState::Want(1, 0));
}

#[test]
fn weapon_want_window_holds_over_long_runs() {
    let cfg = WeaponConfig::standard();
    let mut w = WeaponGachaState::new();
    let mut non_target_run = 0u32;
    for _ in 0..200_000 {
        match w.simulate_weapon_gacha() {
            WeaponGachaType::Up5Star(0) => non_target_run = 0,
            WeaponGachaType::Up5Star(_) => non_target_run = 0,
            WeaponGachaType::Other5Star => {
                non_target_run += 1;
                assert!(non_target_run <= cfg.want_ceiling);
            }
            _ => {}
        }
    }
}

#[test]
fn weapon_untracked_want() {
    let mut w =
        WeaponGachaState::with_config(WeaponConfig::standard(), WantState::Untracked).unwrap();
    assert_eq!(w.apply_draw(&rolls(RARE, UP, 1, 0, true)), WeaponGachaType::Up5Star(1));
    assert_eq!(w.apply_draw(&rolls(RARE, NOT_UP, 1, 0, true)), WeaponGachaType::Other5Star);
    assert_eq!(w.get_want_state(), WantState::Untracked);
    assert_eq!(w.apply_draw(&rolls(RARE, NOT_UP, 1, 0, true)), WeaponGachaType::Up5Star(1));
}

#[test]
fn weapon_near_rare_up_is_a_weapon() {
    let mut w = WeaponGachaState::new();
    assert_eq!(w.apply_draw(&rolls(7_000, UP, 0, 4, true)), WeaponGachaType::Up4Star(4));
    assert_eq!(w.get_since_last_4star_character(), 1);
    assert_eq!(w.get_since_last_4star_weapon(), 0);
}

#[test]
fn weapon_invalid_want_rejected() {
    let cfg = WeaponConfig::standard();
    assert!(WeaponGachaState::with_config(cfg, WantState::Want(2, 0)).is_none());
    assert!(WeaponGachaState::with_config(cfg, WantState::Want(0, 3)).is_none());
    let mut bad = cfg;
    bad.rare_up.slots = 0;
    assert!(WeaponGachaState::with_config(bad, WantState::Untracked).is_none());
}

#[test]
fn normal_rare_goes_to_balance() {
    let mut n = NormalGachaState::new();
    assert_eq!(n.apply_draw(&rolls(RARE, 0, 0, 0, true)), NormalGachaType::Character5Star);
    assert_eq!(n.get_since_last_5star(), 0);
    assert_eq!(n.get_since_last_4star(), 1);
    assert_eq!(n.get_since_last_5star_character(), 0);
    assert_eq!(n.get_since_last_5star_weapon(), 1);
    assert_eq!(n.get_since_last_4star_character(), 1);
    assert_eq!(n.get_since_last_4star_weapon(), 1);
}

#[test]
fn normal_near_rare_and_common() {
    let mut n = NormalGachaState::new();
    assert_eq!(n.apply_draw(&rolls(NEAR_RARE, 0, 0, 0, false)), NormalGachaType::Weapon4Star);
    assert_eq!(n.get_since_last_4star_character(), 1);
    assert_eq!(n.get_since_last_4star_weapon(), 0);
    assert_eq!(n.get_since_last_5star_character(), 1);
    assert_eq!(n.get_since_last_5star_weapon(), 1);
    assert_eq!(n.apply_draw(&rolls(COMMON, 0, 0, 0, false)), NormalGachaType::Other3Star);
    assert_eq!(n.get_since_last_5star(), 2);
    assert_eq!(n.get_since_last_4star(), 1);
    assert_eq!(n.get_since_last_4star_weapon(), 1);
}

#[test]
fn normal_invalid_config_rejected() {
    let mut cfg = NormalConfig::standard();
    cfg.near_rare.base = 0;
    assert!(NormalGachaState::with_config(cfg).is_none());
}

#[test]
fn normal_categories_balance_out() {
    let mut n = NormalGachaState::new();
    let (mut c5, mut w5, mut c4, mut w4) = (0u32, 0u32, 0u32, 0u32);
    for _ in 0..200_000 {
        match n.simulate_normal_gacha() {
            NormalGachaType::Character5Star => c5 += 1,
            NormalGachaType::Weapon5Star => w5 += 1,
            NormalGachaType::Character4Star => c4 += 1,
            NormalGachaType::Weapon4Star => w4 += 1,
            NormalGachaType::Other3Star => {}
        }
    }
    let rare_share = c5 as f64 / (c5 + w5) as f64;
    let near_share = c4 as f64 / (c4 + w4) as f64;
    assert!(rare_share > 0.4 && rare_share < 0.6, "{}", rare_share);
    assert!(near_share > 0.45 && near_share < 0.55, "{}", near_share);
}
