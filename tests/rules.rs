use gacha_sim::counters::BalanceCounters;
use gacha_sim::rules::{bumped, resolve_balance, resolve_level, resolve_up};
use gacha_sim::{
    CharacterConfig, ItemLevel, ItemType, NormalConfig, PityRule, Rolls, UpRule, UpType,
    WeaponConfig, SCALE,
};

fn character_rare() -> PityRule {
    CharacterConfig::standard().rare
}

#[test]
fn rare_probability_before_threshold_is_base() {
    let rule = character_rare();
    for count in 0..=73u32 {
        assert_eq!(rule.prob(count), 6_000);
    }
}

#[test]
fn rare_probability_at_74_is_ramped() {
    // 0.006 * (1 + 10 * 1) = 0.066
    assert_eq!(character_rare().prob(74), 66_000);
}

#[test]
fn rare_probability_at_ceiling_is_certain() {
    let rule = character_rare();
    assert_eq!(rule.prob(90), 1_026_000);
    assert!(rule.prob(90) >= SCALE);
}

#[test]
fn ramp_adds_ten_base_rates_per_draw() {
    let rule = character_rare();
    for count in 73..200u32 {
        assert_eq!(rule.prob(count + 1), rule.prob(count) + 10 * rule.base);
    }
}

#[test]
fn near_rare_probability_values() {
    let rule = CharacterConfig::standard().near_rare;
    assert_eq!(rule.prob(8), 51_000);
    assert_eq!(rule.prob(9), 561_000);
    assert_eq!(rule.prob(10), 1_071_000);
}

#[test]
fn weapon_probability_values() {
    let cfg = WeaponConfig::standard();
    assert_eq!(cfg.rare.prob(62), 7_000);
    assert_eq!(cfg.rare.prob(63), 77_000);
    assert!(cfg.rare.prob(80) >= SCALE);
    assert_eq!(cfg.near_rare.prob(8), 660_000);
    assert!(cfg.near_rare.prob(10) >= SCALE);
}

#[test]
fn balance_weight_values() {
    let rule = NormalConfig::standard().rare;
    assert_eq!(rule.balance_weight(146, 146), 6_000);
    assert_eq!(rule.balance_weight(146, 147), 66_000);
}

#[test]
fn probability_does_not_overflow_at_largest_count() {
    let rule = character_rare();
    assert_eq!(rule.prob(u32::MAX), 6_000 * (1 + 10 * (u32::MAX as u64 - 73)));
}

#[test]
fn rule_validity() {
    assert!(character_rare().is_valid());
    assert!(!PityRule { base: 0, threshold: 73, ceiling: 90 }.is_valid());
    assert!(!PityRule { base: 1_000_001, threshold: 73, ceiling: 90 }.is_valid());
    assert!(!PityRule { base: 6_000, threshold: 90, ceiling: 90 }.is_valid());
    // 0.006 * (1 + 10 * 5) < 1: the ceiling is not certain.
    assert!(!PityRule { base: 6_000, threshold: 73, ceiling: 78 }.is_valid());
    assert!(UpRule { up_prob: 500_000, slots: 1 }.is_valid());
    assert!(!UpRule { up_prob: 500_000, slots: 0 }.is_valid());
    assert!(!UpRule { up_prob: 1_000_001, slots: 1 }.is_valid());
}

#[test]
fn standard_configs_are_valid() {
    assert!(NormalConfig::standard().is_valid());
    assert!(CharacterConfig::standard().is_valid());
    assert!(WeaponConfig::standard().is_valid());
}

#[test]
fn bumped_saturates() {
    assert_eq!(bumped(5), 6);
    assert_eq!(bumped(u32::MAX), u32::MAX);
}

#[test]
fn level_resolution() {
    assert_eq!(resolve_level(6_000, 51_000, 0), ItemLevel::Star5);
    assert_eq!(resolve_level(6_000, 51_000, 5_999), ItemLevel::Star5);
    assert_eq!(resolve_level(6_000, 51_000, 6_000), ItemLevel::Star4);
    assert_eq!(resolve_level(6_000, 51_000, 56_999), ItemLevel::Star4);
    assert_eq!(resolve_level(6_000, 51_000, 57_000), ItemLevel::Star3);
}

#[test]
fn up_resolution() {
    assert_eq!(resolve_up(true, 500_000, 499_999, 2), UpType::Up(2));
    assert_eq!(resolve_up(true, 500_000, 500_000, 2), UpType::NonUp);
    assert_eq!(resolve_up(false, 500_000, 999_999, 1), UpType::Up(1));
}

#[test]
fn balance_tie_follows_coin() {
    assert_eq!(resolve_balance(6_000, 6_000, true, 999_999), ItemType::Character);
    assert_eq!(resolve_balance(6_000, 6_000, false, 0), ItemType::Weapon);
}

#[test]
fn balance_favours_larger_weight() {
    // weapon heavier: character wins when roll * 18000 >= 12000 * SCALE
    assert_eq!(resolve_balance(6_000, 12_000, false, 666_667), ItemType::Character);
    assert_eq!(resolve_balance(6_000, 12_000, false, 666_666), ItemType::Weapon);
    // character heavier: character wins when roll * 18000 < 12000 * SCALE
    assert_eq!(resolve_balance(12_000, 6_000, false, 666_666), ItemType::Character);
    assert_eq!(resolve_balance(12_000, 6_000, false, 666_667), ItemType::Weapon);
}

#[test]
fn balance_total_is_capped_at_certainty() {
    assert_eq!(resolve_balance(1_500_000, 1_000_000, false, 749_999), ItemType::Character);
    assert_eq!(resolve_balance(1_500_000, 1_000_000, false, 750_000), ItemType::Weapon);
}

#[test]
fn balance_winner_resets_and_loser_advances() {
    let rule = NormalConfig::standard().near_rare;
    let mut counters = BalanceCounters { character: 3, weapon: 7 };
    let winner = counters.get_balance_type(&rule, 17, true, 0);
    match winner {
        ItemType::Character => assert_eq!(counters, BalanceCounters { character: 0, weapon: 8 }),
        ItemType::Weapon => assert_eq!(counters, BalanceCounters { character: 4, weapon: 0 }),
    }
    let mut tie = BalanceCounters { character: 2, weapon: 2 };
    assert_eq!(tie.get_balance_type(&rule, 17, false, 0), ItemType::Weapon);
    assert_eq!(tie, BalanceCounters { character: 3, weapon: 0 });
}

#[test]
fn balance_with_equal_counters_is_even() {
    let rule = NormalConfig::standard().near_rare;
    let mut character_wins = 0u32;
    let trials = 20_000u32;
    for _ in 0..trials {
        let mut counters = BalanceCounters { character: 5, weapon: 5 };
        let rolls = Rolls::draw(1, 1);
        if counters.get_balance_type(&rule, 17, rolls.coin, rolls.balance) == ItemType::Character {
            character_wins += 1;
        }
    }
    let share = character_wins as f64 / trials as f64;
    assert!(share > 0.45 && share < 0.55, "share {}", share);
}

#[test]
fn drawn_rolls_are_in_range_and_vary() {
    let mut seen_nonzero = false;
    let mut seen_slots = [false; 5];
    for _ in 0..2_000 {
        let r = Rolls::draw(2, 5);
        assert!(r.level < SCALE && r.up < SCALE && r.balance < SCALE);
        assert!(r.rare_slot < 2 && r.near_rare_slot < 5);
        seen_slots[r.near_rare_slot as usize] = true;
        if r.level > 0 {
            seen_nonzero = true;
        }
    }
    assert!(seen_nonzero);
    assert!(seen_slots.iter().all(|s| *s));
}
