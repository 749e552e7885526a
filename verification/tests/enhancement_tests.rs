use bdo_enhancement_profit_calculator::accessories::{
    accessories_required, accessories_required_exact, calc_accessory_chance, chance_units,
    get_tap_cost, multi_tap_cost, AccEnhancementDetails,
};
use bdo_enhancement_profit_calculator::enhancement_calcs::{
    calc_total_chance, simulate_enhancement,
};
use bdo_enhancement_profit_calculator::errors::EnhanceError;
use bdo_enhancement_profit_calculator::market_requests::ItemID;

#[test]
fn chance_at_zero_failstack_is_the_base_value() {
    assert_eq!(calc_accessory_chance(1, 0), Ok(2500));
    assert_eq!(calc_accessory_chance(2, 0), Ok(1000));
    assert_eq!(calc_accessory_chance(3, 0), Ok(750));
    assert_eq!(calc_accessory_chance(4, 0), Ok(250));
    assert_eq!(calc_accessory_chance(5, 0), Ok(50));
}

#[test]
fn chance_matches_the_table_below_the_threshold() {
    // 0.25 + 17 * 0.025 == 0.675
    assert_eq!(calc_accessory_chance(1, 17), Ok(6750));
    // 0.005 + 110 * 0.0005 == 0.06, far from the cap
    assert_eq!(calc_accessory_chance(5, 110), Ok(600));
}

#[test]
fn chance_slows_past_the_threshold() {
    // 0.25 + 18 * 0.025 at the threshold
    assert_eq!(calc_accessory_chance(1, 18), Ok(7000));
    // one past the threshold adds 0.005, not 0.025
    assert_eq!(calc_accessory_chance(1, 19), Ok(7050));
    // 0.10 + 40 * 0.01 + 2 * 0.002
    assert_eq!(calc_accessory_chance(2, 42), Ok(5040));
}

#[test]
fn chance_never_exceeds_the_cap() {
    // tier 1 reaches 0.9 at failstack 58
    assert_eq!(calc_accessory_chance(1, 58), Ok(9000));
    assert_eq!(calc_accessory_chance(1, 59), Ok(9000));
    assert_eq!(calc_accessory_chance(1, u16::MAX), Ok(9000));
    for tier in 1..=5u8 {
        let mut prev = 0u32;
        for stack in 0..1000u16 {
            let c = calc_accessory_chance(tier, stack).unwrap();
            assert!(c <= 9000);
            assert!(c >= prev, "chance fell at tier {tier}, stack {stack}");
            prev = c;
        }
    }
}

#[test]
fn chance_rejects_levels_outside_the_range() {
    assert_eq!(calc_accessory_chance(0, 10), Err(EnhanceError::LevelOutOfRange));
    assert_eq!(calc_accessory_chance(6, 10), Err(EnhanceError::LevelOutOfRange));
}

#[test]
fn chance_units_agrees_with_the_checked_form() {
    for tier in 1..=5u8 {
        for stack in [0u16, 1, 17, 18, 19, 110, 390, 391, 1000] {
            assert_eq!(calc_accessory_chance(tier, stack), Ok(chance_units(tier, stack)));
        }
    }
}

#[test]
fn required_to_tet_with_the_standard_stacks() {
    assert_eq!(accessories_required(4, vec![20, 40, 44, 110]), Ok(75));
    // extra failstack entries past the end tier are ignored
    assert_eq!(accessories_required(4, vec![20, 40, 44, 110, 250]), Ok(75));
}

#[test]
fn required_exact_to_tet_with_the_standard_stacks() {
    let (num, den) = accessories_required_exact(4, vec![20, 40, 44, 110]).unwrap();
    let exact = num as f64 / den as f64;
    assert!((exact - 74.39343882223382).abs() < 1e-9, "got {exact}");
}

#[test]
fn required_to_pri_with_one_stack() {
    assert_eq!(accessories_required(1, vec![20]), Ok(3));
}

#[test]
fn required_exact_to_pri_with_one_stack() {
    let (num, den) = accessories_required_exact(1, vec![20]).unwrap();
    // chance(1, 20) == 0.71, and 2 / 0.71 is the expected amount
    assert_eq!((num, den), (20000, 7100));
    let exact = num as f64 / den as f64;
    assert!((exact - 2.8169014084507045).abs() < 1e-9, "got {exact}");
}

#[test]
fn required_reports_an_error_when_stacks_are_missing() {
    assert_eq!(accessories_required(4, vec![20]), Err(EnhanceError::NotEnoughStacks));
    assert_eq!(accessories_required(1, vec![]), Err(EnhanceError::NotEnoughStacks));
    assert_eq!(
        accessories_required_exact(5, vec![20, 40, 44, 110]),
        Err(EnhanceError::NotEnoughStacks)
    );
}

#[test]
fn required_reports_an_error_on_a_bad_level() {
    assert_eq!(accessories_required(0, vec![20]), Err(EnhanceError::LevelOutOfRange));
    assert_eq!(accessories_required(6, vec![20; 6]), Err(EnhanceError::LevelOutOfRange));
    assert_eq!(accessories_required_exact(0, vec![]), Err(EnhanceError::LevelOutOfRange));
}

#[test]
fn tap_cost_divides_by_the_next_chance() {
    let details = AccEnhancementDetails::new(ItemID::new(11653), 0, Some(vec![20]));
    // chance(1, 20) == 0.71; 100000 / 0.71 rounds up to 140846
    assert_eq!(get_tap_cost(&details, 0, 100_000), Ok(140_846));
}

#[test]
fn tap_cost_adds_the_current_item_cost() {
    let details = AccEnhancementDetails::new(ItemID::new(11653), 1, Some(vec![40]));
    // chance(2, 40) == 0.5; (100000 + 60000) / 0.5 == 320000 exactly
    assert_eq!(get_tap_cost(&details, 60_000, 100_000), Ok(320_000));
}

#[test]
fn tap_cost_rejects_a_level_past_tet() {
    let details = AccEnhancementDetails::new(ItemID::new(1), 5, Some(vec![20]));
    assert_eq!(get_tap_cost(&details, 0, 100), Err(EnhanceError::LevelOutOfRange));
}

#[test]
fn tap_cost_rejects_missing_stacks() {
    let none = AccEnhancementDetails::new(ItemID::new(1), 0, None);
    assert_eq!(get_tap_cost(&none, 0, 100), Err(EnhanceError::NotEnoughStacks));
    let empty = AccEnhancementDetails::new(ItemID::new(1), 0, Some(vec![]));
    assert_eq!(get_tap_cost(&empty, 0, 100), Err(EnhanceError::NotEnoughStacks));
}

#[test]
fn chain_cost_of_one_tap_matches_the_single_tap() {
    // from the base item to PRI: same arithmetic as the single tap
    assert_eq!(multi_tap_cost(0, 1, &vec![20], 0, 100_000), Ok(140_846));
    let details = AccEnhancementDetails::new(ItemID::new(1), 0, Some(vec![20]));
    assert_eq!(get_tap_cost(&details, 0, 100_000), Ok(140_846));
}

#[test]
fn chain_cost_compounds_forward() {
    // tier 1 at stack 20 costs 140846; tier 2 at stack 40 (chance 0.5)
    // pays that cost plus a fresh base item, doubled
    assert_eq!(
        multi_tap_cost(0, 2, &vec![20, 40], 0, 100_000),
        Ok(140_846 + (140_846 + 100_000) * 2)
    );
}

#[test]
fn chain_cost_prices_the_item_itself_on_the_first_tap() {
    // one tap from DUO to TRI: the item's own price joins the base item
    assert_eq!(multi_tap_cost(2, 3, &vec![44], 500_000, 100_000), Ok(1_481_482));
}

#[test]
fn chain_cost_rejects_an_impossible_chain() {
    assert_eq!(multi_tap_cost(5, 6, &vec![20], 0, 0), Err(EnhanceError::LevelOutOfRange));
    assert_eq!(multi_tap_cost(2, 2, &vec![20], 0, 0), Err(EnhanceError::LevelOutOfRange));
    assert_eq!(multi_tap_cost(0, 4, &vec![20, 40], 0, 0), Err(EnhanceError::NotEnoughStacks));
}

#[test]
fn chain_cost_reports_prices_past_the_machine_bounds() {
    assert_eq!(
        multi_tap_cost(0, 1, &vec![0], u64::MAX, u64::MAX),
        Err(EnhanceError::CostOutOfRange)
    );
}

#[test]
fn enhancement_details_hand_back_what_they_hold() {
    let details = AccEnhancementDetails::new(ItemID::new(42), 3, Some(vec![44, 110]));
    assert_eq!(details.get_item_id(), 42);
    assert_eq!(details.get_level(), 3);
    assert_eq!(details.get_stacks(), Some(&vec![44, 110]));
    assert_eq!(details.get_first_stack(), Some(44));
    let bare = AccEnhancementDetails::new(ItemID::new(42), 3, None);
    assert_eq!(bare.get_stacks(), None);
    assert_eq!(bare.get_first_stack(), None);
}

#[test]
fn total_chance_of_two_attempts() {
    // 1 - (1 - 0.3)^2 == 0.51
    let (num, den) = calc_total_chance(3000, 2);
    assert_eq!((num, den), (51_000_000, 100_000_000));
}

#[test]
fn total_chance_of_zero_attempts_is_zero() {
    assert_eq!(calc_total_chance(5000, 0), (0, 1));
}

#[test]
fn total_chance_of_a_sure_thing_stays_sure() {
    let (num, den) = calc_total_chance(10_000, 3);
    assert_eq!(num, den);
}

#[test]
fn simulation_respects_the_degenerate_chances() {
    for _ in 0..100 {
        assert!(simulate_enhancement(10_000));
        assert!(!simulate_enhancement(0));
    }
}

#[test]
fn error_messages_name_the_failure() {
    assert_eq!(EnhanceError::LevelOutOfRange.message(), "enhancement level out of range");
    assert_eq!(EnhanceError::NotEnoughStacks.message(), "not enough failstacks supplied");
    assert_eq!(EnhanceError::CostOutOfRange.message(), "expected cost out of range");
}
