use bdo_enhancement_profit_calculator::accessories::{
    filter_accessories_category, AccProfitDetails,
};
use bdo_enhancement_profit_calculator::market_calcs::{
    calc_profit, calc_profit_taxed, get_market_tax, TAX_SCALE,
};
use bdo_enhancement_profit_calculator::market_requests::CategoryGivenInfo;
use bdo_enhancement_profit_calculator::market_urls::{
    create_post_url, get_market_url, Region,
};

#[test]
fn market_tax_with_value_pack_and_mid_fame() {
    // base 0.65, bonus 0.30 + 0.01 for the fame-4000 step: 0.65 * 1.31
    assert_eq!(get_market_tax(5000, true, false), 851_500);
}

#[test]
fn market_tax_applies_the_highest_fame_step_only() {
    assert_eq!(get_market_tax(999, false, false), 650_000);
    assert_eq!(get_market_tax(1000, false, false), 653_250);
    assert_eq!(get_market_tax(3999, false, false), 653_250);
    assert_eq!(get_market_tax(4000, false, false), 656_500);
    assert_eq!(get_market_tax(6999, false, false), 656_500);
    assert_eq!(get_market_tax(7000, false, false), 659_750);
    assert_eq!(get_market_tax(u16::MAX, false, false), 659_750);
}

#[test]
fn market_tax_with_every_bonus() {
    // base 0.65, bonus 0.30 + 0.05 + 0.015: 0.65 * 1.365
    let rate = get_market_tax(7000, true, true);
    assert_eq!(rate, 887_250);
    assert!(rate <= TAX_SCALE);
}

#[test]
fn market_tax_never_falls_as_fame_grows() {
    let mut prev = 0u32;
    for fame in (0..=10_000u16).step_by(250) {
        let rate = get_market_tax(fame, true, false);
        assert!(rate >= prev);
        prev = rate;
    }
}

#[test]
fn profit_is_value_less_cost() {
    assert_eq!(calc_profit(1000, 950), -50);
    assert_eq!(calc_profit(0, 0), 0);
    assert_eq!(calc_profit(500, 2_000_000), 1_999_500);
}

#[test]
fn taxed_profit_floors_the_taxed_value() {
    // floor(2000 * 0.8) - 1000 == 600
    assert_eq!(calc_profit_taxed(1000, 2000, 800_000), 600);
    // floor(1999 * 0.8) == floor(1599.2) == 1599
    assert_eq!(calc_profit_taxed(0, 1999, 800_000), 1599);
    // a full rate keeps everything
    assert_eq!(calc_profit_taxed(100, 250, TAX_SCALE), 150);
}

#[test]
fn profit_details_keep_both_figures() {
    let details = AccProfitDetails::new(1000, 2000, 800_000);
    assert_eq!(details.get_make_cost(), 1000);
    assert_eq!(details.get_actual_value(), 2000);
    assert_eq!(details.get_profit(), 1000);
    assert_eq!(details.get_profit_taxed(), 600);
}

#[test]
fn profit_details_floor_the_taxed_value() {
    // 1999 * 0.8 == 1599.2 rounds down to 1599 in the profit record
    let details = AccProfitDetails::new(0, 1999, 800_000);
    assert_eq!(details.get_profit_taxed(), 1599);
    // half a unit of silver is not paid out
    let details = AccProfitDetails::new(0, 1, 500_000);
    assert_eq!(details.get_profit_taxed(), 0);
}

fn acc(grade: u8, price: u64, name: &str) -> CategoryGivenInfo {
    CategoryGivenInfo {
        item_grade: grade,
        item_id: 1,
        base_price: price,
        item_name: String::from(name),
        stock: 0,
    }
}

#[test]
fn filter_keeps_the_grade_inside_the_band() {
    let accs = vec![
        acc(3, 1_500_000, "kept"),
        acc(2, 1_500_000, "wrong grade"),
        acc(3, 500_000, "too cheap"),
        acc(3, 3_000_000, "too dear"),
        acc(3, 2_000_000, "kept too"),
    ];
    let kept = filter_accessories_category(accs, 3, 1_000_000, 2_000_000);
    assert_eq!(kept.len(), 2);
    assert_eq!(kept[0].get_item_name(), "kept");
    assert_eq!(kept[1].get_item_name(), "kept too");
}

#[test]
fn filter_keeps_the_band_edges() {
    let accs = vec![acc(1, 100, "low edge"), acc(1, 200, "high edge")];
    let kept = filter_accessories_category(accs, 1, 100, 200);
    assert_eq!(kept.len(), 2);
}

#[test]
fn market_urls_name_each_region() {
    assert_eq!(get_market_url(Region::Na), "https://na-trade.naeu.playblackdesert.com");
    assert_eq!(get_market_url(Region::Eu), "https://eu-trade.naeu.playblackdesert.com");
    assert_eq!(get_market_url(Region::ConsoleAsia), "https://asia-trade.console.playblackdesert.com");
}

#[test]
fn region_codes_round_trip() {
    assert_eq!(Region::from_code("na"), Some(Region::Na));
    assert_eq!(Region::from_code("console_eu"), Some(Region::ConsoleEu));
    assert_eq!(Region::from_code("mars"), None);
    assert_eq!(Region::from_code(""), None);
}

#[test]
fn post_urls_append_the_path() {
    assert_eq!(
        create_post_url("https://www.example.com", "/test"),
        "https://www.example.com/test"
    );
    assert_eq!(
        create_post_url(get_market_url(Region::Na), "/Trademarket/GetWorldMarketSubList"),
        "https://na-trade.naeu.playblackdesert.com/Trademarket/GetWorldMarketSubList"
    );
}
