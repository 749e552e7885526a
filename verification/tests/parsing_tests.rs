use bdo_enhancement_profit_calculator::errors::MarketError;
use bdo_enhancement_profit_calculator::market_json::{
    get_result_msg_data, get_result_msg_market_list,
};
use bdo_enhancement_profit_calculator::market_requests::{
    CategoryGivenInfo, ItemBuySellInfo, ItemID, RegQueueItem, SearchedItem, SpecificItemInfo,
};

#[test]
fn item_id_wraps_an_identifier() {
    assert_eq!(ItemID::new(11653).get_item_id(), 11653);
}

#[test]
fn sub_list_records_parse_field_by_field() {
    let data = "11653-0-0-150000-25-4492-145000-165000-150000-1670000000|11653-1-1-300000-3-900-290000-310000-305000-1670000001|";
    let items = SpecificItemInfo::build_vec(data).unwrap();
    assert_eq!(items.len(), 2);
    assert_eq!(items[0].item_id, 11653);
    assert_eq!(items[0].enhancement_min, 0);
    assert_eq!(items[0].enhancement_max, 0);
    assert_eq!(items[0].base_price, 150000);
    assert_eq!(items[0].stock, 25);
    assert_eq!(items[0].total_trades, 4492);
    assert_eq!(items[0].price_cap_min, 145000);
    assert_eq!(items[0].price_cap_max, 165000);
    assert_eq!(items[0].last_sale_price, 150000);
    assert_eq!(items[0].last_sale_time, "1670000000");
    assert_eq!(items[1].enhancement_min, 1);
    assert_eq!(items[1].base_price, 300000);
}

#[test]
fn sub_list_rejects_a_short_record() {
    assert!(matches!(
        SpecificItemInfo::build_vec("1-2-3"),
        Err(MarketError::MalformedRecord)
    ));
}

#[test]
fn numeric_fields_read_as_zero_when_not_digits() {
    let data = "abc-0-0-x-25-4492-145000-165000-150000-t|";
    let items = SpecificItemInfo::build_vec(data).unwrap();
    assert_eq!(items[0].item_id, 0);
    assert_eq!(items[0].base_price, 0);
    assert_eq!(items[0].stock, 25);
}

#[test]
fn numeric_fields_accept_a_leading_plus() {
    let data = "+11653-0-0-+150000-25-4492-145000-165000-150000-1670000000|";
    let items = SpecificItemInfo::build_vec(data).unwrap();
    assert_eq!(items[0].item_id, 11653);
    assert_eq!(items[0].base_price, 150000);
    // only one sign, and not on its own
    let data = "++7-+-0-0-0-0-0-0-0-t|";
    let items = SpecificItemInfo::build_vec(data).unwrap();
    assert_eq!(items[0].item_id, 0);
    assert_eq!(items[0].enhancement_min, 0);
}

#[test]
fn numeric_fields_read_as_zero_when_too_large() {
    // the second field overflows a u8, the fourth fits a u64
    let data = "7-300-0-18446744073709551615-0-0-0-0-0-now|";
    let items = SpecificItemInfo::build_vec(data).unwrap();
    assert_eq!(items[0].item_id, 7);
    assert_eq!(items[0].enhancement_min, 0);
    assert_eq!(items[0].base_price, u64::MAX);
}

#[test]
fn empty_data_yields_no_records() {
    assert_eq!(SpecificItemInfo::build_vec("").unwrap().len(), 0);
    assert_eq!(SpecificItemInfo::build_vec("|||").unwrap().len(), 0);
}

#[test]
fn queue_records_parse_field_by_field() {
    let data = "11653-3-900000000-1670000000|";
    let items = RegQueueItem::build_vec(data).unwrap();
    assert_eq!(items.len(), 1);
    assert_eq!(items[0].item_id, 11653);
    assert_eq!(items[0].enhancement_level, 3);
    assert_eq!(items[0].listed_price, 900000000);
    assert_eq!(items[0].registered_timestamp, "1670000000");
}

#[test]
fn queue_rejects_a_short_record() {
    assert!(matches!(RegQueueItem::build_vec("1-2|"), Err(MarketError::MalformedRecord)));
}

#[test]
fn search_records_parse_field_by_field() {
    let data = "11653-25-150000-4492|12094-3-420000-77|";
    let items = SearchedItem::build_vec(data).unwrap();
    assert_eq!(items.len(), 2);
    assert_eq!(items[0].item_id, 11653);
    assert_eq!(items[0].stock, 25);
    assert_eq!(items[0].base_price, 150000);
    assert_eq!(items[0].total_trades, 4492);
    assert_eq!(items[1].item_id, 12094);
}

#[test]
fn sub_list_body_extracts_the_payload_first() {
    let body = "{\"resultCode\":0,\"resultMsg\":\"11653-0-0-150000-25-4492-145000-165000-150000-1670000000|\"}";
    let items = SpecificItemInfo::from_post(body).unwrap();
    assert_eq!(items.len(), 1);
    assert_eq!(items[0].base_price, 150000);
}

#[test]
fn queue_body_extracts_the_payload_first() {
    let body = "{\"resultCode\":0,\"resultMsg\":\"11653-3-900000000-1670000000|\"}";
    let items = RegQueueItem::from_post(body).unwrap();
    assert_eq!(items.len(), 1);
    assert_eq!(items[0].enhancement_level, 3);
}

#[test]
fn search_body_extracts_the_payload_first() {
    let body = "{\"resultCode\":0,\"resultMsg\":\"11653-25-150000-4492|\"}";
    let items = SearchedItem::from_post(body).unwrap();
    assert_eq!(items.len(), 1);
    assert_eq!(items[0].total_trades, 4492);
}

#[test]
fn result_msg_sheds_its_quotes() {
    let body = "{\"resultMsg\":\"a|b|c\"}";
    assert_eq!(get_result_msg_data(body).unwrap(), "a|b|c");
}

#[test]
fn result_msg_of_junk_is_an_error() {
    assert_eq!(get_result_msg_data("not json"), Err(MarketError::MalformedJson));
    assert_eq!(get_result_msg_market_list("{"), Err(MarketError::MalformedJson));
}

#[test]
fn category_records_read_their_members() {
    let data = "[{\"grade\":3,\"mainKey\":11653,\"minPrice\":1000000,\"name\":\"Ring of Crescent Guardian\",\"sumCount\":5},{\"grade\":2,\"mainKey\":12094,\"minPrice\":420000,\"name\":\"Blue Coral Earring\",\"sumCount\":11}]";
    let items = CategoryGivenInfo::build_vec(data).unwrap();
    assert_eq!(items.len(), 2);
    assert_eq!(items[0].get_item_grade(), 3);
    assert_eq!(items[0].get_item_id(), 11653);
    assert_eq!(items[0].get_base_price(), 1000000);
    assert_eq!(items[0].get_item_name(), "Ring of Crescent Guardian");
    assert_eq!(items[0].stock, 5);
    assert_eq!(items[1].get_item_name(), "Blue Coral Earring");
}

#[test]
fn category_listing_must_be_an_array() {
    assert!(matches!(
        CategoryGivenInfo::build_vec("{\"grade\":3}"),
        Err(MarketError::NotAnArray)
    ));
    assert!(matches!(
        CategoryGivenInfo::build_vec("nonsense"),
        Err(MarketError::MalformedJson)
    ));
}

#[test]
fn category_listing_rejects_an_unreadable_member() {
    // a quoted grade prints as "3" with quotes, which is no number
    let quoted = "[{\"grade\":\"3\",\"mainKey\":1,\"minPrice\":1,\"name\":\"A\",\"sumCount\":1}]";
    assert!(matches!(
        CategoryGivenInfo::build_vec(quoted),
        Err(MarketError::MalformedMember)
    ));
    // an absent member prints as null, which is no number either
    let missing = "[{\"grade\":3,\"minPrice\":1,\"name\":\"A\",\"sumCount\":1}]";
    assert!(matches!(
        CategoryGivenInfo::build_vec(missing),
        Err(MarketError::MalformedMember)
    ));
}

#[test]
fn category_body_extracts_the_listing_first() {
    let body = "{\"marketList\":[{\"grade\":1,\"mainKey\":5,\"minPrice\":100,\"name\":\"Bare Ring\",\"sumCount\":1}]}";
    let items = CategoryGivenInfo::from_post(body).unwrap();
    assert_eq!(items.len(), 1);
    assert_eq!(items[0].get_item_name(), "Bare Ring");
}

fn buy_sell_body() -> &'static str {
    "{\"maxRegisterForWorldMarket\":10,\"basePrice\":150000,\"enchantGroup\":1,\
      \"enchantMaterialKey\":12345,\"enchantMaterialPrice\":300000,\"enchantNeedCount\":1,\
      \"marketConditionList\":[{\"buyCount\":2,\"sellCount\":0,\"pricePerOne\":100},\
      {\"buyCount\":0,\"sellCount\":3,\"pricePerOne\":250},\
      {\"buyCount\":0,\"sellCount\":1,\"pricePerOne\":500}]}"
}

#[test]
fn buy_sell_info_reads_its_members() {
    let info = ItemBuySellInfo::from_post(buy_sell_body()).unwrap();
    assert_eq!(info.get_base_price(), 150000);
    assert_eq!(info.get_enhancement_material_id(), 12345);
    assert_eq!(info.enhancement_material_base_price, 300000);
    assert_eq!(info.enhancement_material_required_amount, 1);
    assert_eq!(info.max_bids_per_person, 10);
    assert_eq!(info.bids.len(), 3);
    assert_eq!(info.bids[0].buy_count, 2);
    assert_eq!(info.bids[0].sell_count, 0);
    assert_eq!(info.bids[0].bidding_price, 100);
}

#[test]
fn buy_sell_prices_fold_over_the_steps() {
    let info = ItemBuySellInfo::from_post(buy_sell_body()).unwrap();
    assert_eq!(info.get_max_price(), 500);
    assert_eq!(info.get_min_price(), 100);
    // the cheapest step with sell orders standing
    assert_eq!(info.get_lowest_listed(), 250);
}

#[test]
fn lowest_listed_falls_back_to_the_highest_step() {
    let body = "{\"maxRegisterForWorldMarket\":10,\"basePrice\":1,\"enchantGroup\":0,\
      \"enchantMaterialKey\":0,\"enchantMaterialPrice\":0,\"enchantNeedCount\":0,\
      \"marketConditionList\":[{\"buyCount\":2,\"sellCount\":0,\"pricePerOne\":100},\
      {\"buyCount\":1,\"sellCount\":0,\"pricePerOne\":900}]}";
    let info = ItemBuySellInfo::from_post(body).unwrap();
    assert_eq!(info.get_lowest_listed(), 900);
}

#[test]
fn prices_of_an_empty_listing_keep_their_fold_anchors() {
    let body = "{\"maxRegisterForWorldMarket\":0,\"basePrice\":0,\"enchantGroup\":0,\
      \"enchantMaterialKey\":0,\"enchantMaterialPrice\":0,\"enchantNeedCount\":0,\
      \"marketConditionList\":[]}";
    let info = ItemBuySellInfo::from_post(body).unwrap();
    assert_eq!(info.get_max_price(), 0);
    assert_eq!(info.get_min_price(), u64::MAX);
    assert_eq!(info.get_lowest_listed(), 0);
}

#[test]
fn an_unlisted_item_is_its_own_error() {
    let body = "An error page. This item cannot be registered on the Central Market. Sorry.";
    assert!(matches!(ItemBuySellInfo::from_post(body), Err(MarketError::ItemNotListed)));
}

#[test]
fn buy_sell_info_needs_a_condition_array() {
    assert!(matches!(
        ItemBuySellInfo::from_post("{\"basePrice\":1}"),
        Err(MarketError::NotAnArray)
    ));
    assert!(matches!(
        ItemBuySellInfo::from_post("<html>"),
        Err(MarketError::MalformedJson)
    ));
}

#[test]
fn buy_sell_info_rejects_an_unreadable_member() {
    let body = "{\"maxRegisterForWorldMarket\":10,\"basePrice\":\"lots\",\"enchantGroup\":0,\
      \"enchantMaterialKey\":0,\"enchantMaterialPrice\":0,\"enchantNeedCount\":0,\
      \"marketConditionList\":[]}";
    assert!(matches!(ItemBuySellInfo::from_post(body), Err(MarketError::MalformedMember)));
    let bad_bid = "{\"maxRegisterForWorldMarket\":10,\"basePrice\":1,\"enchantGroup\":0,\
      \"enchantMaterialKey\":0,\"enchantMaterialPrice\":0,\"enchantNeedCount\":0,\
      \"marketConditionList\":[{\"buyCount\":1,\"sellCount\":true,\"pricePerOne\":9}]}";
    assert!(matches!(ItemBuySellInfo::from_post(bad_bid), Err(MarketError::MalformedMember)));
}

#[test]
fn market_error_messages_name_the_failure() {
    assert_eq!(MarketError::MalformedJson.message(), "response is not well-formed JSON");
    assert_eq!(MarketError::NotAnArray.message(), "expected a JSON array");
    assert_eq!(MarketError::MalformedRecord.message(), "record has too few fields");
    assert_eq!(MarketError::MalformedMember.message(), "a JSON member is not a readable number");
    assert_eq!(MarketError::ItemNotListed.message(), "item cannot be listed on the market");
}
