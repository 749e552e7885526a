//! The record types of the market-data responses, and the parsers that
//! build them from response bodies.
//!
//! Two response shapes occur: delimited text, records separated by `|` and
//! fields inside a record by `-`; and JSON objects, whose members are read
//! through the JSON access layer and then parsed here. Numeric fields read
//! as zero when they are missing, not digits, or too large for their type,
//! as the layouts define.

use vstd::prelude::*;
use crate::errors::MarketError;
use crate::market_json::{
    array_len_of,
    array_of,
    element_member_text_of,
    get_result_msg_data,
    get_result_msg_market_list,
    json_check,
    json_array_len,
    json_element_member_text,
    json_member_array_len,
    json_member_element_text,
    json_member_text,
    json_ok_of,
    member_array_len_of,
    member_array_of,
    member_element_text_of,
    member_text_of,
    spec_result_msg_payload,
};
use crate::text::{
    contains_str,
    spec_contains_sub,
    spec_fields,
    spec_parses,
    spec_split,
    spec_parse_or_zero,
    spec_strip_ends,
    split_nonempty,
    split_str,
    parse_uint,
    parse_uint_or_zero,
    remove_second_quotes,
};

verus! {

/// A bare item identifier: every record kind reduces to "has an id".
pub struct ItemID {
    pub item_id: u32,
}

impl ItemID {
    /// Wraps an identifier.
    pub fn new(id: u32) -> (r: ItemID)
        ensures
            r.item_id == id,
    {
        ItemID { item_id: id }
    }

    /// The wrapped identifier.
    pub fn get_item_id(&self) -> (id: u32)
        ensures
            id == self.item_id,
    {
        self.item_id
    }
}

/// One record of an item sub-list response: the market state of an item at
/// one enhancement band.
pub struct SpecificItemInfo {
    pub item_id: u32,
    pub enhancement_min: u8,
    pub enhancement_max: u8,
    pub base_price: u64,
    pub stock: u64,
    pub total_trades: u64,
    pub price_cap_min: u64,
    pub price_cap_max: u64,
    pub last_sale_price: u64,
    pub last_sale_time: String,
}

/// Whether `item` holds exactly what the sub-list record layout reads from
/// the delimited record `rec`: nine numeric fields and a timestamp.
pub open spec fn spec_specific_item_matches(item: SpecificItemInfo, rec: Seq<char>) -> bool {
    let f = spec_split(rec, '-');
    &&& f.len() >= 10
    &&& item.item_id == spec_parse_or_zero(f[0], u32::MAX as int)
    &&& item.enhancement_min == spec_parse_or_zero(f[1], u8::MAX as int)
    &&& item.enhancement_max == spec_parse_or_zero(f[2], u8::MAX as int)
    &&& item.base_price == spec_parse_or_zero(f[3], u64::MAX as int)
    &&& item.stock == spec_parse_or_zero(f[4], u64::MAX as int)
    &&& item.total_trades == spec_parse_or_zero(f[5], u64::MAX as int)
    &&& item.price_cap_min == spec_parse_or_zero(f[6], u64::MAX as int)
    &&& item.price_cap_max == spec_parse_or_zero(f[7], u64::MAX as int)
    &&& item.last_sale_price == spec_parse_or_zero(f[8], u64::MAX as int)
    &&& item.last_sale_time@ == f[9]
}

impl SpecificItemInfo {
    /// Builds the records of a sub-list response from its delimited data:
    /// one record per non-empty `|` piece, each read by the layout above.
    /// Signals an error exactly when some record has fewer than ten fields.
    pub fn build_vec(data: &str) -> (r: Result<Vec<SpecificItemInfo>, crate::errors::MarketError>)
        ensures
            r is Ok <==> (forall|i: int|
                0 <= i < spec_fields(data@, '|').len() ==> spec_split(
                    #[trigger] spec_fields(data@, '|')[i],
                    '-',
                ).len() >= 10),
            r matches Ok(items) ==> items@.len() == spec_fields(data@, '|').len() && (forall|
                i: int,
            |
                0 <= i < items@.len() ==> spec_specific_item_matches(
                    #[trigger] items@[i],
                    spec_fields(data@, '|')[i],
                )),
            r matches Err(e) ==> e == crate::errors::MarketError::MalformedRecord,
    {
        let records = split_nonempty(data, '|');
        let ghost recs = spec_fields(data@, '|');
        let mut items: Vec<SpecificItemInfo> = Vec::new();
        let mut i: usize = 0;
        while i < records.len()
            invariant
                recs == spec_fields(data@, '|'),
                records@.map_values(|p: String| p@) == recs,
                0 <= i <= records@.len(),
                items@.len() == i,
                forall|j: int|
                    0 <= j < i ==> spec_specific_item_matches(#[trigger] items@[j], recs[j]),
            decreases records@.len() - i,
        {
            let fields = split_str(records[i].as_str(), '-');
            proof {
                assert(records@.map_values(|p: String| p@)[i as int] == records@[i as int]@);
            }
            if fields.len() < 10 {
                return Err(crate::errors::MarketError::MalformedRecord);
            }
            proof {
                assert forall|j: int| 0 <= j < 10 implies fields@.map_values(|p: String| p@)[j]
                    == #[trigger] fields@[j]@ by {}
            }
            let item = SpecificItemInfo {
                item_id: parse_uint_or_zero(fields[0].as_str(), u32::MAX as u64) as u32,
                enhancement_min: parse_uint_or_zero(fields[1].as_str(), u8::MAX as u64) as u8,
                enhancement_max: parse_uint_or_zero(fields[2].as_str(), u8::MAX as u64) as u8,
                base_price: parse_uint_or_zero(fields[3].as_str(), u64::MAX),
                stock: parse_uint_or_zero(fields[4].as_str(), u64::MAX),
                total_trades: parse_uint_or_zero(fields[5].as_str(), u64::MAX),
                price_cap_min: parse_uint_or_zero(fields[6].as_str(), u64::MAX),
                price_cap_max: parse_uint_or_zero(fields[7].as_str(), u64::MAX),
                last_sale_price: parse_uint_or_zero(fields[8].as_str(), u64::MAX),
                last_sale_time: fields[9].clone(),
            };
            items.push(item);
            i = i + 1;
        }
        proof {
            assert forall|i2: int| 0 <= i2 < recs.len() implies spec_split(
                #[trigger] recs[i2],
                '-',
            ).len() >= 10 by {
                assert(spec_specific_item_matches(items@[i2], recs[i2]));
            }
        }
        Ok(items)
    }
}

/// One record of the registration-queue response: an item waiting to be
/// listed.
pub struct RegQueueItem {
    pub item_id: u32,
    pub enhancement_level: u8,
    pub listed_price: u64,
    pub registered_timestamp: String,
}

/// Whether `item` holds exactly what the registration-queue record layout
/// reads from the delimited record `rec`.
pub open spec fn spec_reg_queue_matches(item: RegQueueItem, rec: Seq<char>) -> bool {
    let f = spec_split(rec, '-');
    &&& f.len() >= 4
    &&& item.item_id == spec_parse_or_zero(f[0], u32::MAX as int)
    &&& item.enhancement_level == spec_parse_or_zero(f[1], u8::MAX as int)
    &&& item.listed_price == spec_parse_or_zero(f[2], u64::MAX as int)
    &&& item.registered_timestamp@ == f[3]
}

impl RegQueueItem {
    /// Builds the records of a registration-queue response from its
    /// delimited data. Signals an error exactly when some record has fewer
    /// than four fields.
    pub fn build_vec(data: &str) -> (r: Result<Vec<RegQueueItem>, crate::errors::MarketError>)
        ensures
            r is Ok <==> (forall|i: int|
                0 <= i < spec_fields(data@, '|').len() ==> spec_split(
                    #[trigger] spec_fields(data@, '|')[i],
                    '-',
                ).len() >= 4),
            r matches Ok(items) ==> items@.len() == spec_fields(data@, '|').len() && (forall|
                i: int,
            |
                0 <= i < items@.len() ==> spec_reg_queue_matches(
                    #[trigger] items@[i],
                    spec_fields(data@, '|')[i],
                )),
            r matches Err(e) ==> e == crate::errors::MarketError::MalformedRecord,
    {
        let records = split_nonempty(data, '|');
        let ghost recs = spec_fields(data@, '|');
        let mut items: Vec<RegQueueItem> = Vec::new();
        let mut i: usize = 0;
        while i < records.len()
            invariant
                recs == spec_fields(data@, '|'),
                records@.map_values(|p: String| p@) == recs,
                0 <= i <= records@.len(),
                items@.len() == i,
                forall|j: int|
                    0 <= j < i ==> spec_reg_queue_matches(#[trigger] items@[j], recs[j]),
            decreases records@.len() - i,
        {
            let fields = split_str(records[i].as_str(), '-');
            proof {
                assert(records@.map_values(|p: String| p@)[i as int] == records@[i as int]@);
            }
            if fields.len() < 4 {
                return Err(crate::errors::MarketError::MalformedRecord);
            }
            proof {
                assert forall|j: int| 0 <= j < 4 implies fields@.map_values(|p: String| p@)[j]
                    == #[trigger] fields@[j]@ by {}
            }
            let item = RegQueueItem {
                item_id: parse_uint_or_zero(fields[0].as_str(), u32::MAX as u64) as u32,
                enhancement_level: parse_uint_or_zero(fields[1].as_str(), u8::MAX as u64) as u8,
                listed_price: parse_uint_or_zero(fields[2].as_str(), u64::MAX),
                registered_timestamp: fields[3].clone(),
            };
            items.push(item);
            i = i + 1;
        }
        proof {
            assert forall|i2: int| 0 <= i2 < recs.len() implies spec_split(
                #[trigger] recs[i2],
                '-',
            ).len() >= 4 by {
                assert(spec_reg_queue_matches(items@[i2], recs[i2]));
            }
        }
        Ok(items)
    }
}

/// One record of an id-search response: the market state of one item.
pub struct SearchedItem {
    pub item_id: u32,
    pub stock: u64,
    pub base_price: u64,
    pub total_trades: u64,
}

/// Whether `item` holds exactly what the id-search record layout reads
/// from the delimited record `rec`.
pub open spec fn spec_searched_item_matches(item: SearchedItem, rec: Seq<char>) -> bool {
    let f = spec_split(rec, '-');
    &&& f.len() >= 4
    &&& item.item_id == spec_parse_or_zero(f[0], u32::MAX as int)
    &&& item.stock == spec_parse_or_zero(f[1], u64::MAX as int)
    &&& item.base_price == spec_parse_or_zero(f[2], u64::MAX as int)
    &&& item.total_trades == spec_parse_or_zero(f[3], u64::MAX as int)
}

impl SearchedItem {
    /// Builds the records of an id-search response from its delimited data.
    /// Signals an error exactly when some record has fewer than four fields.
    pub fn build_vec(data: &str) -> (r: Result<Vec<SearchedItem>, crate::errors::MarketError>)
        ensures
            r is Ok <==> (forall|i: int|
                0 <= i < spec_fields(data@, '|').len() ==> spec_split(
                    #[trigger] spec_fields(data@, '|')[i],
                    '-',
                ).len() >= 4),
            r matches Ok(items) ==> items@.len() == spec_fields(data@, '|').len() && (forall|
                i: int,
            |
                0 <= i < items@.len() ==> spec_searched_item_matches(
                    #[trigger] items@[i],
                    spec_fields(data@, '|')[i],
                )),
            r matches Err(e) ==> e == crate::errors::MarketError::MalformedRecord,
    {
        let records = split_nonempty(data, '|');
        let ghost recs = spec_fields(data@, '|');
        let mut items: Vec<SearchedItem> = Vec::new();
        let mut i: usize = 0;
        while i < records.len()
            invariant
                recs == spec_fields(data@, '|'),
                records@.map_values(|p: String| p@) == recs,
                0 <= i <= records@.len(),
                items@.len() == i,
                forall|j: int|
                    0 <= j < i ==> spec_searched_item_matches(#[trigger] items@[j], recs[j]),
            decreases records@.len() - i,
        {
            let fields = split_str(records[i].as_str(), '-');
            proof {
                assert(records@.map_values(|p: String| p@)[i as int] == records@[i as int]@);
            }
            if fields.len() < 4 {
                return Err(crate::errors::MarketError::MalformedRecord);
            }
            proof {
                assert forall|j: int| 0 <= j < 4 implies fields@.map_values(|p: String| p@)[j]
                    == #[trigger] fields@[j]@ by {}
            }
            let item = SearchedItem {
                item_id: parse_uint_or_zero(fields[0].as_str(), u32::MAX as u64) as u32,
                stock: parse_uint_or_zero(fields[1].as_str(), u64::MAX),
                base_price: parse_uint_or_zero(fields[2].as_str(), u64::MAX),
                total_trades: parse_uint_or_zero(fields[3].as_str(), u64::MAX),
            };
            items.push(item);
            i = i + 1;
        }
        proof {
            assert forall|i2: int| 0 <= i2 < recs.len() implies spec_split(
                #[trigger] recs[i2],
                '-',
            ).len() >= 4 by {
                assert(spec_searched_item_matches(items@[i2], recs[i2]));
            }
        }
        Ok(items)
    }
}

impl SpecificItemInfo {
    /// Builds the records of a sub-list response body: the delimited
    /// payload is extracted from the JSON body, then read record by record
    /// with the exact contract of [`SpecificItemInfo::build_vec`].
    /// Signals an error exactly when the body is not well-formed JSON, or
    /// some record of the payload has fewer than ten fields.
    pub fn from_post(body: &str) -> (r: Result<Vec<SpecificItemInfo>, MarketError>)
        ensures
            r is Ok <==> (json_ok_of(body@) && (forall|i: int|
                0 <= i < spec_fields(spec_result_msg_payload(body@), '|').len() ==> spec_split(
                    #[trigger] spec_fields(spec_result_msg_payload(body@), '|')[i],
                    '-',
                ).len() >= 10)),
            r matches Ok(items) ==> items@.len() == spec_fields(
                spec_result_msg_payload(body@),
                '|',
            ).len() && (forall|i: int|
                0 <= i < items@.len() ==> spec_specific_item_matches(
                    #[trigger] items@[i],
                    spec_fields(spec_result_msg_payload(body@), '|')[i],
                )),
            !json_ok_of(body@) ==> (r matches Err(e) && e == MarketError::MalformedJson),
            r matches Err(e) ==> e == MarketError::MalformedJson || e
                == MarketError::MalformedRecord,
    {
        let data = match get_result_msg_data(body) {
            Ok(data) => data,
            Err(e) => {
                return Err(e);
            },
        };
        SpecificItemInfo::build_vec(data.as_str())
    }
}

impl RegQueueItem {
    /// Builds the records of a registration-queue response body: the
    /// delimited payload is extracted from the JSON body, then read record
    /// by record with the exact contract of [`RegQueueItem::build_vec`].
    /// Signals an error exactly when the body is not well-formed JSON, or
    /// some record of the payload has fewer than four fields.
    pub fn from_post(body: &str) -> (r: Result<Vec<RegQueueItem>, MarketError>)
        ensures
            r is Ok <==> (json_ok_of(body@) && (forall|i: int|
                0 <= i < spec_fields(spec_result_msg_payload(body@), '|').len() ==> spec_split(
                    #[trigger] spec_fields(spec_result_msg_payload(body@), '|')[i],
                    '-',
                ).len() >= 4)),
            r matches Ok(items) ==> items@.len() == spec_fields(
                spec_result_msg_payload(body@),
                '|',
            ).len() && (forall|i: int|
                0 <= i < items@.len() ==> spec_reg_queue_matches(
                    #[trigger] items@[i],
                    spec_fields(spec_result_msg_payload(body@), '|')[i],
                )),
            !json_ok_of(body@) ==> (r matches Err(e) && e == MarketError::MalformedJson),
            r matches Err(e) ==> e == MarketError::MalformedJson || e
                == MarketError::MalformedRecord,
    {
        let data = match get_result_msg_data(body) {
            Ok(data) => data,
            Err(e) => {
                return Err(e);
            },
        };
        RegQueueItem::build_vec(data.as_str())
    }
}

impl SearchedItem {
    /// Builds the records of an id-search response body: the delimited
    /// payload is extracted from the JSON body, then read record by record
    /// with the exact contract of [`SearchedItem::build_vec`].
    /// Signals an error exactly when the body is not well-formed JSON, or
    /// some record of the payload has fewer than four fields.
    pub fn from_post(body: &str) -> (r: Result<Vec<SearchedItem>, MarketError>)
        ensures
            r is Ok <==> (json_ok_of(body@) && (forall|i: int|
                0 <= i < spec_fields(spec_result_msg_payload(body@), '|').len() ==> spec_split(
                    #[trigger] spec_fields(spec_result_msg_payload(body@), '|')[i],
                    '-',
                ).len() >= 4)),
            r matches Ok(items) ==> items@.len() == spec_fields(
                spec_result_msg_payload(body@),
                '|',
            ).len() && (forall|i: int|
                0 <= i < items@.len() ==> spec_searched_item_matches(
                    #[trigger] items@[i],
                    spec_fields(spec_result_msg_payload(body@), '|')[i],
                )),
            !json_ok_of(body@) ==> (r matches Err(e) && e == MarketError::MalformedJson),
            r matches Err(e) ==> e == MarketError::MalformedJson || e
                == MarketError::MalformedRecord,
    {
        let data = match get_result_msg_data(body) {
            Ok(data) => data,
            Err(e) => {
                return Err(e);
            },
        };
        SearchedItem::build_vec(data.as_str())
    }
}

/// One record of a category listing: an item with its grade, price band
/// anchor and display name.
#[derive(Debug)]
pub struct CategoryGivenInfo {
    pub item_grade: u8,
    pub item_id: u32,
    pub base_price: u64,
    pub item_name: String,
    pub stock: u64,
}

impl CategoryGivenInfo {
    /// The item's grade.
    pub fn get_item_grade(&self) -> (grade: u8)
        ensures
            grade == self.item_grade,
    {
        self.item_grade
    }

    /// The item's identifier.
    pub fn get_item_id(&self) -> (id: u32)
        ensures
            id == self.item_id,
    {
        self.item_id
    }

    /// The item's base price.
    pub fn get_base_price(&self) -> (price: u64)
        ensures
            price == self.base_price,
    {
        self.base_price
    }

    /// The item's display name.
    pub fn get_item_name(&self) -> (name: &str)
        ensures
            name@ == self.item_name@,
    {
        self.item_name.as_str()
    }

    /// Builds one category record from the texts of its JSON members, as
    /// the JSON access layer prints them: the numeric members must parse
    /// as the layouts define, and the name sheds the quotes JSON text
    /// keeps around a string. Signals an error exactly when some numeric
    /// member does not parse.
    pub fn from_fields(grade: &str, id: &str, price: &str, name: &str, stock: &str) -> (r: Result<
        CategoryGivenInfo,
        MarketError,
    >)
        ensures
            r is Ok <==> (spec_parses(grade@, u8::MAX as int) && spec_parses(id@, u32::MAX as int)
                && spec_parses(price@, u64::MAX as int) && spec_parses(stock@, u64::MAX as int)),
            r matches Ok(info) ==> info.item_grade == spec_parse_or_zero(grade@, u8::MAX as int)
                && info.item_id == spec_parse_or_zero(id@, u32::MAX as int) && info.base_price
                == spec_parse_or_zero(price@, u64::MAX as int) && info.item_name@
                == spec_strip_ends(name@) && info.stock == spec_parse_or_zero(
                stock@,
                u64::MAX as int,
            ),
            r matches Err(e) ==> e == MarketError::MalformedMember,
    {
        let item_grade = match parse_uint(grade, u8::MAX as u64) {
            Some(v) => v as u8,
            None => {
                return Err(MarketError::MalformedMember);
            },
        };
        let item_id = match parse_uint(id, u32::MAX as u64) {
            Some(v) => v as u32,
            None => {
                return Err(MarketError::MalformedMember);
            },
        };
        let base_price = match parse_uint(price, u64::MAX) {
            Some(v) => v,
            None => {
                return Err(MarketError::MalformedMember);
            },
        };
        let stock = match parse_uint(stock, u64::MAX) {
            Some(v) => v,
            None => {
                return Err(MarketError::MalformedMember);
            },
        };
        Ok(
            CategoryGivenInfo {
                item_grade,
                item_id,
                base_price,
                item_name: remove_second_quotes(name),
                stock,
            },
        )
    }
}

/// Whether the numeric members of array element `i` of a category listing
/// all parse as their field types demand.
pub open spec fn spec_category_entry_parses(body: Seq<char>, i: int) -> bool {
    &&& spec_parses(element_member_text_of(body, i, "grade"@), u8::MAX as int)
    &&& spec_parses(element_member_text_of(body, i, "mainKey"@), u32::MAX as int)
    &&& spec_parses(element_member_text_of(body, i, "minPrice"@), u64::MAX as int)
    &&& spec_parses(element_member_text_of(body, i, "sumCount"@), u64::MAX as int)
}

/// Whether `info` holds exactly what the category layout reads from array
/// element `i` of the listing text.
pub open spec fn spec_category_matches(info: CategoryGivenInfo, body: Seq<char>, i: int) -> bool {
    &&& info.item_grade == spec_parse_or_zero(
        element_member_text_of(body, i, "grade"@),
        u8::MAX as int,
    )
    &&& info.item_id == spec_parse_or_zero(
        element_member_text_of(body, i, "mainKey"@),
        u32::MAX as int,
    )
    &&& info.base_price == spec_parse_or_zero(
        element_member_text_of(body, i, "minPrice"@),
        u64::MAX as int,
    )
    &&& info.item_name@ == spec_strip_ends(element_member_text_of(body, i, "name"@))
    &&& info.stock == spec_parse_or_zero(
        element_member_text_of(body, i, "sumCount"@),
        u64::MAX as int,
    )
}

impl CategoryGivenInfo {
    /// Builds the records of a category listing from its JSON array text:
    /// one record per array element, each read from its `grade`,
    /// `mainKey`, `minPrice`, `name` and `sumCount` members by
    /// [`CategoryGivenInfo::from_fields`].
    ///
    /// Signals an error exactly when the text is not well-formed JSON, is
    /// not a JSON array, or some element's numeric member does not parse.
    pub fn build_vec(data: &str) -> (r: Result<Vec<CategoryGivenInfo>, MarketError>)
        ensures
            r is Ok <==> (json_ok_of(data@) && array_of(data@) && (forall|i: int|
                0 <= i < array_len_of(data@) ==> spec_category_entry_parses(data@, i))),
            r matches Ok(items) ==> items@.len() == array_len_of(data@) && (forall|i: int|
                0 <= i < items@.len() ==> spec_category_matches(#[trigger] items@[i], data@, i)),
            !json_ok_of(data@) ==> (r matches Err(e) && e == MarketError::MalformedJson),
            json_ok_of(data@) && !array_of(data@) ==> (r matches Err(e) && e
                == MarketError::NotAnArray),
            r matches Err(e) ==> e == MarketError::MalformedJson || e == MarketError::NotAnArray
                || e == MarketError::MalformedMember,
    {
        if !json_check(data) {
            return Err(MarketError::MalformedJson);
        }
        let n = match json_array_len(data) {
            Some(n) => n,
            None => {
                return Err(MarketError::NotAnArray);
            },
        };
        let mut item_info: Vec<CategoryGivenInfo> = Vec::new();
        let mut i: usize = 0;
        while i < n
            invariant
                json_ok_of(data@),
                array_of(data@),
                n == array_len_of(data@),
                0 <= i <= n,
                item_info@.len() == i,
                forall|j: int|
                    0 <= j < i ==> spec_category_matches(#[trigger] item_info@[j], data@, j),
                forall|j: int| 0 <= j < i ==> spec_category_entry_parses(data@, j),
            decreases n - i,
        {
            let grade = json_element_member_text(data, i, "grade");
            let id = json_element_member_text(data, i, "mainKey");
            let price = json_element_member_text(data, i, "minPrice");
            let name = json_element_member_text(data, i, "name");
            let stock = json_element_member_text(data, i, "sumCount");
            let info = match CategoryGivenInfo::from_fields(
                grade.as_str(),
                id.as_str(),
                price.as_str(),
                name.as_str(),
                stock.as_str(),
            ) {
                Ok(info) => info,
                Err(_) => {
                    proof {
                        assert(!spec_category_entry_parses(data@, i as int));
                    }
                    return Err(MarketError::MalformedMember);
                },
            };
            item_info.push(info);
            i = i + 1;
        }
        Ok(item_info)
    }

    /// Builds the category records of a world-market-list response body:
    /// the listing payload is extracted from the JSON body, then built by
    /// [`CategoryGivenInfo::build_vec`], whose conditions on the listing
    /// text carry over.
    pub fn from_post(body: &str) -> (r: Result<Vec<CategoryGivenInfo>, MarketError>)
        ensures
            r is Ok <==> (json_ok_of(body@) && ({
                let listing = member_text_of(body@, "marketList"@);
                json_ok_of(listing) && array_of(listing) && (forall|i: int|
                    0 <= i < array_len_of(listing) ==> spec_category_entry_parses(listing, i))
            })),
            r matches Ok(items) ==> ({
                let listing = member_text_of(body@, "marketList"@);
                items@.len() == array_len_of(listing) && (forall|i: int|
                    0 <= i < items@.len() ==> spec_category_matches(
                        #[trigger] items@[i],
                        listing,
                        i,
                    ))
            }),
            !json_ok_of(body@) ==> (r matches Err(e) && e == MarketError::MalformedJson),
            r matches Err(e) ==> e == MarketError::MalformedJson || e == MarketError::NotAnArray
                || e == MarketError::MalformedMember,
    {
        let data = match get_result_msg_market_list(body) {
            Ok(data) => data,
            Err(e) => {
                return Err(e);
            },
        };
        CategoryGivenInfo::build_vec(data.as_str())
    }
}

/// One price step of a buy/sell listing: how many sell and buy orders
/// stand at that price.
#[derive(Clone, Copy, Debug)]
pub struct BiddingInfo {
    pub sell_count: u32,
    pub buy_count: u32,
    pub bidding_price: u64,
}

/// The largest bidding price among the steps, and zero for none.
pub open spec fn spec_max_price(bids: Seq<BiddingInfo>) -> int
    decreases bids.len(),
{
    if bids.len() == 0 {
        0
    } else {
        let m = spec_max_price(bids.drop_last());
        if bids.last().bidding_price > m {
            bids.last().bidding_price as int
        } else {
            m
        }
    }
}

/// The smallest bidding price among the steps, and `u64::MAX` for none.
pub open spec fn spec_min_price(bids: Seq<BiddingInfo>) -> int
    decreases bids.len(),
{
    if bids.len() == 0 {
        u64::MAX as int
    } else {
        let m = spec_min_price(bids.drop_last());
        if bids.last().bidding_price < m {
            bids.last().bidding_price as int
        } else {
            m
        }
    }
}

/// The smallest bidding price among the steps with sell orders standing,
/// and `u64::MAX` when no step has any.
pub open spec fn spec_min_sell_price(bids: Seq<BiddingInfo>) -> int
    decreases bids.len(),
{
    if bids.len() == 0 {
        u64::MAX as int
    } else {
        let m = spec_min_sell_price(bids.drop_last());
        if bids.last().sell_count > 0 && bids.last().bidding_price < m {
            bids.last().bidding_price as int
        } else {
            m
        }
    }
}

/// What a buyer pays now: the cheapest price with sell orders standing,
/// or, when nothing is listed for sale, the highest price step of all.
pub open spec fn spec_lowest_listed(bids: Seq<BiddingInfo>) -> int {
    if spec_min_sell_price(bids) == u64::MAX as int {
        spec_max_price(bids)
    } else {
        spec_min_sell_price(bids)
    }
}

/// The buy/sell state of one item at one enhancement band: its price
/// steps and its enhancement-material needs.
#[derive(Debug)]
pub struct ItemBuySellInfo {
    pub bids: Vec<BiddingInfo>,
    pub base_price: u64,
    pub enhancement_group: u8,
    pub enhancement_material_id: u32,
    pub enhancement_material_base_price: u64,
    pub enhancement_material_required_amount: u8,
    pub max_bids_per_person: u16,
}

impl ItemBuySellInfo {
    /// The item's base price.
    pub fn get_base_price(&self) -> (price: u64)
        ensures
            price == self.base_price,
    {
        self.base_price
    }

    /// The identifier of the material one attempt consumes.
    pub fn get_enhancement_material_id(&self) -> (id: u32)
        ensures
            id == self.enhancement_material_id,
    {
        self.enhancement_material_id
    }

    /// The largest price step, and zero when there are none.
    pub fn get_max_price(&self) -> (max: u64)
        ensures
            max == spec_max_price(self.bids@),
    {
        let mut max: u64 = 0;
        let mut i: usize = 0;
        while i < self.bids.len()
            invariant
                0 <= i <= self.bids@.len(),
                max == spec_max_price(self.bids@.take(i as int)),
            decreases self.bids@.len() - i,
        {
            proof {
                assert(self.bids@.take(i + 1).drop_last() =~= self.bids@.take(i as int));
            }
            let bid = self.bids[i];
            if bid.bidding_price > max {
                max = bid.bidding_price;
            }
            i = i + 1;
        }
        proof {
            assert(self.bids@.take(self.bids@.len() as int) =~= self.bids@);
        }
        max
    }

    /// The smallest price step, and `u64::MAX` when there are none.
    pub fn get_min_price(&self) -> (min: u64)
        ensures
            min == spec_min_price(self.bids@),
    {
        let mut min: u64 = u64::MAX;
        let mut i: usize = 0;
        while i < self.bids.len()
            invariant
                0 <= i <= self.bids@.len(),
                min == spec_min_price(self.bids@.take(i as int)),
            decreases self.bids@.len() - i,
        {
            proof {
                assert(self.bids@.take(i + 1).drop_last() =~= self.bids@.take(i as int));
            }
            let bid = self.bids[i];
            if bid.bidding_price < min {
                min = bid.bidding_price;
            }
            i = i + 1;
        }
        proof {
            assert(self.bids@.take(self.bids@.len() as int) =~= self.bids@);
        }
        min
    }

    /// The price a buyer pays now: the cheapest step with sell orders
    /// standing, or the highest step of all when nothing is for sale.
    pub fn get_lowest_listed(&self) -> (price: u64)
        ensures
            price == spec_lowest_listed(self.bids@),
    {
        let mut price: u64 = u64::MAX;
        let mut max_price: u64 = 0;
        let mut i: usize = 0;
        while i < self.bids.len()
            invariant
                0 <= i <= self.bids@.len(),
                price == spec_min_sell_price(self.bids@.take(i as int)),
                max_price == spec_max_price(self.bids@.take(i as int)),
            decreases self.bids@.len() - i,
        {
            proof {
                assert(self.bids@.take(i + 1).drop_last() =~= self.bids@.take(i as int));
            }
            let bid = self.bids[i];
            if bid.bidding_price > max_price {
                max_price = bid.bidding_price;
            }
            if bid.sell_count > 0 && bid.bidding_price < price {
                price = bid.bidding_price;
            }
            i = i + 1;
        }
        proof {
            assert(self.bids@.take(self.bids@.len() as int) =~= self.bids@);
        }
        if price == u64::MAX {
            max_price
        } else {
            price
        }
    }

    /// Builds one price step from the texts of its JSON members, as the
    /// JSON access layer prints them: each count and the price must parse
    /// as the layouts define. Signals an error exactly when one of the
    /// three members does not parse.
    pub fn bidding_from_fields(sell: &str, buy: &str, price: &str) -> (r: Result<
        BiddingInfo,
        MarketError,
    >)
        ensures
            r is Ok <==> (spec_parses(sell@, u32::MAX as int) && spec_parses(buy@, u32::MAX as int)
                && spec_parses(price@, u64::MAX as int)),
            r matches Ok(bid) ==> bid.sell_count == spec_parse_or_zero(sell@, u32::MAX as int)
                && bid.buy_count == spec_parse_or_zero(buy@, u32::MAX as int) && bid.bidding_price
                == spec_parse_or_zero(price@, u64::MAX as int),
            r matches Err(e) ==> e == MarketError::MalformedMember,
    {
        let sell_count = match parse_uint(sell, u32::MAX as u64) {
            Some(v) => v as u32,
            None => {
                return Err(MarketError::MalformedMember);
            },
        };
        let buy_count = match parse_uint(buy, u32::MAX as u64) {
            Some(v) => v as u32,
            None => {
                return Err(MarketError::MalformedMember);
            },
        };
        let bidding_price = match parse_uint(price, u64::MAX) {
            Some(v) => v,
            None => {
                return Err(MarketError::MalformedMember);
            },
        };
        Ok(BiddingInfo { sell_count, buy_count, bidding_price })
    }
}

/// Whether the scalar members of a buy/sell object all parse as their
/// field types demand.
pub open spec fn spec_buy_sell_scalars_parse(body: Seq<char>) -> bool {
    &&& spec_parses(member_text_of(body, "basePrice"@), u64::MAX as int)
    &&& spec_parses(member_text_of(body, "enchantGroup"@), u8::MAX as int)
    &&& spec_parses(member_text_of(body, "enchantMaterialKey"@), u32::MAX as int)
    &&& spec_parses(member_text_of(body, "enchantMaterialPrice"@), u64::MAX as int)
    &&& spec_parses(member_text_of(body, "enchantNeedCount"@), u8::MAX as int)
    &&& spec_parses(member_text_of(body, "maxRegisterForWorldMarket"@), u16::MAX as int)
}

/// Whether the members of element `i` of the price-step list all parse.
pub open spec fn spec_bid_entry_parses(body: Seq<char>, i: int) -> bool {
    &&& spec_parses(
        member_element_text_of(body, "marketConditionList"@, i, "sellCount"@),
        u32::MAX as int,
    )
    &&& spec_parses(
        member_element_text_of(body, "marketConditionList"@, i, "buyCount"@),
        u32::MAX as int,
    )
    &&& spec_parses(
        member_element_text_of(body, "marketConditionList"@, i, "pricePerOne"@),
        u64::MAX as int,
    )
}

/// Whether `bid` holds exactly what the price-step layout reads from
/// element `i` of the buy/sell object's list.
pub open spec fn spec_bid_matches(bid: BiddingInfo, body: Seq<char>, i: int) -> bool {
    &&& bid.sell_count == spec_parse_or_zero(
        member_element_text_of(body, "marketConditionList"@, i, "sellCount"@),
        u32::MAX as int,
    )
    &&& bid.buy_count == spec_parse_or_zero(
        member_element_text_of(body, "marketConditionList"@, i, "buyCount"@),
        u32::MAX as int,
    )
    &&& bid.bidding_price == spec_parse_or_zero(
        member_element_text_of(body, "marketConditionList"@, i, "pricePerOne"@),
        u64::MAX as int,
    )
}

/// Whether a buy/sell object is readable in full: well-formed JSON, a
/// price-step array, and every numeric member parsing.
pub open spec fn spec_buy_sell_ok(body: Seq<char>) -> bool {
    &&& json_ok_of(body)
    &&& member_array_of(body, "marketConditionList"@)
    &&& spec_buy_sell_scalars_parse(body)
    &&& forall|i: int|
        0 <= i < member_array_len_of(body, "marketConditionList"@) ==> spec_bid_entry_parses(
            body,
            i,
        )
}

/// Whether `info` holds exactly what the buy/sell layout reads from the
/// object text: the six scalar members and one price step per list
/// element, in order.
pub open spec fn spec_buy_sell_matches(info: ItemBuySellInfo, body: Seq<char>) -> bool {
    &&& info.base_price == spec_parse_or_zero(
        member_text_of(body, "basePrice"@),
        u64::MAX as int,
    )
    &&& info.enhancement_group == spec_parse_or_zero(
        member_text_of(body, "enchantGroup"@),
        u8::MAX as int,
    )
    &&& info.enhancement_material_id == spec_parse_or_zero(
        member_text_of(body, "enchantMaterialKey"@),
        u32::MAX as int,
    )
    &&& info.enhancement_material_base_price == spec_parse_or_zero(
        member_text_of(body, "enchantMaterialPrice"@),
        u64::MAX as int,
    )
    &&& info.enhancement_material_required_amount == spec_parse_or_zero(
        member_text_of(body, "enchantNeedCount"@),
        u8::MAX as int,
    )
    &&& info.max_bids_per_person == spec_parse_or_zero(
        member_text_of(body, "maxRegisterForWorldMarket"@),
        u16::MAX as int,
    )
    &&& info.bids@.len() == member_array_len_of(body, "marketConditionList"@)
    &&& forall|i: int|
        0 <= i < info.bids@.len() ==> spec_bid_matches(#[trigger] info.bids@[i], body, i)
}

impl ItemBuySellInfo {
    /// Builds the buy/sell state from its JSON object text: the scalar
    /// members are parsed from their texts, and every element of the
    /// `marketConditionList` array becomes one price step through
    /// [`ItemBuySellInfo::bidding_from_fields`].
    ///
    /// Signals an error exactly when the text is not well-formed JSON, its
    /// `marketConditionList` member is not a JSON array, or some numeric
    /// member does not parse.
    fn build_vec(data: &str) -> (r: Result<ItemBuySellInfo, MarketError>)
        ensures
            r is Ok <==> spec_buy_sell_ok(data@),
            r matches Ok(info) ==> spec_buy_sell_matches(info, data@),
            !json_ok_of(data@) ==> (r matches Err(e) && e == MarketError::MalformedJson),
            json_ok_of(data@) && !member_array_of(data@, "marketConditionList"@) ==> (r matches Err(
                e,
            ) && e == MarketError::NotAnArray),
            r matches Err(e) ==> e == MarketError::MalformedJson || e == MarketError::NotAnArray
                || e == MarketError::MalformedMember,
    {
        if !json_check(data) {
            return Err(MarketError::MalformedJson);
        }
        let n = match json_member_array_len(data, "marketConditionList") {
            Some(n) => n,
            None => {
                return Err(MarketError::NotAnArray);
            },
        };
        let base_price = match parse_uint(
            json_member_text(data, "basePrice").as_str(),
            u64::MAX,
        ) {
            Some(v) => v,
            None => {
                return Err(MarketError::MalformedMember);
            },
        };
        let enhancement_group = match parse_uint(
            json_member_text(data, "enchantGroup").as_str(),
            u8::MAX as u64,
        ) {
            Some(v) => v as u8,
            None => {
                return Err(MarketError::MalformedMember);
            },
        };
        let enhancement_material_id = match parse_uint(
            json_member_text(data, "enchantMaterialKey").as_str(),
            u32::MAX as u64,
        ) {
            Some(v) => v as u32,
            None => {
                return Err(MarketError::MalformedMember);
            },
        };
        let enhancement_material_base_price = match parse_uint(
            json_member_text(data, "enchantMaterialPrice").as_str(),
            u64::MAX,
        ) {
            Some(v) => v,
            None => {
                return Err(MarketError::MalformedMember);
            },
        };
        let enhancement_material_required_amount = match parse_uint(
            json_member_text(data, "enchantNeedCount").as_str(),
            u8::MAX as u64,
        ) {
            Some(v) => v as u8,
            None => {
                return Err(MarketError::MalformedMember);
            },
        };
        let max_bids_per_person = match parse_uint(
            json_member_text(data, "maxRegisterForWorldMarket").as_str(),
            u16::MAX as u64,
        ) {
            Some(v) => v as u16,
            None => {
                return Err(MarketError::MalformedMember);
            },
        };
        let mut bids_vec: Vec<BiddingInfo> = Vec::new();
        let mut i: usize = 0;
        while i < n
            invariant
                json_ok_of(data@),
                member_array_of(data@, "marketConditionList"@),
                n == member_array_len_of(data@, "marketConditionList"@),
                0 <= i <= n,
                bids_vec@.len() == i,
                forall|j: int|
                    0 <= j < i ==> spec_bid_matches(#[trigger] bids_vec@[j], data@, j),
                forall|j: int| 0 <= j < i ==> spec_bid_entry_parses(data@, j),
            decreases n - i,
        {
            let buy = json_member_element_text(data, "marketConditionList", i, "buyCount");
            let sell = json_member_element_text(data, "marketConditionList", i, "sellCount");
            let price = json_member_element_text(data, "marketConditionList", i, "pricePerOne");
            let bid = match ItemBuySellInfo::bidding_from_fields(
                sell.as_str(),
                buy.as_str(),
                price.as_str(),
            ) {
                Ok(bid) => bid,
                Err(_) => {
                    proof {
                        assert(!spec_bid_entry_parses(data@, i as int));
                    }
                    return Err(MarketError::MalformedMember);
                },
            };
            bids_vec.push(bid);
            i = i + 1;
        }
        Ok(
            ItemBuySellInfo {
                bids: bids_vec,
                base_price,
                enhancement_group,
                enhancement_material_id,
                enhancement_material_base_price,
                enhancement_material_required_amount,
                max_bids_per_person,
            },
        )
    }

    /// Builds the buy/sell state of one item from a response body. A body
    /// carrying the marketplace's cannot-be-registered notice signals that
    /// the item is not listed; any other body is read as the JSON object
    /// of [`ItemBuySellInfo::build_vec`], whose conditions carry over.
    pub fn from_post(data: &str) -> (r: Result<ItemBuySellInfo, MarketError>)
        ensures
            spec_contains_sub(
                data@,
                "This item cannot be registered on the Central Market."@,
            ) <==> (r matches Err(e) && e == MarketError::ItemNotListed),
            !spec_contains_sub(
                data@,
                "This item cannot be registered on the Central Market."@,
            ) ==> (r is Ok <==> spec_buy_sell_ok(data@)),
            r matches Ok(info) ==> spec_buy_sell_matches(info, data@),
            !spec_contains_sub(
                data@,
                "This item cannot be registered on the Central Market."@,
            ) && !json_ok_of(data@) ==> (r matches Err(e) && e == MarketError::MalformedJson),
            r matches Err(e) ==> e == MarketError::ItemNotListed || e == MarketError::MalformedJson
                || e == MarketError::NotAnArray || e == MarketError::MalformedMember,
    {
        if contains_str(data, "This item cannot be registered on the Central Market.") {
            return Err(MarketError::ItemNotListed);
        }
        ItemBuySellInfo::build_vec(data)
    }
}

} // verus!
