//! The web addresses of the regional trade markets.

use vstd::prelude::*;
use vstd::string::StringExecFns;
use crate::text::str_eq;

verus! {

/// The marketplace regions the trade API serves.
#[derive(Clone, Copy, Debug, PartialEq, Eq, Structural)]
pub enum Region {
    Na,
    Eu,
    Sea,
    Mena,
    Kr,
    Ru,
    Jp,
    Th,
    Tw,
    Sa,
    ConsoleEu,
    ConsoleNa,
    ConsoleAsia,
}

/// The short code by which a region is named.
pub open spec fn spec_region_code(region: Region) -> Seq<char> {
    match region {
        Region::Na => "na"@,
        Region::Eu => "eu"@,
        Region::Sea => "sea"@,
        Region::Mena => "mena"@,
        Region::Kr => "kr"@,
        Region::Ru => "ru"@,
        Region::Jp => "jp"@,
        Region::Th => "th"@,
        Region::Tw => "tw"@,
        Region::Sa => "sa"@,
        Region::ConsoleEu => "console_eu"@,
        Region::ConsoleNa => "console_na"@,
        Region::ConsoleAsia => "console_asia"@,
    }
}

/// The web address of a region's trade market.
pub open spec fn spec_market_url(region: Region) -> Seq<char> {
    match region {
        Region::Na => "https://na-trade.naeu.playblackdesert.com"@,
        Region::Eu => "https://eu-trade.naeu.playblackdesert.com"@,
        Region::Sea => "https://trade.sea.playblackdesert.com"@,
        Region::Mena => "https://trade.tr.playblackdesert.com"@,
        Region::Kr => "https://trade.kr.playblackdesert.com"@,
        Region::Ru => "https://trade.ru.playblackdesert.com"@,
        Region::Jp => "https://trade.jp.playblackdesert.com"@,
        Region::Th => "https://trade.th.playblackdesert.com"@,
        Region::Tw => "https://trade.tw.playblackdesert.com"@,
        Region::Sa => "https://trade.sa.playblackdesert.com"@,
        Region::ConsoleEu => "https://eu-trade.console.playblackdesert.com"@,
        Region::ConsoleNa => "https://na-trade.console.playblackdesert.com"@,
        Region::ConsoleAsia => "https://asia-trade.console.playblackdesert.com"@,
    }
}

impl Region {
    /// Finds the region named by a short code: exactly the region whose
    /// code matches, and nothing when no region carries that code.
    pub fn from_code(code: &str) -> (r: Option<Region>)
        ensures
            r matches Some(region) ==> code@ == spec_region_code(region),
            r is None ==> forall|region: Region| code@ != spec_region_code(region),
    {
        if str_eq(code, "na") {
            Some(Region::Na)
        } else if str_eq(code, "eu") {
            Some(Region::Eu)
        } else if str_eq(code, "sea") {
            Some(Region::Sea)
        } else if str_eq(code, "mena") {
            Some(Region::Mena)
        } else if str_eq(code, "kr") {
            Some(Region::Kr)
        } else if str_eq(code, "ru") {
            Some(Region::Ru)
        } else if str_eq(code, "jp") {
            Some(Region::Jp)
        } else if str_eq(code, "th") {
            Some(Region::Th)
        } else if str_eq(code, "tw") {
            Some(Region::Tw)
        } else if str_eq(code, "sa") {
            Some(Region::Sa)
        } else if str_eq(code, "console_eu") {
            Some(Region::ConsoleEu)
        } else if str_eq(code, "console_na") {
            Some(Region::ConsoleNa)
        } else if str_eq(code, "console_asia") {
            Some(Region::ConsoleAsia)
        } else {
            None
        }
    }
}

/// Gets the web address of a region's trade market.
pub fn get_market_url(region: Region) -> (url: &'static str)
    ensures
        url@ == spec_market_url(region),
{
    match region {
        Region::Na => "https://na-trade.naeu.playblackdesert.com",
        Region::Eu => "https://eu-trade.naeu.playblackdesert.com",
        Region::Sea => "https://trade.sea.playblackdesert.com",
        Region::Mena => "https://trade.tr.playblackdesert.com",
        Region::Kr => "https://trade.kr.playblackdesert.com",
        Region::Ru => "https://trade.ru.playblackdesert.com",
        Region::Jp => "https://trade.jp.playblackdesert.com",
        Region::Th => "https://trade.th.playblackdesert.com",
        Region::Tw => "https://trade.tw.playblackdesert.com",
        Region::Sa => "https://trade.sa.playblackdesert.com",
        Region::ConsoleEu => "https://eu-trade.console.playblackdesert.com",
        Region::ConsoleNa => "https://na-trade.console.playblackdesert.com",
        Region::ConsoleAsia => "https://asia-trade.console.playblackdesert.com",
    }
}

/// Appends a request path to a market's web address.
pub fn create_post_url(region_url: &str, post_req_subdirectory: &str) -> (url: String)
    ensures
        url@ == region_url@ + post_req_subdirectory@,
{
    let mut url = region_url.to_owned();
    url.append(post_req_subdirectory);
    url
}

} // verus!
