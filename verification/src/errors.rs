//! Error types for the calculator and the market-data parsers.

use vstd::prelude::*;

verus! {

/// A caller handed the enhancement calculator an argument outside its
/// documented domain.
#[derive(Clone, Copy, Debug, PartialEq, Eq, Structural)]
pub enum EnhanceError {
    /// The enhancement level is not in the range 1..=5 (PRI through PEN),
    /// or is past the last level from which another attempt is possible.
    LevelOutOfRange,
    /// Fewer failstack values were supplied than the attempted chain needs,
    /// one per tier crossed.
    NotEnoughStacks,
    /// An expected cost grew past what the machine word holds.
    CostOutOfRange,
}

impl EnhanceError {
    /// A short description, for callers that report the error.
    pub fn message(&self) -> (msg: &'static str)
        ensures
            self is LevelOutOfRange ==> msg@ == "enhancement level out of range"@,
            self is NotEnoughStacks ==> msg@ == "not enough failstacks supplied"@,
            self is CostOutOfRange ==> msg@ == "expected cost out of range"@,
    {
        match self {
            EnhanceError::LevelOutOfRange => "enhancement level out of range",
            EnhanceError::NotEnoughStacks => "not enough failstacks supplied",
            EnhanceError::CostOutOfRange => "expected cost out of range",
        }
    }
}

/// A market-data response could not be turned into records.
#[derive(Clone, Copy, Debug, PartialEq, Eq, Structural)]
pub enum MarketError {
    /// The response body is not well-formed JSON.
    MalformedJson,
    /// A listing field that should hold an array holds something else.
    NotAnArray,
    /// A delimited record has fewer fields than its layout requires.
    MalformedRecord,
    /// A JSON member that should hold a number could not be read as one.
    MalformedMember,
    /// The marketplace reports that the item cannot be listed at all.
    ItemNotListed,
}

impl MarketError {
    /// A short description, for callers that report the error.
    pub fn message(&self) -> (msg: &'static str)
        ensures
            self is MalformedJson ==> msg@ == "response is not well-formed JSON"@,
            self is NotAnArray ==> msg@ == "expected a JSON array"@,
            self is MalformedRecord ==> msg@ == "record has too few fields"@,
            self is MalformedMember ==> msg@ == "a JSON member is not a readable number"@,
            self is ItemNotListed ==> msg@ == "item cannot be listed on the market"@,
    {
        match self {
            MarketError::MalformedJson => "response is not well-formed JSON",
            MarketError::NotAnArray => "expected a JSON array",
            MarketError::MalformedRecord => "record has too few fields",
            MarketError::MalformedMember => "a JSON member is not a readable number",
            MarketError::ItemNotListed => "item cannot be listed on the market",
        }
    }
}

} // verus!
