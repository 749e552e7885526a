//! Enhancement-profit calculator for a game's player-driven marketplace.
//!
//! The library computes enhancement success chances, the expected number of
//! base items consumed by a chain of enhancement attempts, and the profit
//! (before and after marketplace tax) of selling the result. All rates are
//! held as exact scaled integers: success chances in ten-thousandths and tax
//! rates in millionths, so every formula is verified to produce the exact
//! rational value it claims.

pub mod accessories;
pub mod enhancement_calcs;
pub mod errors;
pub mod market_calcs;
pub mod market_json;
pub mod market_requests;
pub mod market_urls;
pub mod text;
