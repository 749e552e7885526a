//! Marketplace tax and profit arithmetic.
//!
//! Tax rates are exact scaled integers in millionths of the sale price:
//! a rate of `851500` keeps 0.8515 of the price for the seller. The scale
//! is fine enough to hold every rate the bonus table can produce exactly.

use vstd::prelude::*;

verus! {

/// Scale of a tax rate: a rate of `TAX_SCALE` keeps the whole sale price.
pub const TAX_SCALE: u32 = 1_000_000;

/// The seller's share of a sale in millionths: a base share of 0.65,
/// raised multiplicatively by bonuses in thousandths (value pack +0.30,
/// merchant ring +0.05, and one family-fame step of +0.005 / +0.01 / +0.015,
/// the highest step whose threshold the fame reaches).
pub open spec fn spec_market_tax(fame: int, value_pack: bool, merch_ring: bool) -> int {
    650_000 + 650 * spec_tax_bonus(fame, value_pack, merch_ring)
}

/// The additive bonus on the seller's share, in thousandths of the base share.
pub open spec fn spec_tax_bonus(fame: int, value_pack: bool, merch_ring: bool) -> int {
    (if value_pack {
        300int
    } else {
        0int
    }) + (if merch_ring {
        50int
    } else {
        0int
    }) + (if fame >= 7000 {
        15int
    } else if fame >= 4000 {
        10int
    } else if fame >= 1000 {
        5int
    } else {
        0int
    })
}

/// Computes the seller's share of a sale, in millionths of the sale price.
///
/// The fame steps are checked from the highest threshold down, so exactly
/// one step applies and a higher fame never yields a lower rate.
pub fn get_market_tax(fam_fame: u16, value_pack: bool, merch_ring: bool) -> (rate: u32)
    ensures
        rate == spec_market_tax(fam_fame as int, value_pack, merch_ring),
        650_000 <= rate <= 887_250,
        rate <= TAX_SCALE,
{
    let mut bonus: u32 = 0;
    if value_pack {
        bonus = bonus + 300;
    }
    if merch_ring {
        bonus = bonus + 50;
    }
    if fam_fame >= 7000 {
        bonus = bonus + 15;
    } else if fam_fame >= 4000 {
        bonus = bonus + 10;
    } else if fam_fame >= 1000 {
        bonus = bonus + 5;
    }
    650_000 + 650 * bonus
}

/// The seller's share never shrinks as family fame grows, with the other
/// bonuses held fixed.
pub proof fn lemma_market_tax_monotonic_in_fame(
    fame1: int,
    fame2: int,
    value_pack: bool,
    merch_ring: bool,
)
    requires
        fame1 <= fame2,
    ensures
        spec_market_tax(fame1, value_pack, merch_ring) <= spec_market_tax(
            fame2,
            value_pack,
            merch_ring,
        ),
{
}

/// Computes the raw profit of an item: its sale value less its make cost.
pub fn calc_profit(cost_to_make: u64, item_value: u64) -> (profit: i64)
    requires
        cost_to_make <= i64::MAX,
        item_value <= i64::MAX,
    ensures
        profit == item_value - cost_to_make,
{
    let cost = cost_to_make as i64;
    let value = item_value as i64;
    value - cost
}

/// The sale value kept after tax: the floor of the sale value times the rate.
pub open spec fn spec_taxed_value(item_value: int, tax_rate: int) -> int {
    (item_value * tax_rate) / (TAX_SCALE as int)
}

/// Computes the profit of an item after marketplace tax: the taxed sale
/// value (rounded down) less the make cost. `tax_rate` is the seller's
/// share in millionths, as [`get_market_tax`] returns it.
pub fn calc_profit_taxed(cost_to_make: u64, item_value: u64, tax_rate: u32) -> (profit: i64)
    requires
        cost_to_make <= i64::MAX,
        item_value <= i64::MAX,
        tax_rate <= TAX_SCALE,
    ensures
        profit == spec_taxed_value(item_value as int, tax_rate as int) - cost_to_make,
{
    proof {
        lemma_taxed_value_le(item_value as int, tax_rate as int);
    }
    let taxed = (((item_value as u128) * (tax_rate as u128)) / (TAX_SCALE as u128)) as u64;
    taxed as i64 - cost_to_make as i64
}

/// Taxing never raises a value: with a rate of at most the whole scale,
/// the taxed value stays between zero and the value itself.
pub proof fn lemma_taxed_value_le(item_value: int, tax_rate: int)
    requires
        0 <= item_value,
        0 <= tax_rate <= TAX_SCALE,
    ensures
        0 <= spec_taxed_value(item_value, tax_rate) <= item_value,
{
    let scale = TAX_SCALE as int;
    vstd::arithmetic::mul::lemma_mul_inequality(tax_rate, scale, item_value);
    assert(item_value * tax_rate == tax_rate * item_value) by {
        vstd::arithmetic::mul::lemma_mul_is_commutative(item_value, tax_rate);
    }
    assert(item_value * tax_rate <= item_value * scale);
    vstd::arithmetic::div_mod::lemma_div_is_ordered(item_value * tax_rate, item_value * scale, scale);
    assert((item_value * scale) / scale == item_value) by {
        vstd::arithmetic::div_mod::lemma_div_by_multiple(item_value, scale);
    }
    vstd::arithmetic::div_mod::lemma_div_pos_is_pos(item_value * tax_rate, scale);
    vstd::arithmetic::mul::lemma_mul_nonnegative(item_value, tax_rate);
}

} // verus!
