//! Accessory enhancement: success chances and expected material cost.
//!
//! Success chances are exact scaled integers in ten-thousandths: a chance of
//! `6750` means 0.675. Every rate in the per-tier table is a whole number of
//! ten-thousandths, so the piecewise-linear formula loses nothing to the
//! scaling. The expected number of base accessories consumed by a chain of
//! attempts is kept as an exact fraction of two integers.

use vstd::prelude::*;
use vstd::arithmetic::mul::lemma_mul_inequality;
use crate::errors::EnhanceError;
use crate::market_calcs::{TAX_SCALE, spec_taxed_value, lemma_taxed_value_le};
use crate::market_requests::{CategoryGivenInfo, ItemID};

verus! {

/// Scale of a success chance: a chance of `CHANCE_SCALE` is certainty.
pub const CHANCE_SCALE: u32 = 10_000;

/// The ceiling on any success chance: 0.9, whatever the failstack.
pub const CHANCE_CAP: u32 = 9_000;

/// Base success chance of an enhancement level, in ten-thousandths.
pub open spec fn spec_base_chance(level: int) -> int {
    if level == 1 {
        2500
    } else if level == 2 {
        1000
    } else if level == 3 {
        750
    } else if level == 4 {
        250
    } else {
        50
    }
}

/// Chance gained per failstack point up to the threshold, in ten-thousandths.
pub open spec fn spec_rate(level: int) -> int {
    if level == 1 {
        250
    } else if level == 2 {
        100
    } else if level == 3 {
        75
    } else if level == 4 {
        25
    } else {
        5
    }
}

/// The failstack count past which the gain per point drops.
pub open spec fn spec_threshold(level: int) -> int {
    if level == 1 {
        18
    } else if level == 2 {
        40
    } else if level == 3 {
        44
    } else if level == 4 {
        110
    } else {
        390
    }
}

/// Chance gained per failstack point past the threshold, in ten-thousandths.
pub open spec fn spec_reduced_rate(level: int) -> int {
    if level == 1 {
        50
    } else if level == 2 {
        20
    } else if level == 3 {
        15
    } else if level == 4 {
        5
    } else {
        1
    }
}

/// The two-segment linear chance before the 0.9 ceiling is applied.
pub open spec fn spec_uncapped_chance(level: int, failstack: int) -> int {
    if failstack <= spec_threshold(level) {
        spec_base_chance(level) + failstack * spec_rate(level)
    } else {
        spec_base_chance(level) + spec_threshold(level) * spec_rate(level) + (failstack
            - spec_threshold(level)) * spec_reduced_rate(level)
    }
}

/// The success chance of one attempt at `level` with `failstack` points,
/// in ten-thousandths, capped at 0.9.
pub open spec fn spec_chance(level: int, failstack: int) -> int {
    if spec_uncapped_chance(level, failstack) > CHANCE_CAP {
        CHANCE_CAP as int
    } else {
        spec_uncapped_chance(level, failstack)
    }
}

/// With no failstack, the chance of every level is exactly its base value
/// from the table.
pub proof fn lemma_chance_at_zero(level: int)
    requires
        1 <= level <= 5,
    ensures
        spec_chance(level, 0) == spec_base_chance(level),
{
}

/// The chance never leaves the interval from the level's base value up to
/// the 0.9 ceiling, for any failstack.
pub proof fn lemma_chance_bounds(level: int, failstack: int)
    requires
        1 <= level <= 5,
        0 <= failstack,
    ensures
        spec_base_chance(level) <= spec_chance(level, failstack) <= CHANCE_CAP,
        0 < spec_chance(level, failstack),
{
    if failstack <= spec_threshold(level) {
        assert(failstack * spec_rate(level) >= 0) by {
            vstd::arithmetic::mul::lemma_mul_nonnegative(failstack, spec_rate(level));
        }
    } else {
        assert(spec_threshold(level) * spec_rate(level) >= 0) by {
            vstd::arithmetic::mul::lemma_mul_nonnegative(spec_threshold(level), spec_rate(level));
        }
        assert((failstack - spec_threshold(level)) * spec_reduced_rate(level) >= 0) by {
            vstd::arithmetic::mul::lemma_mul_nonnegative(
                failstack - spec_threshold(level),
                spec_reduced_rate(level),
            );
        }
    }
}

/// A larger failstack never lowers the chance: the formula is monotonically
/// non-decreasing in the failstack at every level.
pub proof fn lemma_chance_monotonic(level: int, f1: int, f2: int)
    requires
        1 <= level <= 5,
        0 <= f1 <= f2,
    ensures
        spec_chance(level, f1) <= spec_chance(level, f2),
{
    let t = spec_threshold(level);
    let r = spec_rate(level);
    let rr = spec_reduced_rate(level);
    if f1 <= t && f2 <= t {
        lemma_mul_inequality(f1, f2, r);
    } else if f1 <= t && f2 > t {
        lemma_mul_inequality(f1, t, r);
        assert((f2 - t) * rr >= 0) by {
            vstd::arithmetic::mul::lemma_mul_nonnegative(f2 - t, rr);
        }
    } else {
        lemma_mul_inequality(f1 - t, f2 - t, rr);
    }
}

/// The success chance of one attempt, for a level already known valid.
/// Returns the exact table value in ten-thousandths.
pub fn chance_units(level: u8, failstack: u16) -> (chance: u32)
    requires
        1 <= level <= 5,
    ensures
        chance == spec_chance(level as int, failstack as int),
        spec_base_chance(level as int) <= chance <= CHANCE_CAP,
{
    proof {
        lemma_chance_bounds(level as int, failstack as int);
    }
    let f = failstack as u32;
    let uncapped: u32 = match level {
        1 => if f > 18 {
            2500 + 18 * 250 + (f - 18) * 50
        } else {
            2500 + f * 250
        },
        2 => if f > 40 {
            1000 + 40 * 100 + (f - 40) * 20
        } else {
            1000 + f * 100
        },
        3 => if f > 44 {
            750 + 44 * 75 + (f - 44) * 15
        } else {
            750 + f * 75
        },
        4 => if f > 110 {
            250 + 110 * 25 + (f - 110) * 5
        } else {
            250 + f * 25
        },
        _ => if f > 390 {
            50 + 390 * 5 + (f - 390) * 1
        } else {
            50 + f * 5
        },
    };
    if uncapped > CHANCE_CAP {
        CHANCE_CAP
    } else {
        uncapped
    }
}

/// Computes the success chance of enhancing an accessory, in ten-thousandths
/// of certainty. Signals an error exactly when the enhancement level is not
/// a valid attempt level (1 through 5, PRI through PEN).
pub fn calc_accessory_chance(enhancement_level: u8, failstack: u16) -> (r: Result<
    u32,
    EnhanceError,
>)
    ensures
        r is Ok <==> 1 <= enhancement_level <= 5,
        r matches Ok(chance) ==> chance == spec_chance(
            enhancement_level as int,
            failstack as int,
        ) && 0 < chance <= CHANCE_CAP,
        r matches Err(e) ==> e == EnhanceError::LevelOutOfRange,
{
    if enhancement_level < 1 || enhancement_level > 5 {
        return Err(EnhanceError::LevelOutOfRange);
    }
    Ok(chance_units(enhancement_level, failstack))
}

/// The expected number of base accessories consumed to enhance from the
/// base item up to tier `k`, as an exact fraction (numerator, denominator)
/// of the recurrence: one item is needed at the start, and passing tier `k`
/// takes `1 / chance_k` attempts on average, each consuming the item built
/// so far plus one fresh base item, with `chance_k` the success chance of
/// tier `k` at failstack `stacks[k - 1]`.
pub open spec fn spec_expected_frac(stacks: Seq<u16>, k: int) -> (int, int)
    decreases k,
{
    if k <= 0 {
        (1int, 1int)
    } else {
        let prev = spec_expected_frac(stacks, k - 1);
        (
            (CHANCE_SCALE as int) * (prev.0 + prev.1),
            spec_chance(k, stacks[k - 1] as int) * prev.1,
        )
    }
}

/// The least integer at least `a / b`, for positive `b`.
pub open spec fn spec_ceil_div(a: int, b: int) -> int {
    (a + b - 1) / b
}

/// The rounded-up quotient is the ceiling it claims to be: taking it that
/// many times covers `a`, and one time fewer does not.
pub proof fn lemma_ceil_div_is_ceiling(a: int, b: int)
    requires
        0 <= a,
        1 <= b,
    ensures
        b * spec_ceil_div(a, b) >= a,
        b * (spec_ceil_div(a, b) - 1) < a,
{
    vstd::arithmetic::div_mod::lemma_fundamental_div_mod(a + b - 1, b);
    let q = spec_ceil_div(a, b);
    let r = (a + b - 1) % b;
    vstd::arithmetic::div_mod::lemma_mod_bound(a + b - 1, b);
    assert(a + b - 1 == b * q + r);
    vstd::arithmetic::mul::lemma_mul_is_distributive_sub(b, q, 1);
}

/// An upper bound on the denominator of the expected-cost fraction after
/// `k` tiers: each tier multiplies it by a chance of at most 9000.
spec fn spec_den_cap(k: int) -> int {
    if k <= 0 {
        1
    } else if k == 1 {
        9000
    } else if k == 2 {
        81_000_000
    } else if k == 3 {
        729_000_000_000
    } else if k == 4 {
        6_561_000_000_000_000
    } else {
        59_049_000_000_000_000_000
    }
}

/// An upper bound on the expected-cost fraction's value after `k` tiers:
/// the numerator is at most this multiple of the denominator, because each
/// tier's chance is at least its base value.
spec fn spec_ratio_cap(k: int) -> int {
    if k <= 0 {
        1
    } else if k == 1 {
        8
    } else if k == 2 {
        90
    } else if k == 3 {
        1214
    } else if k == 4 {
        48_600
    } else {
        9_720_200
    }
}

/// Both parts of the expected-cost fraction stay positive and bounded:
/// the denominator by the product of the chance ceilings, the numerator by
/// a bounded multiple of the denominator.
proof fn lemma_frac_bounds(stacks: Seq<u16>, k: int)
    requires
        0 <= k <= 5,
        k <= stacks.len(),
    ensures
        1 <= spec_expected_frac(stacks, k).1 <= spec_den_cap(k),
        1 <= spec_expected_frac(stacks, k).0,
        spec_expected_frac(stacks, k).0 <= spec_ratio_cap(k) * spec_expected_frac(stacks, k).1,
    decreases k,
{
    if k > 0 {
        lemma_frac_bounds(stacks, k - 1);
        let prev = spec_expected_frac(stacks, k - 1);
        let p0 = prev.0;
        let p1 = prev.1;
        let ch = spec_chance(k, stacks[k - 1] as int);
        lemma_chance_bounds(k, stacks[k - 1] as int);
        lemma_mul_inequality(1, ch, p1);
        lemma_mul_inequality(ch, 9000, p1);
        if k == 1 {
            assert(10000 * (p0 + p1) <= 8 * (ch * p1)) by (nonlinear_arith)
                requires
                    p0 <= 1 * p1,
                    1 <= p1,
                    2500 <= ch,
            ;
        } else if k == 2 {
            assert(10000 * (p0 + p1) <= 90 * (ch * p1)) by (nonlinear_arith)
                requires
                    p0 <= 8 * p1,
                    1 <= p1,
                    1000 <= ch,
            ;
        } else if k == 3 {
            assert(10000 * (p0 + p1) <= 1214 * (ch * p1)) by (nonlinear_arith)
                requires
                    p0 <= 90 * p1,
                    1 <= p1,
                    750 <= ch,
            ;
        } else if k == 4 {
            assert(10000 * (p0 + p1) <= 48_600 * (ch * p1)) by (nonlinear_arith)
                requires
                    p0 <= 1214 * p1,
                    1 <= p1,
                    250 <= ch,
            ;
        } else {
            assert(10000 * (p0 + p1) <= 9_720_200 * (ch * p1)) by (nonlinear_arith)
                requires
                    p0 <= 48_600 * p1,
                    1 <= p1,
                    50 <= ch,
            ;
        }
    }
}

/// Runs the expected-cost recurrence over tiers 1 through `end_enhancement`,
/// returning the exact fraction.
fn expected_frac(end_enhancement: u8, stacks: &Vec<u16>) -> (frac: (u128, u128))
    requires
        1 <= end_enhancement <= 5,
        stacks@.len() >= end_enhancement,
    ensures
        frac.0 == spec_expected_frac(stacks@, end_enhancement as int).0,
        frac.1 == spec_expected_frac(stacks@, end_enhancement as int).1,
        1 <= frac.1,
{
    let end = end_enhancement as usize;
    let mut num: u128 = 1;
    let mut den: u128 = 1;
    let mut i: usize = 0;
    while i < end
        invariant
            1 <= end <= 5,
            stacks@.len() >= end,
            0 <= i <= end,
            num == spec_expected_frac(stacks@, i as int).0,
            den == spec_expected_frac(stacks@, i as int).1,
        decreases end - i,
    {
        proof {
            lemma_frac_bounds(stacks@, i as int);
            let rc = spec_ratio_cap(i as int);
            let dc = spec_den_cap(i as int);
            lemma_mul_inequality(den as int, dc, rc);
            lemma_mul_inequality(rc, 48_600, dc);
        }
        let ch = chance_units((i + 1) as u8, stacks[i]);
        proof {
            lemma_mul_inequality(ch as int, 9000, den as int);
        }
        let new_num: u128 = (CHANCE_SCALE as u128) * (num + den);
        let new_den: u128 = (ch as u128) * den;
        num = new_num;
        den = new_den;
        i = i + 1;
    }
    proof {
        lemma_frac_bounds(stacks@, end as int);
    }
    (num, den)
}

/// Calculates the exact expected number of base accessories consumed to
/// enhance from the base item to the given level, as a fraction
/// (numerator, denominator) of two positive integers.
///
/// Signals an error exactly when the level is not in 1..=5, or when fewer
/// failstack values are supplied than tiers attempted (one per tier).
pub fn accessories_required_exact(end_enhancement: u8, stacks: Vec<u16>) -> (r: Result<
    (u128, u128),
    EnhanceError,
>)
    ensures
        r is Ok <==> (1 <= end_enhancement <= 5 && stacks@.len() >= end_enhancement),
        r matches Ok(frac) ==> frac.0 == spec_expected_frac(stacks@, end_enhancement as int).0
            && frac.1 == spec_expected_frac(stacks@, end_enhancement as int).1 && 1 <= frac.1,
        !(1 <= end_enhancement <= 5) ==> (r matches Err(e) && e == EnhanceError::LevelOutOfRange),
        1 <= end_enhancement <= 5 && stacks@.len() < end_enhancement ==> (r matches Err(e) && e
            == EnhanceError::NotEnoughStacks),
{
    if end_enhancement < 1 || end_enhancement > 5 {
        return Err(EnhanceError::LevelOutOfRange);
    }
    if stacks.len() < end_enhancement as usize {
        return Err(EnhanceError::NotEnoughStacks);
    }
    Ok(expected_frac(end_enhancement, &stacks))
}

/// Calculates the number of base accessories to budget for enhancing from
/// the base item to the given level: the expected number of the defined
/// recurrence, rounded up to a whole item.
///
/// Signals an error exactly when the level is not in 1..=5, or when fewer
/// failstack values are supplied than tiers attempted (one per tier).
pub fn accessories_required(end_enhancement: u8, stacks: Vec<u16>) -> (r: Result<
    u64,
    EnhanceError,
>)
    ensures
        r is Ok <==> (1 <= end_enhancement <= 5 && stacks@.len() >= end_enhancement),
        r matches Ok(amount) ==> ({
            let frac = spec_expected_frac(stacks@, end_enhancement as int);
            amount == spec_ceil_div(frac.0, frac.1)
        }),
        !(1 <= end_enhancement <= 5) ==> (r matches Err(e) && e == EnhanceError::LevelOutOfRange),
        1 <= end_enhancement <= 5 && stacks@.len() < end_enhancement ==> (r matches Err(e) && e
            == EnhanceError::NotEnoughStacks),
{
    if end_enhancement < 1 || end_enhancement > 5 {
        return Err(EnhanceError::LevelOutOfRange);
    }
    if stacks.len() < end_enhancement as usize {
        return Err(EnhanceError::NotEnoughStacks);
    }
    let (num, den) = expected_frac(end_enhancement, &stacks);
    proof {
        lemma_frac_bounds(stacks@, end_enhancement as int);
        let rc = spec_ratio_cap(end_enhancement as int);
        let dc = spec_den_cap(end_enhancement as int);
        lemma_mul_inequality(den as int, dc, rc);
        lemma_mul_inequality(rc, 9_720_200, dc);
        vstd::arithmetic::div_mod::lemma_div_is_ordered(
            num as int + den as int - 1,
            rc * (den as int) + den as int - 1,
            den as int,
        );
        vstd::arithmetic::div_mod::lemma_fundamental_div_mod_converse(
            rc * (den as int) + den as int - 1,
            den as int,
            rc,
            den as int - 1,
        );
    }
    let q = (num + (den - 1)) / den;
    Ok(q as u64)
}

/// Details of how an accessory will be enhanced: which item, from which
/// level, and with which failstacks (one per tier to cross).
pub struct AccEnhancementDetails {
    pub item_id: ItemID,
    pub level: u8,
    pub stacks: Option<Vec<u16>>,
}

impl AccEnhancementDetails {
    /// The failstack of the next attempt: the first of the supplied stacks,
    /// if any were supplied at all.
    pub open spec fn spec_first_stack(&self) -> Option<u16> {
        match self.stacks {
            Option::Some(v) => if v@.len() > 0 {
                Option::Some(v@[0])
            } else {
                Option::None
            },
            Option::None => Option::None,
        }
    }

    /// Gathers the enhancement details of one item.
    pub fn new(item: ItemID, level: u8, stacks: Option<Vec<u16>>) -> (r: AccEnhancementDetails)
        ensures
            r.item_id == item,
            r.level == level,
            r.stacks == stacks,
    {
        AccEnhancementDetails { item_id: item, level, stacks }
    }

    /// The supplied failstacks, if any.
    pub fn get_stacks(&self) -> (r: Option<&Vec<u16>>)
        ensures
            r is Some <==> self.stacks is Some,
            r matches Some(v) ==> self.stacks == Some(*v),
    {
        match &self.stacks {
            Some(v) => Some(v),
            None => None,
        }
    }

    /// The item's current enhancement level.
    pub fn get_level(&self) -> (level: u8)
        ensures
            level == self.level,
    {
        self.level
    }

    /// The item's identifier.
    pub fn get_item_id(&self) -> (id: u32)
        ensures
            id == self.item_id.item_id,
    {
        self.item_id.item_id
    }

    /// The first supplied failstack, if one was supplied.
    pub fn get_first_stack(&self) -> (r: Option<u16>)
        ensures
            r == self.spec_first_stack(),
    {
        match &self.stacks {
            None => None,
            Some(v) => if v.len() > 0 {
                Some(v[0])
            } else {
                None
            },
        }
    }
}

/// What makes an enhancement profitable: its make cost, its sale value,
/// and the profit before and after marketplace tax.
pub struct AccProfitDetails {
    pub make_cost: u64,
    pub actual_value: u64,
    pub profit: i64,
    pub profit_taxed: i64,
}

impl AccProfitDetails {
    /// Derives the profit figures from a make cost, a sale value, and a
    /// tax rate in millionths: the raw profit is the value less the cost,
    /// and the taxed profit keeps the taxed value, rounded down to a whole
    /// unit of silver, less the cost.
    pub fn new(make_cost: u64, actual_value: u64, tax_rate: u32) -> (r: AccProfitDetails)
        requires
            make_cost <= i64::MAX,
            actual_value <= i64::MAX,
            tax_rate <= TAX_SCALE,
        ensures
            r.make_cost == make_cost,
            r.actual_value == actual_value,
            r.profit == actual_value - make_cost,
            r.profit_taxed == spec_taxed_value(actual_value as int, tax_rate as int) - make_cost,
    {
        proof {
            lemma_taxed_value_le(actual_value as int, tax_rate as int);
        }
        let profit = actual_value as i64 - make_cost as i64;
        let taxed = ((actual_value as u128) * (tax_rate as u128)) / (TAX_SCALE as u128);
        let profit_taxed = taxed as i64 - make_cost as i64;
        AccProfitDetails { make_cost, actual_value, profit, profit_taxed }
    }

    /// What the item cost to make.
    pub fn get_make_cost(&self) -> (cost: u64)
        ensures
            cost == self.make_cost,
    {
        self.make_cost
    }

    /// What the item sells for.
    pub fn get_actual_value(&self) -> (value: u64)
        ensures
            value == self.actual_value,
    {
        self.actual_value
    }

    /// The profit before tax.
    pub fn get_profit(&self) -> (profit: i64)
        ensures
            profit == self.profit,
    {
        self.profit
    }

    /// The profit after marketplace tax.
    pub fn get_profit_taxed(&self) -> (profit: i64)
        ensures
            profit == self.profit_taxed,
    {
        self.profit_taxed
    }
}

/// Whether a category record passes the grade and price-band filter.
pub open spec fn spec_acc_kept(
    acc: CategoryGivenInfo,
    grade: u8,
    min_price: u64,
    max_price: u64,
) -> bool {
    acc.item_grade == grade && acc.base_price >= min_price && acc.base_price <= max_price
}

/// The category records that pass the grade and price-band filter, in
/// their original order.
pub open spec fn spec_filter_accessories(
    accs: Seq<CategoryGivenInfo>,
    grade: u8,
    min_price: u64,
    max_price: u64,
) -> Seq<CategoryGivenInfo> {
    accs.filter(|acc: CategoryGivenInfo| spec_acc_kept(acc, grade, min_price, max_price))
}

/// Filters accessories by grade, a minimum price, and a maximum price.
pub fn filter_accessories_category(
    accessories: Vec<CategoryGivenInfo>,
    grade_filter: u8,
    min_price: u64,
    max_price: u64,
) -> (accs: Vec<CategoryGivenInfo>)
    ensures
        accs@ == spec_filter_accessories(accessories@, grade_filter, min_price, max_price),
{
    let ghost orig = accessories@;
    let mut rest = accessories;
    let mut out: Vec<CategoryGivenInfo> = Vec::new();
    proof {
        reveal(Seq::filter);
        assert(orig.take(0) =~= Seq::<CategoryGivenInfo>::empty());
        assert(rest@ =~= orig.skip(0));
    }
    while rest.len() > 0
        invariant
            rest@.len() <= orig.len(),
            rest@ == orig.skip(orig.len() - rest@.len()),
            out@ == spec_filter_accessories(
                orig.take(orig.len() - rest@.len()),
                grade_filter,
                min_price,
                max_price,
            ),
        decreases rest@.len(),
    {
        let ghost j = orig.len() - rest@.len();
        let acc = rest.remove(0);
        proof {
            reveal(Seq::filter);
            assert(acc == orig[j]);
            assert(rest@ =~= orig.skip(j + 1));
            assert(orig.take(j + 1).drop_last() =~= orig.take(j as int));
            assert(orig.take(j + 1).last() == orig[j]);
        }
        let keep = acc.get_item_grade() == grade_filter && acc.get_base_price() >= min_price
            && acc.get_base_price() <= max_price;
        if keep {
            out.push(acc);
        }
    }
    proof {
        assert(orig.take(orig.len() as int) =~= orig);
    }
    out
}

/// The largest combined item cost that the single-tap cost computation
/// accepts: past it the rounded-up expected cost could overflow a `u64`
/// at the smallest possible success chance.
pub const MAX_TAP_COST_INPUT: u64 = 92_233_720_368_547_757;

/// The expected cost of one attempt: the combined item cost divided by
/// the attempt's success chance, rounded up. The result stays within two
/// hundred times the input and one, since no chance is below 0.005.
fn tap_ceil(sum: u64, level: u8, stack: u16) -> (cost: u64)
    requires
        1 <= level <= 5,
        sum <= MAX_TAP_COST_INPUT,
    ensures
        cost == spec_ceil_div(sum * CHANCE_SCALE, spec_chance(level as int, stack as int)),
        cost <= 200 * sum + 1,
{
    let chance = chance_units(level, stack);
    let wide: u128 = sum as u128;
    proof {
        assert(wide <= 92_233_720_368_547_757);
        assert(wide * (CHANCE_SCALE as u128) <= 922_337_203_685_477_570_000);
    }
    let total: u128 = wide * (CHANCE_SCALE as u128);
    let q = (total + ((chance as u128) - 1)) / (chance as u128);
    proof {
        let s = sum as int;
        let ch = chance as int;
        lemma_mul_inequality(50, ch, 200 * s + 1);
        vstd::arithmetic::mul::lemma_mul_is_distributive_add_other_way(ch, 200 * s + 1, 1);
        vstd::arithmetic::div_mod::lemma_div_is_ordered(
            s * 10000 + ch - 1,
            (200 * s + 2) * ch - 1,
            ch,
        );
        vstd::arithmetic::div_mod::lemma_fundamental_div_mod_converse(
            (200 * s + 2) * ch - 1,
            ch,
            200 * s + 1,
            ch - 1,
        );
    }
    q as u64
}

/// Calculates the expected cost of a singular tap: the price of a fresh
/// base item plus the cost of the item enhanced so far, divided by the
/// success chance of the next attempt, rounded up.
///
/// Signals an error exactly when the item's level is past TET (4), or when
/// no failstack was supplied for the attempt.
pub fn get_tap_cost(item_details: &AccEnhancementDetails, item_cost: u64, base_item_cost: u64) -> (r:
    Result<u64, EnhanceError>)
    requires
        item_cost + base_item_cost <= MAX_TAP_COST_INPUT,
    ensures
        r is Ok <==> (item_details.level <= 4 && item_details.spec_first_stack() is Some),
        r matches Ok(cost) ==> (item_details.spec_first_stack() matches Some(stack) && cost
            == spec_ceil_div(
            (base_item_cost + item_cost) * CHANCE_SCALE,
            spec_chance(item_details.level + 1, stack as int),
        )),
        item_details.level > 4 ==> (r matches Err(e) && e == EnhanceError::LevelOutOfRange),
        item_details.level <= 4 && item_details.spec_first_stack() is None ==> (r matches Err(e)
            && e == EnhanceError::NotEnoughStacks),
{
    let level = item_details.get_level();
    if level > 4 {
        return Err(EnhanceError::LevelOutOfRange);
    }
    let stack = match item_details.get_first_stack() {
        None => {
            return Err(EnhanceError::NotEnoughStacks);
        },
        Some(s) => s,
    };
    Ok(tap_ceil(base_item_cost + item_cost, level + 1, stack))
}

/// The expected total cost of an enhancement chain after its first `k`
/// taps: each tap pays for a fresh base item plus the item as built so
/// far — the item's own price on the first tap, the cost accumulated by
/// the earlier taps after that — divided by the tap's success chance and
/// rounded up, and every tap's expected cost is kept.
pub open spec fn spec_chain_cost(
    level: int,
    stacks: Seq<u16>,
    own: int,
    base: int,
    k: int,
) -> int
    decreases k,
{
    if k <= 0 {
        0
    } else {
        let prev = spec_chain_cost(level, stacks, own, base, k - 1);
        let input = if k == 1 {
            own
        } else {
            prev
        };
        prev + spec_ceil_div(
            (base + input) * (CHANCE_SCALE as int),
            spec_chance(level + k, stacks[k - 1] as int),
        )
    }
}

/// Whether every tap of the chain stays inside the machine bounds: each
/// tap's combined input within the single-tap limit, and each accumulated
/// cost within a `u64`.
pub open spec fn spec_chain_in_bounds(
    level: int,
    stacks: Seq<u16>,
    own: int,
    base: int,
    gap: int,
) -> bool {
    forall|k: int|
        1 <= k <= gap ==> ({
            let prev = spec_chain_cost(level, stacks, own, base, k - 1);
            let input = if k == 1 {
                own
            } else {
                prev
            };
            base + input <= MAX_TAP_COST_INPUT && #[trigger] spec_chain_cost(
                level,
                stacks,
                own,
                base,
                k,
            ) <= u64::MAX
        })
}

/// Calculates the expected cost of enhancing an accessory from `level` up
/// to `end_level`, compounding each tap's expected cost forward: the
/// first tap's input is the item's own price, every later tap's input is
/// the cost accumulated so far, and each tap adds the cost of a fresh
/// base item before dividing by its tier's success chance.
///
/// Signals an error exactly when no such chain exists (the level past TET,
/// or `end_level` not above it and at most PEN), when fewer failstacks are
/// supplied than taps needed (one per tier crossed, consumed in order), or
/// when an accumulated cost leaves the machine bounds.
#[verifier::rlimit(50)]
pub fn multi_tap_cost(
    level: u8,
    end_level: u8,
    stacks: &Vec<u16>,
    own_price: u64,
    base_price: u64,
) -> (r: Result<u64, EnhanceError>)
    ensures
        r is Ok <==> (level <= 4 && level < end_level <= 5 && stacks@.len() >= end_level - level
            && spec_chain_in_bounds(
            level as int,
            stacks@,
            own_price as int,
            base_price as int,
            end_level - level,
        )),
        r matches Ok(cost) ==> cost == spec_chain_cost(
            level as int,
            stacks@,
            own_price as int,
            base_price as int,
            end_level - level,
        ),
        !(level <= 4 && level < end_level <= 5) ==> (r matches Err(e) && e
            == EnhanceError::LevelOutOfRange),
        level <= 4 && level < end_level <= 5 && stacks@.len() < end_level - level ==> (r matches Err(
            e,
        ) && e == EnhanceError::NotEnoughStacks),
        level <= 4 && level < end_level <= 5 && stacks@.len() >= end_level - level
            && !spec_chain_in_bounds(
            level as int,
            stacks@,
            own_price as int,
            base_price as int,
            end_level - level,
        ) ==> (r matches Err(e) && e == EnhanceError::CostOutOfRange),
{
    if level > 4 || end_level <= level || end_level > 5 {
        return Err(EnhanceError::LevelOutOfRange);
    }
    let gap = (end_level - level) as usize;
    if stacks.len() < gap {
        return Err(EnhanceError::NotEnoughStacks);
    }
    let mut cost: u64 = 0;
    let mut k: usize = 0;
    while k < gap
        invariant
            level <= 4,
            level < end_level <= 5,
            gap == end_level - level,
            stacks@.len() >= gap,
            0 <= k <= gap,
            cost == spec_chain_cost(
                level as int,
                stacks@,
                own_price as int,
                base_price as int,
                k as int,
            ),
            spec_chain_in_bounds(
                level as int,
                stacks@,
                own_price as int,
                base_price as int,
                k as int,
            ),
        decreases gap - k,
    {
        let ghost gl = level as int;
        let ghost gs = stacks@;
        let ghost go = own_price as int;
        let ghost gb = base_price as int;
        proof {
            // one unfolding of the recurrence, for the step about to run
            assert(spec_chain_cost(gl, gs, go, gb, k + 1) == spec_chain_cost(gl, gs, go, gb, k as int)
                + spec_ceil_div(
                (gb + (if k == 0 {
                    go
                } else {
                    spec_chain_cost(gl, gs, go, gb, k as int)
                })) * (CHANCE_SCALE as int),
                spec_chance(gl + k + 1, gs[k as int] as int),
            ));
        }
        let input = if k == 0 {
            own_price
        } else {
            cost
        };
        if (base_price as u128) + (input as u128) > (MAX_TAP_COST_INPUT as u128) {
            proof {
                assert(!spec_chain_in_bounds(gl, gs, go, gb, gap as int));
            }
            return Err(EnhanceError::CostOutOfRange);
        }
        let tap = tap_ceil(base_price + input, level + (k as u8) + 1, stacks[k]);
        let new_cost = match cost.checked_add(tap) {
            Some(c) => c,
            None => {
                proof {
                    assert(spec_chain_cost(gl, gs, go, gb, k + 1) > u64::MAX);
                    assert(!spec_chain_in_bounds(gl, gs, go, gb, gap as int));
                }
                return Err(EnhanceError::CostOutOfRange);
            },
        };
        proof {
            assert(new_cost == spec_chain_cost(gl, gs, go, gb, k + 1));
            assert forall|j: int| 1 <= j <= k + 1 implies ({
                let prev = spec_chain_cost(gl, gs, go, gb, j - 1);
                let input_j = if j == 1 {
                    go
                } else {
                    prev
                };
                gb + input_j <= MAX_TAP_COST_INPUT && #[trigger] spec_chain_cost(gl, gs, go, gb, j)
                    <= u64::MAX
            }) by {
                if j <= k {
                    assert(spec_chain_in_bounds(gl, gs, go, gb, k as int));
                    assert(spec_chain_cost(gl, gs, go, gb, j) <= u64::MAX);
                }
            }
            assert(spec_chain_in_bounds(gl, gs, go, gb, k + 1));
        }
        cost = new_cost;
        k = k + 1;
    }
    Ok(cost)
}

} // verus!
