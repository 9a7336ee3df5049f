use vstd::prelude::*;
use crate::price::DecimalPrice;
use crate::text::{
    decimal_text, fixed_text, pow10, round_half_up, decimal_string, fixed_string, pow10_u128,
    lemma_pow10_18, lemma_pow10_monotone, lemma_pow10_positive,
};

verus! {

/// Discount of each tier, in percent below the opening price.
pub const FIRST_DISCOUNT: u32 = 20;
pub const SECOND_DISCOUNT: u32 = 25;
pub const THIRD_DISCOUNT: u32 = 30;

/// Notional allocated to each tier.
pub const FIRST_ALLOCATION: u32 = 1000;
pub const SECOND_ALLOCATION: u32 = 1000;
pub const THIRD_ALLOCATION: u32 = 2000;

/// Prices and sizes of the three tiers, as the exchange expects them written.
#[derive(Clone, Debug)]
pub struct FormattedPosition {
    pub twenty_percent_price: String,
    pub twenty_five_percent_price: String,
    pub thirty_percent_price: String,
    pub twenty_percent_size: String,
    pub twenty_five_percent_size: String,
    pub thirty_percent_size: String,
}

/// Decimal places of a price for each supported symbol.
pub open spec fn price_decimals_of(symbol: Seq<char>) -> Option<nat> {
    if symbol == "BEAMUSDT"@ {
        Some(6)
    } else if symbol == "SEIUSDT"@ || symbol == "AGIXUSDT"@ {
        Some(5)
    } else {
        None
    }
}

/// The tier price `p * (1 - discount/100)` as a fraction: numerator over `tier_denominator(p)`.
pub open spec fn tier_numerator(p: DecimalPrice, discount: nat) -> nat {
    p.digits as nat * (100 - discount) as nat
}

pub open spec fn tier_denominator(p: DecimalPrice) -> nat {
    100 * pow10(p.scale as nat)
}

/// The tier price in units of `10^-decimals`, rounded half up.
pub open spec fn tier_price_units(p: DecimalPrice, discount: nat, decimals: nat) -> nat {
    round_half_up(tier_numerator(p, discount) * pow10(decimals), tier_denominator(p))
}

/// `allocation` divided by the tier price, rounded half up to a whole number.
pub open spec fn tier_size(p: DecimalPrice, discount: nat, allocation: nat) -> nat {
    round_half_up(allocation * tier_denominator(p), tier_numerator(p, discount))
}

/// Price text and size text of one tier.
pub open spec fn tier_texts(p: DecimalPrice, discount: nat, allocation: nat, decimals: nat) -> (
    Seq<char>,
    Seq<char>,
) {
    (fixed_text(tier_price_units(p, discount, decimals), decimals), decimal_text(tier_size(p, discount, allocation)))
}

/// The position for opening price `p` on a symbol with `decimals` price places.
pub open spec fn position_matches(pos: FormattedPosition, p: DecimalPrice, decimals: nat) -> bool {
    &&& (pos.twenty_percent_price@, pos.twenty_percent_size@) == tier_texts(
        p,
        FIRST_DISCOUNT as nat,
        FIRST_ALLOCATION as nat,
        decimals,
    )
    &&& (pos.twenty_five_percent_price@, pos.twenty_five_percent_size@) == tier_texts(
        p,
        SECOND_DISCOUNT as nat,
        SECOND_ALLOCATION as nat,
        decimals,
    )
    &&& (pos.thirty_percent_price@, pos.thirty_percent_size@) == tier_texts(
        p,
        THIRD_DISCOUNT as nat,
        THIRD_ALLOCATION as nat,
        decimals,
    )
}

fn str_equals(a: &str, b: &str) -> (r: bool)
    ensures
        r == (a@ == b@),
{
    String::from_str(a) == String::from_str(b)
}

/// Decimal places of a price on `symbol`, or `None` for a symbol without a rule.
pub fn price_decimals(symbol: &str) -> (r: Option<u32>)
    ensures
        r matches Some(d) ==> price_decimals_of(symbol@) == Some(d as nat),
        r is None <==> price_decimals_of(symbol@) is None,
{
    if str_equals(symbol, "BEAMUSDT") {
        Some(6)
    } else if str_equals(symbol, "SEIUSDT") || str_equals(symbol, "AGIXUSDT") {
        Some(5)
    } else {
        None
    }
}

/// Price and size texts of one tier.
fn tier(price: &DecimalPrice, discount: u32, allocation: u32, decimals: u32) -> (r: (String, String))
    requires
        price.wf(),
        price.digits > 0,
        discount < 100,
        allocation <= 2000,
        decimals <= 6,
    ensures
        (r.0@, r.1@) == tier_texts(*price, discount as nat, allocation as nat, decimals as nat),
{
    proof {
        lemma_pow10_18();
        lemma_pow10_monotone(price.scale as nat, 18);
        lemma_pow10_monotone(decimals as nat, 18);
        lemma_pow10_positive(price.scale as nat);
    }
    let unit = pow10_u128(price.scale);
    let places = pow10_u128(decimals);
    let digits = price.digits as u128;
    let keep = (100 - discount) as u128;
    assert(digits * keep <= 100_000_000_000_000_000_000 && digits * keep > 0) by (nonlinear_arith)
        requires
            digits < 1_000_000_000_000_000_000,
            0 < digits,
            0 < keep <= 100,
    ;
    let num: u128 = digits * keep;
    let den: u128 = 100 * unit;
    assert(num * places <= 100_000_000_000_000_000_000_000_000_000_000_000_000) by (nonlinear_arith)
        requires
            num <= 100_000_000_000_000_000_000,
            places <= 1_000_000_000_000_000_000,
    ;
    assert(allocation as u128 * den <= 200_000_000_000_000_000_000_000) by (nonlinear_arith)
        requires
            allocation <= 2000,
            den <= 100_000_000_000_000_000_000,
    ;
    let price_units = (2 * (num * places) + den) / (2 * den);
    let size = (2 * (allocation as u128 * den) + num) / (2 * num);
    (fixed_string(price_units, decimals), decimal_string(size))
}

/// The three tiers for opening price `price` on `symbol`: 20%, 25% and 30% below
/// the price, sized at 1000, 1000 and 2000 notional; `None` where the symbol has
/// no formatting rule.
pub fn calculate_position(price: &DecimalPrice, symbol: &str) -> (r: Option<FormattedPosition>)
    requires
        price.wf(),
        price.digits > 0,
    ensures
        r is None <==> price_decimals_of(symbol@) is None,
        r matches Some(pos) ==> position_matches(pos, *price, price_decimals_of(symbol@)->0),
{
    match price_decimals(symbol) {
        None => None,
        Some(decimals) => {
            let (p1, s1) = tier(price, FIRST_DISCOUNT, FIRST_ALLOCATION, decimals);
            let (p2, s2) = tier(price, SECOND_DISCOUNT, SECOND_ALLOCATION, decimals);
            let (p3, s3) = tier(price, THIRD_DISCOUNT, THIRD_ALLOCATION, decimals);
            Some(
                FormattedPosition {
                    twenty_percent_price: p1,
                    twenty_five_percent_price: p2,
                    thirty_percent_price: p3,
                    twenty_percent_size: s1,
                    twenty_five_percent_size: s2,
                    thirty_percent_size: s3,
                },
            )
        },
    }
}

} // verus!
