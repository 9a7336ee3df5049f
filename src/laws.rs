use vstd::prelude::*;
use vstd::arithmetic::div_mod::{lemma_div_is_ordered, lemma_fundamental_div_mod};
use crate::cycle::{fetched_prices, cycle_step_of, CycleAction, CyclePhase, COOLDOWN_SECONDS, HOLD_SECONDS};
use crate::error::TradeError;
use crate::json::batch_body;
use crate::orders::{
    BatchOrderResponse, CancelOrderData, cancel_body_text, cancel_fields_json, cancel_json,
    records_of,
};
use crate::position::{
    price_decimals_of, tier_denominator, tier_numerator, tier_price_units, tier_size, tier_texts,
};
use crate::price::DecimalPrice;
use crate::text::{
    all_digits, fixed_text, pow10, round_half_up, lemma_decimal_text_digits,
    lemma_padded_text_digits, lemma_pow10_positive,
};

verus! {

/// `round_half_up(num, den)` is within half of `den` of the exact quotient.
pub proof fn lemma_round_half_up_bounds(num: nat, den: nat)
    requires
        den > 0,
    ensures
        2 * round_half_up(num, den) * den <= 2 * num + den,
        2 * num < 2 * round_half_up(num, den) * den + den,
{
    let q = round_half_up(num, den);
    let x = (2 * num + den) as int;
    let y = (2 * den) as int;
    lemma_fundamental_div_mod(x, y);
    assert(0 <= x % y < y);
    assert(x == y * q + x % y);
    assert(2 * q * den <= 2 * num + den) by (nonlinear_arith)
        requires
            x == y * q + x % y,
            0 <= x % y,
            x == 2 * num + den,
            y == 2 * den,
    ;
    assert(2 * num < 2 * q * den + den) by (nonlinear_arith)
        requires
            x == y * q + x % y,
            x % y < y,
            x == 2 * num + den,
            y == 2 * den,
    ;
}

/// Each tier price is the opening price less its discount: the exact price
/// `digits * (100 - discount) / (100 * 10^scale)` is strictly lower for a
/// deeper discount, each written price is that exact price to within half a
/// unit of its last place, and the written prices never rise with the discount.
pub proof fn lemma_tier_prices(p: DecimalPrice, decimals: nat)
    requires
        p.wf(),
        p.digits > 0,
    ensures
        tier_numerator(p, 20) > tier_numerator(p, 25),
        tier_numerator(p, 25) > tier_numerator(p, 30),
        forall|d: nat|
            d < 100 ==> 2 * #[trigger] tier_price_units(p, d, decimals) * tier_denominator(p)
                <= 2 * (tier_numerator(p, d) * pow10(decimals)) + tier_denominator(p)
                && 2 * (tier_numerator(p, d) * pow10(decimals)) < 2 * tier_price_units(p, d, decimals)
                * tier_denominator(p) + tier_denominator(p),
        tier_price_units(p, 20, decimals) >= tier_price_units(p, 25, decimals),
        tier_price_units(p, 25, decimals) >= tier_price_units(p, 30, decimals),
{
    let den = tier_denominator(p);
    lemma_pow10_positive(p.scale as nat);
    lemma_pow10_positive(decimals);
    assert(den > 0);
    assert forall|d: nat| d < 100 implies 2 * #[trigger] tier_price_units(p, d, decimals)
        * tier_denominator(p) <= 2 * (tier_numerator(p, d) * pow10(decimals)) + tier_denominator(p)
        && 2 * (tier_numerator(p, d) * pow10(decimals)) < 2 * tier_price_units(p, d, decimals)
        * tier_denominator(p) + tier_denominator(p) by {
        lemma_round_half_up_bounds(tier_numerator(p, d) * pow10(decimals), den);
    }
    let digits = p.digits as nat;
    let unit = pow10(decimals);
    assert(digits * 80 > digits * 75 && digits * 75 > digits * 70) by (nonlinear_arith)
        requires
            digits > 0,
    ;
    assert(digits * 80 * unit >= digits * 75 * unit && digits * 75 * unit >= digits * 70 * unit)
        by (nonlinear_arith)
        requires
            digits > 0,
            unit > 0,
    ;
    lemma_div_is_ordered(
        (2 * (digits * 75 * unit) + den) as int,
        (2 * (digits * 80 * unit) + den) as int,
        (2 * den) as int,
    );
    lemma_div_is_ordered(
        (2 * (digits * 70 * unit) + den) as int,
        (2 * (digits * 75 * unit) + den) as int,
        (2 * den) as int,
    );
}

/// A tier's size is the allocation divided by the tier price, rounded to the
/// nearest whole number: within half a unit of the exact quotient, and never negative.
pub proof fn lemma_tier_size(p: DecimalPrice, discount: nat, allocation: nat)
    requires
        p.wf(),
        p.digits > 0,
        discount < 100,
    ensures
        2 * tier_size(p, discount, allocation) * tier_numerator(p, discount) <= 2 * (allocation
            * tier_denominator(p)) + tier_numerator(p, discount),
        2 * (allocation * tier_denominator(p)) < 2 * tier_size(p, discount, allocation)
            * tier_numerator(p, discount) + tier_numerator(p, discount),
        tier_size(p, discount, allocation) >= 0,
{
    let digits = p.digits as nat;
    let keep = (100 - discount) as nat;
    assert(digits * keep > 0) by (nonlinear_arith)
        requires
            digits > 0,
            keep > 0,
    ;
    lemma_round_half_up_bounds(allocation * tier_denominator(p), tier_numerator(p, discount));
}

/// The price text has exactly `decimals` digits after a single point and only
/// digits before it.
pub open spec fn has_decimal_places(t: Seq<char>, decimals: nat) -> bool {
    &&& t.len() > decimals + 1
    &&& t[t.len() - decimals - 1] == '.'
    &&& all_digits(t.take(t.len() - decimals - 1))
    &&& all_digits(t.skip(t.len() - decimals))
}

/// On a supported symbol every tier price is written with the symbol's number
/// of decimal places (six on BEAMUSDT, five on SEIUSDT and AGIXUSDT) and every
/// size as a whole number.
pub proof fn lemma_position_format(p: DecimalPrice, symbol: Seq<char>, discount: nat, allocation: nat)
    requires
        price_decimals_of(symbol) is Some,
    ensures
        has_decimal_places(tier_texts(p, discount, allocation, price_decimals_of(symbol)->0).0, price_decimals_of(symbol)->0),
        all_digits(tier_texts(p, discount, allocation, price_decimals_of(symbol)->0).1),
        tier_texts(p, discount, allocation, price_decimals_of(symbol)->0).1.len() >= 1,
        symbol == "BEAMUSDT"@ ==> price_decimals_of(symbol) == Some(6nat),
        symbol == "SEIUSDT"@ || symbol == "AGIXUSDT"@ ==> price_decimals_of(symbol) == Some(5nat),
{
    proof_symbols_differ();
    let d = price_decimals_of(symbol)->0;
    let q = tier_price_units(p, discount, d);
    lemma_pow10_positive(d);
    let whole = crate::text::decimal_text(q / pow10(d));
    let frac = crate::text::padded_text(q % pow10(d), d);
    lemma_decimal_text_digits(q / pow10(d));
    lemma_padded_text_digits(q % pow10(d), d);
    lemma_decimal_text_digits(tier_size(p, discount, allocation));
    let t = fixed_text(q, d);
    assert(t == whole + seq!['.'] + frac);
    assert(t.take(t.len() - d - 1) =~= whole);
    assert(t.skip(t.len() - d) =~= frac);
}

/// The calculator has a rule for exactly three symbols, matched case-sensitively:
/// every other symbol gets no position.
pub proof fn lemma_supported_symbols(symbol: Seq<char>)
    ensures
        price_decimals_of(symbol) is None <==> !(symbol == "BEAMUSDT"@ || symbol == "SEIUSDT"@
            || symbol == "AGIXUSDT"@),
{
}

proof fn proof_symbols_differ()
    ensures
        "SEIUSDT"@ != "BEAMUSDT"@,
        "AGIXUSDT"@ != "BEAMUSDT"@,
{
    reveal_strlit("BEAMUSDT");
    reveal_strlit("SEIUSDT");
    reveal_strlit("AGIXUSDT");
    assert("SEIUSDT"@.len() != "BEAMUSDT"@.len());
    assert("AGIXUSDT"@[0] != "BEAMUSDT"@[0]);
}

/// The cancel payload built from the records of a placement holds one entry per
/// placed order, with that order's symbol and id, in the same order: no more, no fewer.
pub proof fn lemma_cancel_payload_matches_placement(
    records: Seq<CancelOrderData>,
    responses: Seq<BatchOrderResponse>,
)
    requires
        records_of(records, responses),
    ensures
        records.len() == responses.len(),
        cancel_body_text(records) == batch_body(
            responses.map_values(|r: BatchOrderResponse| cancel_fields_json(r.symbol@, r.order_id@)),
        ),
{
    assert(records.map_values(|c: CancelOrderData| cancel_json(c)) =~= responses.map_values(
        |r: BatchOrderResponse| cancel_fields_json(r.symbol@, r.order_id@),
    ));
}

/// Every cycle runs place, hold, cancel, cooldown, and then starts again; the
/// cancellation is sent exactly when the cycle has orders to cancel.
pub proof fn lemma_cycle_round(pending: nat)
    ensures
        cycle_step_of(CyclePhase::Placing, pending) == (CycleAction::FetchAndPlace, CyclePhase::Active),
        cycle_step_of(CyclePhase::Active, pending) == (CycleAction::Sleep(HOLD_SECONDS), CyclePhase::Cancelling),
        cycle_step_of(CyclePhase::Cancelling, pending).1 == CyclePhase::Settling,
        (cycle_step_of(CyclePhase::Cancelling, pending).0 == CycleAction::CancelBatch) <==> pending > 0,
        cycle_step_of(CyclePhase::Settling, pending) == (CycleAction::Sleep(COOLDOWN_SECONDS), CyclePhase::Placing),
{
}

proof fn lemma_fetched_prices_concat(
    a: Seq<Result<(String, String), TradeError>>,
    b: Seq<Result<(String, String), TradeError>>,
)
    ensures
        fetched_prices(a + b) == fetched_prices(a) + fetched_prices(b),
    decreases b.len(),
{
    if b.len() == 0 {
        assert(a + b =~= a);
        assert(fetched_prices(b) =~= seq![]);
        assert(fetched_prices(a) + fetched_prices(b) =~= fetched_prices(a));
    } else {
        lemma_fetched_prices_concat(a, b.drop_last());
        assert((a + b).drop_last() =~= a + b.drop_last());
        assert((a + b).last() == b.last());
        match b.last() {
            Ok(pair) => {
                assert(fetched_prices(a) + fetched_prices(b.drop_last()).push((pair.0@, pair.1@))
                    =~= (fetched_prices(a) + fetched_prices(b.drop_last())).push((pair.0@, pair.1@)));
            },
            Err(_) => {},
        }
    }
}

/// A fetch that failed leaves the cycle with exactly the prices of the others.
pub proof fn lemma_failed_fetch_skipped(results: Seq<Result<(String, String), TradeError>>, i: int)
    requires
        0 <= i < results.len(),
        results[i] is Err,
    ensures
        fetched_prices(results) == fetched_prices(results.remove(i)),
{
    let before = results.take(i);
    let after = results.skip(i + 1);
    assert(results =~= before + seq![results[i]] + after);
    assert(results.remove(i) =~= before + after);
    lemma_fetched_prices_concat(before + seq![results[i]], after);
    lemma_fetched_prices_concat(before, seq![results[i]]);
    lemma_fetched_prices_concat(before, after);
    let single = seq![results[i]];
    assert(single.drop_last() =~= Seq::<Result<(String, String), TradeError>>::empty());
    assert(fetched_prices(Seq::<Result<(String, String), TradeError>>::empty()) =~= seq![]);
    assert(single.last() is Err);
    assert(fetched_prices(single) =~= seq![]);
    assert(fetched_prices(before) + fetched_prices(seq![results[i]]) =~= fetched_prices(before));
}

} // verus!
