use vstd::prelude::*;
use crate::error::TradeError;
use crate::json::batch_body;
use crate::orders::{
    CancelOrderData, OrderRequest, cancel_body_text, cancel_order_body, order_fields_json, order_json,
    place_order_body,
};
use crate::position::{
    FormattedPosition, calculate_position, position_matches, price_decimals_of, tier_texts,
    FIRST_ALLOCATION, FIRST_DISCOUNT, SECOND_ALLOCATION, SECOND_DISCOUNT, THIRD_ALLOCATION,
    THIRD_DISCOUNT,
};
use crate::price::{DecimalPrice, parse_price, price_of_text};
use crate::signing::{generate_post_signature, signature_text};
use crate::text::{integer_string, integer_text};

verus! {

/// A request body with the timestamp and signature that go with it.
#[derive(Clone, Debug)]
pub struct SignedRequest {
    pub body: String,
    pub timestamp: String,
    pub signature: String,
}

/// A limit buy of one tier, as JSON.
pub open spec fn ladder_item(symbol: Seq<char>, texts: (Seq<char>, Seq<char>)) -> Seq<char> {
    order_fields_json(symbol, "Buy"@, "Limit"@, texts.1, texts.0)
}

/// The batch body of the three tiers for opening price `p`.
pub open spec fn ladder_body(symbol: Seq<char>, p: DecimalPrice, decimals: nat) -> Seq<char> {
    batch_body(
        seq![
            ladder_item(symbol, tier_texts(p, FIRST_DISCOUNT as nat, FIRST_ALLOCATION as nat, decimals)),
            ladder_item(symbol, tier_texts(p, SECOND_DISCOUNT as nat, SECOND_ALLOCATION as nat, decimals)),
            ladder_item(symbol, tier_texts(p, THIRD_DISCOUNT as nat, THIRD_ALLOCATION as nat, decimals)),
        ],
    )
}

/// `req` carries `body`, the timestamp `timestamp_ms` and the signature over them.
pub open spec fn signed_as(
    req: SignedRequest,
    body: Seq<char>,
    timestamp_ms: int,
    api_key: Seq<char>,
    recv_window: Seq<char>,
    api_secret: Seq<char>,
) -> bool {
    &&& req.body@ == body
    &&& req.timestamp@ == integer_text(timestamp_ms)
    &&& req.signature@ == signature_text(req.timestamp@, api_key, recv_window, body, api_secret)
}

/// A limit buy order on `symbol` of `qty` at `price`.
fn limit_buy(symbol: &str, qty: String, price: String) -> (r: OrderRequest)
    ensures
        r.symbol@ == symbol@,
        r.side@ == "Buy"@,
        r.order_type@ == "Limit"@,
        r.qty@ == qty@,
        r.price@ == price@,
{
    OrderRequest {
        symbol: String::from_str(symbol),
        side: String::from_str("Buy"),
        order_type: String::from_str("Limit"),
        qty,
        price,
    }
}

/// `o` is a limit buy of `qty` at `price` on `symbol`.
pub open spec fn is_limit_buy(o: OrderRequest, symbol: Seq<char>, qty: Seq<char>, price: Seq<char>) -> bool {
    &&& o.symbol@ == symbol
    &&& o.side@ == "Buy"@
    &&& o.order_type@ == "Limit"@
    &&& o.qty@ == qty
    &&& o.price@ == price
}

/// The three limit buys of a position, smallest discount first.
pub fn order_requests(symbol: &str, position: FormattedPosition) -> (r: Vec<OrderRequest>)
    ensures
        r@.len() == 3,
        is_limit_buy(r@[0], symbol@, position.twenty_percent_size@, position.twenty_percent_price@),
        is_limit_buy(r@[1], symbol@, position.twenty_five_percent_size@, position.twenty_five_percent_price@),
        is_limit_buy(r@[2], symbol@, position.thirty_percent_size@, position.thirty_percent_price@),
{
    let first = limit_buy(symbol, position.twenty_percent_size, position.twenty_percent_price);
    let second = limit_buy(symbol, position.twenty_five_percent_size, position.twenty_five_percent_price);
    let third = limit_buy(symbol, position.thirty_percent_size, position.thirty_percent_price);
    vec![first, second, third]
}

/// Relies on chrono's `Utc::now().timestamp_millis()`: milliseconds since the epoch.
#[verifier::external_body]
fn current_timestamp_millis() -> (r: i64) {
    chrono::Utc::now().timestamp_millis()
}

/// Signs `body` at `timestamp_ms`.
fn sign_body(
    body: String,
    timestamp_ms: i64,
    api_key: &str,
    recv_window: &str,
    api_secret: &str,
) -> (r: SignedRequest)
    ensures
        signed_as(r, body@, timestamp_ms as int, api_key@, recv_window@, api_secret@),
{
    let timestamp = integer_string(timestamp_ms);
    let signature = generate_post_signature(
        timestamp.as_str(),
        api_key,
        recv_window,
        body.as_str(),
        api_secret,
    );
    SignedRequest { body, timestamp, signature }
}

/// The signed batch order of the three tiers for `symbol` at opening price `open_price`.
/// `InvalidPrice` where the price is not a positive decimal, `UnsupportedSymbol` where
/// the symbol has no formatting rule.
pub fn prepare_batch_order(
    api_key: &str,
    api_secret: &str,
    recv_window: &str,
    symbol: &str,
    open_price: &str,
    timestamp_ms: i64,
) -> (r: Result<SignedRequest, TradeError>)
    ensures
        (price_of_text(open_price@) is None || price_of_text(open_price@)->0.digits == 0) ==> r
            == Err::<SignedRequest, TradeError>(TradeError::InvalidPrice),
        (price_of_text(open_price@) matches Some(p) && p.digits > 0) && price_decimals_of(symbol@)
            is None ==> r == Err::<SignedRequest, TradeError>(TradeError::UnsupportedSymbol),
        (price_of_text(open_price@) matches Some(p) && p.digits > 0) && price_decimals_of(symbol@)
            is Some ==> r is Ok,
        r matches Ok(req) ==> signed_as(
            req,
            ladder_body(symbol@, price_of_text(open_price@)->0, price_decimals_of(symbol@)->0),
            timestamp_ms as int,
            api_key@,
            recv_window@,
            api_secret@,
        ),
{
    let price = match parse_price(open_price) {
        Some(p) => p,
        None => {
            return Err(TradeError::InvalidPrice);
        },
    };
    if price.digits == 0 {
        return Err(TradeError::InvalidPrice);
    }
    let position = match calculate_position(&price, symbol) {
        Some(pos) => pos,
        None => {
            return Err(TradeError::UnsupportedSymbol);
        },
    };
    let ghost pos = position;
    let orders = order_requests(symbol, position);
    let body = match place_order_body(&orders) {
        Ok(b) => b,
        Err(e) => {
            return Err(e);
        },
    };
    proof {
        let d = price_decimals_of(symbol@)->0;
        assert(position_matches(pos, price, d));
        assert(orders@.map_values(|o: OrderRequest| order_json(o)) =~= seq![
            ladder_item(symbol@, tier_texts(price, FIRST_DISCOUNT as nat, FIRST_ALLOCATION as nat, d)),
            ladder_item(symbol@, tier_texts(price, SECOND_DISCOUNT as nat, SECOND_ALLOCATION as nat, d)),
            ladder_item(symbol@, tier_texts(price, THIRD_DISCOUNT as nat, THIRD_ALLOCATION as nat, d)),
        ]);
    }
    Ok(sign_body(body, timestamp_ms, api_key, recv_window, api_secret))
}

/// The signed batch cancel of exactly `records`.
pub fn prepare_batch_cancel(
    api_key: &str,
    api_secret: &str,
    recv_window: &str,
    records: &Vec<CancelOrderData>,
    timestamp_ms: i64,
) -> (r: Result<SignedRequest, TradeError>)
    ensures
        r matches Ok(req) ==> signed_as(
            req,
            cancel_body_text(records@),
            timestamp_ms as int,
            api_key@,
            recv_window@,
            api_secret@,
        ),
        r is Ok,
{
    let body = match cancel_order_body(records) {
        Ok(b) => b,
        Err(e) => {
            return Err(e);
        },
    };
    Ok(sign_body(body, timestamp_ms, api_key, recv_window, api_secret))
}

/// `prepare_batch_order` stamped with the current time.
pub fn prepare_batch_order_now(
    api_key: &str,
    api_secret: &str,
    recv_window: &str,
    symbol: &str,
    open_price: &str,
) -> (r: Result<SignedRequest, TradeError>)
    ensures
        (price_of_text(open_price@) is None || price_of_text(open_price@)->0.digits == 0) ==> r
            == Err::<SignedRequest, TradeError>(TradeError::InvalidPrice),
        (price_of_text(open_price@) matches Some(p) && p.digits > 0) && price_decimals_of(symbol@)
            is None ==> r == Err::<SignedRequest, TradeError>(TradeError::UnsupportedSymbol),
        (price_of_text(open_price@) matches Some(p) && p.digits > 0) && price_decimals_of(symbol@)
            is Some ==> r is Ok,
        r matches Ok(req) ==> exists|t: i64|
            signed_as(
                req,
                ladder_body(symbol@, price_of_text(open_price@)->0, price_decimals_of(symbol@)->0),
                t as int,
                api_key@,
                recv_window@,
                api_secret@,
            ),
{
    let now = current_timestamp_millis();
    prepare_batch_order(api_key, api_secret, recv_window, symbol, open_price, now)
}

/// `prepare_batch_cancel` stamped with the current time.
pub fn prepare_batch_cancel_now(
    api_key: &str,
    api_secret: &str,
    recv_window: &str,
    records: &Vec<CancelOrderData>,
) -> (r: Result<SignedRequest, TradeError>)
    ensures
        r matches Ok(req) ==> exists|t: i64|
            signed_as(req, cancel_body_text(records@), t as int, api_key@, recv_window@, api_secret@),
        r is Ok,
{
    let now = current_timestamp_millis();
    prepare_batch_cancel(api_key, api_secret, recv_window, records, now)
}

/// The authentication headers of a signed request, in the order they are sent.
pub fn auth_headers(api_key: &str, recv_window: &str, req: &SignedRequest) -> (r: Vec<(String, String)>)
    ensures
        r@.len() == 6,
        r@[0].0@ == "X-BAPI-API-KEY"@ && r@[0].1@ == api_key@,
        r@[1].0@ == "X-BAPI-SIGN"@ && r@[1].1@ == req.signature@,
        r@[2].0@ == "X-BAPI-SIGN-TYPE"@ && r@[2].1@ == "2"@,
        r@[3].0@ == "X-BAPI-TIMESTAMP"@ && r@[3].1@ == req.timestamp@,
        r@[4].0@ == "X-BAPI-RECV-WINDOW"@ && r@[4].1@ == recv_window@,
        r@[5].0@ == "Content-Type"@ && r@[5].1@ == "application/json"@,
{
    vec![
        (String::from_str("X-BAPI-API-KEY"), String::from_str(api_key)),
        (String::from_str("X-BAPI-SIGN"), req.signature.clone()),
        (String::from_str("X-BAPI-SIGN-TYPE"), String::from_str("2")),
        (String::from_str("X-BAPI-TIMESTAMP"), req.timestamp.clone()),
        (String::from_str("X-BAPI-RECV-WINDOW"), String::from_str(recv_window)),
        (String::from_str("Content-Type"), String::from_str("application/json")),
    ]
}

} // verus!
