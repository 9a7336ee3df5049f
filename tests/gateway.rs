use kline_ladder::cycle::{
    append_records, cycle_step, should_cancel, symbols, tradable_prices, CycleAction, CyclePhase, COOLDOWN_SECONDS,
    HOLD_SECONDS,
};
use kline_ladder::error::TradeError;
use kline_ladder::gateway::{
    auth_headers, order_requests, prepare_batch_cancel, prepare_batch_cancel_now, prepare_batch_order,
    prepare_batch_order_now,
};
use kline_ladder::market::{kline_url, latest_open_price, Kline};
use kline_ladder::orders::{cancel_order_body, cancel_records, place_order_body, BatchOrderResponse, CancelOrderData, OrderRequest};
use kline_ladder::position::calculate_position;
use kline_ladder::price::DecimalPrice;
use kline_ladder::signing::generate_post_signature;
use kline_ladder::text::{decimal_string, fixed_string, integer_string, padded_string};
use serde_json::Value;

const BEAM_BODY: &str = "{\"category\":\"linear\",\"request\":[\
{\"orderType\":\"Limit\",\"price\":\"1.600000\",\"qty\":\"625\",\"side\":\"Buy\",\"symbol\":\"BEAMUSDT\"},\
{\"orderType\":\"Limit\",\"price\":\"1.500000\",\"qty\":\"667\",\"side\":\"Buy\",\"symbol\":\"BEAMUSDT\"},\
{\"orderType\":\"Limit\",\"price\":\"1.400000\",\"qty\":\"1429\",\"side\":\"Buy\",\"symbol\":\"BEAMUSDT\"}]}";

fn response(symbol: &str, id: &str) -> BatchOrderResponse {
    BatchOrderResponse {
        category: "linear".to_string(),
        symbol: symbol.to_string(),
        order_id: id.to_string(),
        order_link_id: String::new(),
        create_at: "1700000000000".to_string(),
    }
}

fn kline(open: &str) -> Kline {
    Kline {
        start_time: "1700000000000".to_string(),
        open_price: open.to_string(),
        high_price: "2.10".to_string(),
        low_price: "1.90".to_string(),
        close_price: "2.05".to_string(),
        volume: "100".to_string(),
        turnover: "200".to_string(),
    }
}

fn object(pairs: &[(&str, &str)]) -> Value {
    let mut m = serde_json::Map::new();
    for (k, v) in pairs {
        m.insert(k.to_string(), Value::String(v.to_string()));
    }
    Value::Object(m)
}

#[test]
fn prepared_batch_order_for_beam_at_two_dollars() {
    let req = prepare_batch_order("key", "secret", "10000", "BEAMUSDT", "2.00", 1700000000000).expect("prepared");
    assert_eq!(req.body, BEAM_BODY);
    assert_eq!(req.timestamp, "1700000000000");
    assert_eq!(req.signature, generate_post_signature("1700000000000", "key", "10000", BEAM_BODY, "secret"));
}

#[test]
fn body_matches_serde_json_serialization_of_the_same_payload() {
    let mut items = Vec::new();
    for (price, qty) in [("1.600000", "625"), ("1.500000", "667"), ("1.400000", "1429")] {
        items.push(object(&[
            ("symbol", "BEAMUSDT"),
            ("side", "Buy"),
            ("orderType", "Limit"),
            ("qty", qty),
            ("price", price),
        ]));
    }
    let mut params = serde_json::Map::new();
    params.insert("category".to_string(), Value::String("linear".to_string()));
    params.insert("request".to_string(), Value::Array(items));
    assert_eq!(serde_json::to_string(&params).unwrap(), BEAM_BODY);
}

#[test]
fn prepare_batch_order_reports_bad_inputs() {
    assert_eq!(
        prepare_batch_order("k", "s", "10000", "BEAMUSDT", "abc", 1).unwrap_err(),
        TradeError::InvalidPrice
    );
    assert_eq!(
        prepare_batch_order("k", "s", "10000", "BEAMUSDT", "0.00", 1).unwrap_err(),
        TradeError::InvalidPrice
    );
    assert_eq!(
        prepare_batch_order("k", "s", "10000", "BTCUSDT", "2.00", 1).unwrap_err(),
        TradeError::UnsupportedSymbol
    );
}

#[test]
fn prepared_now_carries_a_signed_timestamp() {
    let req = prepare_batch_order_now("key", "secret", "10000", "BEAMUSDT", "2.00").expect("prepared");
    assert_eq!(req.body, BEAM_BODY);
    assert!(req.timestamp.parse::<i64>().unwrap() > 1_600_000_000_000);
    assert_eq!(req.signature, generate_post_signature(&req.timestamp, "key", "10000", BEAM_BODY, "secret"));
    let records = vec![CancelOrderData { symbol: "BEAMUSDT".to_string(), order_id: "a".to_string() }];
    let cancel = prepare_batch_cancel_now("key", "secret", "10000", &records).expect("prepared");
    assert_eq!(cancel.signature, generate_post_signature(&cancel.timestamp, "key", "10000", &cancel.body, "secret"));
}

#[test]
fn three_placed_orders_give_three_cancel_entries() {
    let responses = vec![response("BEAMUSDT", "id-1"), response("BEAMUSDT", "id-2"), response("BEAMUSDT", "id-3")];
    let records = cancel_records(&responses);
    assert_eq!(records.len(), 3);
    for (r, id) in records.iter().zip(["id-1", "id-2", "id-3"]) {
        assert_eq!(r.symbol, "BEAMUSDT");
        assert_eq!(r.order_id, id);
    }
    let req = prepare_batch_cancel("key", "secret", "10000", &records, 42).expect("prepared");
    assert_eq!(
        req.body,
        "{\"category\":\"linear\",\"request\":[{\"orderId\":\"id-1\",\"symbol\":\"BEAMUSDT\"},\
{\"orderId\":\"id-2\",\"symbol\":\"BEAMUSDT\"},{\"orderId\":\"id-3\",\"symbol\":\"BEAMUSDT\"}]}"
    );
    assert_eq!(req.timestamp, "42");
    assert_eq!(req.signature, generate_post_signature("42", "key", "10000", &req.body, "secret"));
}

#[test]
fn empty_batches_are_written_as_empty_lists() {
    assert_eq!(cancel_order_body(&Vec::new()).unwrap(), "{\"category\":\"linear\",\"request\":[]}");
    assert_eq!(place_order_body(&Vec::new()).unwrap(), "{\"category\":\"linear\",\"request\":[]}");
    assert!(cancel_records(&Vec::new()).is_empty());
}

#[test]
fn json_strings_are_escaped() {
    let records = vec![CancelOrderData { symbol: "A\"B\\C\n".to_string(), order_id: "x\u{1}".to_string() }];
    assert_eq!(
        cancel_order_body(&records).unwrap(),
        "{\"category\":\"linear\",\"request\":[{\"orderId\":\"x\\u0001\",\"symbol\":\"A\\\"B\\\\C\\n\"}]}"
    );
}

#[test]
fn order_requests_are_limit_buys() {
    let pos = calculate_position(&DecimalPrice { digits: 2, scale: 0 }, "SEIUSDT").unwrap();
    let orders: Vec<OrderRequest> = order_requests("SEIUSDT", pos);
    assert_eq!(orders.len(), 3);
    for o in &orders {
        assert_eq!(o.side, "Buy");
        assert_eq!(o.order_type, "Limit");
        assert_eq!(o.symbol, "SEIUSDT");
    }
    assert_eq!(orders[0].price, "1.60000");
    assert_eq!(orders[2].qty, "1429");
}

#[test]
fn empty_candle_list_is_no_data() {
    assert_eq!(latest_open_price("BEAMUSDT", &Vec::new()).unwrap_err(), TradeError::NoData);
    let got = latest_open_price("SEIUSDT", &vec![kline("0.51"), kline("0.49")]).unwrap();
    assert_eq!(got, ("SEIUSDT".to_string(), "0.51".to_string()));
}

#[test]
fn failed_fetches_sit_the_cycle_out() {
    let results = vec![
        Ok(("BEAMUSDT".to_string(), "2.00".to_string())),
        Err(TradeError::NoData),
        Ok(("AGIXUSDT".to_string(), "0.30".to_string())),
    ];
    let kept = tradable_prices(&results);
    assert_eq!(
        kept,
        vec![("BEAMUSDT".to_string(), "2.00".to_string()), ("AGIXUSDT".to_string(), "0.30".to_string())]
    );
    assert!(tradable_prices(&vec![Err(TradeError::Transport)]).is_empty());
}

#[test]
fn cancel_batch_collects_every_placement() {
    let mut batch = Vec::new();
    assert!(!should_cancel(&batch));
    append_records(&mut batch, cancel_records(&vec![response("BEAMUSDT", "1"), response("BEAMUSDT", "2")]));
    append_records(&mut batch, cancel_records(&vec![response("SEIUSDT", "3")]));
    assert_eq!(batch.len(), 3);
    assert_eq!(batch[2].order_id, "3");
    assert!(should_cancel(&batch));
}

#[test]
fn fixed_configuration() {
    assert_eq!(symbols(), vec!["BEAMUSDT".to_string(), "SEIUSDT".to_string(), "AGIXUSDT".to_string()]);
    assert_eq!(HOLD_SECONDS, 86400);
    assert_eq!(COOLDOWN_SECONDS, 60);
    assert_eq!(kline_url("https://x/kline?category=linear", "SEIUSDT"), "https://x/kline?category=linear&symbol=SEIUSDT");
}

#[test]
fn headers_carry_key_signature_and_window() {
    let req = prepare_batch_order("key", "secret", "10000", "BEAMUSDT", "2.00", 7).unwrap();
    let headers = auth_headers("key", "10000", &req);
    let expected = vec![
        ("X-BAPI-API-KEY".to_string(), "key".to_string()),
        ("X-BAPI-SIGN".to_string(), req.signature.clone()),
        ("X-BAPI-SIGN-TYPE".to_string(), "2".to_string()),
        ("X-BAPI-TIMESTAMP".to_string(), "7".to_string()),
        ("X-BAPI-RECV-WINDOW".to_string(), "10000".to_string()),
        ("Content-Type".to_string(), "application/json".to_string()),
    ];
    assert_eq!(headers, expected);
}

#[test]
fn numbers_are_written_in_decimal() {
    assert_eq!(decimal_string(0), "0");
    assert_eq!(decimal_string(1429), "1429");
    assert_eq!(padded_string(5, 3), "005");
    assert_eq!(fixed_string(1600000, 6), "1.600000");
    assert_eq!(fixed_string(42, 0), "42");
    assert_eq!(integer_string(-1700), "-1700");
    assert_eq!(integer_string(i64::MIN), "-9223372036854775808");
}

#[test]
fn cycle_runs_place_hold_cancel_cooldown() {
    let pending = vec![CancelOrderData { symbol: "BEAMUSDT".to_string(), order_id: "1".to_string() }];
    assert_eq!(cycle_step(CyclePhase::Placing, &pending), (CycleAction::FetchAndPlace, CyclePhase::Active));
    assert_eq!(cycle_step(CyclePhase::Active, &pending), (CycleAction::Sleep(86400), CyclePhase::Cancelling));
    assert_eq!(cycle_step(CyclePhase::Cancelling, &pending), (CycleAction::CancelBatch, CyclePhase::Settling));
    assert_eq!(cycle_step(CyclePhase::Cancelling, &Vec::new()), (CycleAction::Skip, CyclePhase::Settling));
    assert_eq!(cycle_step(CyclePhase::Settling, &Vec::new()), (CycleAction::Sleep(60), CyclePhase::Placing));
}
