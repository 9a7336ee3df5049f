use kline_ladder::position::{calculate_position, price_decimals};
use kline_ladder::price::{parse_price, DecimalPrice};

fn prices_and_sizes(price: &str, symbol: &str) -> Option<[String; 6]> {
    let p = parse_price(price).expect("a valid price");
    calculate_position(&p, symbol).map(|pos| {
        [
            pos.twenty_percent_price,
            pos.twenty_five_percent_price,
            pos.thirty_percent_price,
            pos.twenty_percent_size,
            pos.twenty_five_percent_size,
            pos.thirty_percent_size,
        ]
    })
}

#[test]
fn beam_two_dollars_gives_documented_ladder() {
    let got = prices_and_sizes("2.00", "BEAMUSDT").expect("BEAMUSDT is supported");
    assert_eq!(got[0], "1.600000");
    assert_eq!(got[1], "1.500000");
    assert_eq!(got[2], "1.400000");
    assert_eq!(got[3], "625");
    assert_eq!(got[4], "667");
    assert_eq!(got[5], "1429");
}

#[test]
fn sei_and_agix_use_five_decimal_places() {
    for symbol in ["SEIUSDT", "AGIXUSDT"] {
        let got = prices_and_sizes("0.5", symbol).expect("supported");
        assert_eq!(got[0], "0.40000");
        assert_eq!(got[1], "0.37500");
        assert_eq!(got[2], "0.35000");
        assert_eq!(got[3], "2500");
        assert_eq!(got[4], "2667");
        assert_eq!(got[5], "5714");
    }
}

#[test]
fn unsupported_symbol_gives_none() {
    assert!(prices_and_sizes("2.00", "BTCUSDT").is_none());
    assert!(prices_and_sizes("2.00", "").is_none());
    assert!(prices_and_sizes("2.00", "beamusdt").is_none());
    assert_eq!(price_decimals("BTCUSDT"), None);
    assert_eq!(price_decimals("BEAMUSDT"), Some(6));
    assert_eq!(price_decimals("SEIUSDT"), Some(5));
    assert_eq!(price_decimals("AGIXUSDT"), Some(5));
}

#[test]
fn sizes_round_half_away_from_zero() {
    // 1000 / 400 = 2.5 exactly
    let got = prices_and_sizes("500", "BEAMUSDT").expect("supported");
    assert_eq!(got[0], "400.000000");
    assert_eq!(got[3], "3");
    assert_eq!(got[4], "3");
    assert_eq!(got[5], "6");
}

#[test]
fn prices_round_to_the_nearest_last_place() {
    let got = prices_and_sizes("0.0000013", "BEAMUSDT").expect("supported");
    assert_eq!(got[0], "0.000001");
    assert_eq!(got[1], "0.000001");
    assert_eq!(got[2], "0.000001");
    assert_eq!(got[3], "961538462");
}

#[test]
fn tier_prices_decrease_with_the_discount() {
    let got = prices_and_sizes("123.456789", "BEAMUSDT").expect("supported");
    assert_eq!(got[0], "98.765431");
    assert_eq!(got[1], "92.592592");
    assert_eq!(got[2], "86.419752");
    let a: f64 = got[0].parse().unwrap();
    let b: f64 = got[1].parse().unwrap();
    let c: f64 = got[2].parse().unwrap();
    assert!(a > b && b > c);
}

#[test]
fn calculate_position_on_a_decimal_price() {
    let p = DecimalPrice { digits: 200, scale: 2 };
    let pos = calculate_position(&p, "BEAMUSDT").expect("supported");
    assert_eq!(pos.twenty_percent_price, "1.600000");
    assert_eq!(pos.thirty_percent_size, "1429");
}

#[test]
fn parse_price_reads_decimals() {
    assert_eq!(parse_price("2.00"), Some(DecimalPrice { digits: 200, scale: 2 }));
    assert_eq!(parse_price("0.5"), Some(DecimalPrice { digits: 5, scale: 1 }));
    assert_eq!(parse_price("17"), Some(DecimalPrice { digits: 17, scale: 0 }));
    assert_eq!(parse_price("0"), Some(DecimalPrice { digits: 0, scale: 0 }));
    assert_eq!(
        parse_price("123456789.123456789"),
        Some(DecimalPrice { digits: 123456789123456789, scale: 9 })
    );
}

#[test]
fn parse_price_refuses_other_text() {
    for bad in ["", "abc", "1.", ".5", "1.2.3", "-1", "+1", "1e3", " 1", "1,5", "1234567890.123456789"] {
        assert_eq!(parse_price(bad), None, "{bad}");
    }
}
