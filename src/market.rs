use vstd::prelude::*;
use crate::error::TradeError;

verus! {

/// One candlestick; every value is kept as the text the exchange sent.
#[derive(Clone, Debug)]
pub struct Kline {
    pub start_time: String,
    pub open_price: String,
    pub high_price: String,
    pub low_price: String,
    pub close_price: String,
    pub volume: String,
    pub turnover: String,
}

/// The candlestick query for `symbol` under the configured base URL.
pub fn kline_url(base_url: &str, symbol: &str) -> (r: String)
    ensures
        r@ == base_url@ + "&symbol="@ + symbol@,
{
    let mut url = String::from_str(base_url);
    url.append("&symbol=");
    url.append(symbol);
    url
}

/// The symbol with the opening price of the most recent candle, which the
/// exchange lists first; `NoData` when the list is empty.
pub fn latest_open_price(symbol: &str, candles: &Vec<Kline>) -> (r: Result<(String, String), TradeError>)
    ensures
        candles@.len() == 0 <==> r == Err::<(String, String), TradeError>(TradeError::NoData),
        candles@.len() > 0 ==> (r matches Ok(pair) && pair.0@ == symbol@ && pair.1@
            == candles@[0].open_price@),
{
    if candles.len() == 0 {
        Err(TradeError::NoData)
    } else {
        Ok((String::from_str(symbol), candles[0].open_price.clone()))
    }
}

} // verus!
