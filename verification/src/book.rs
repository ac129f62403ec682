//! The market data that the server follows: which price streams it
//! subscribes to on the exchange.
use vstd::prelude::*;

verus! {

/// The candle lengths of the kline streams that the server follows.
#[derive(Debug, PartialEq, Eq, Structural, Clone, Copy)]
pub enum CandleInterval {
    Minutes1,
    Minutes3,
}

/// A kline (candlestick) stream: a trading pair and a candle length.
#[derive(Debug, PartialEq)]
pub struct PriceStream {
    pub symbol: String,
    pub interval: CandleInterval,
}

/// The streams that the server subscribes to for price updates: BTC/USDT in
/// one-minute candles and BNB/BUSD in three-minute candles, in that order.
pub fn price_streams() -> (res: Vec<PriceStream>)
    ensures
        res@.len() == 2,
        res@[0].symbol@ == "BTCUSDT"@,
        res@[0].interval == CandleInterval::Minutes1,
        res@[1].symbol@ == "BNBBUSD"@,
        res@[1].interval == CandleInterval::Minutes3,
{
    let mut streams: Vec<PriceStream> = Vec::new();
    streams.push(PriceStream { symbol: "BTCUSDT".to_owned(), interval: CandleInterval::Minutes1 });
    streams.push(PriceStream { symbol: "BNBBUSD".to_owned(), interval: CandleInterval::Minutes3 });
    streams
}

/// Loads the portfolio before price tracking starts; there is nothing to load yet.
pub fn get_portfolio() {
}

} // verus!
