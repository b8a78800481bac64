//! Types that the browser client and the server exchange.

use vstd::prelude::*;

verus! {

/// Width of one candle of a price history.
#[derive(Clone, Copy, Debug, PartialEq, Eq, Structural)]
pub enum Interval {
    OneMinute,
    ThreeMinutes,
    FiveMinutes,
    FifteenMinutes,
    ThirtyMinutes,
    OneHour,
    TwoHours,
    FourHours,
    SixHours,
    EightHours,
    TwelveHours,
    OneDay,
    ThreeDays,
    OneWeek,
    OneMonth,
}

/// Which part of a history to fetch; `T` is the type of the trade ids
/// that `before` and `after` name.
#[derive(Clone, Debug)]
pub struct Paginator<T> {
    pub start_time: Option<u64>,
    pub end_time: Option<u64>,
    pub limit: Option<u64>,
    pub after: Option<T>,
    pub before: Option<T>,
}

/// A client's request for the price history of one market pair.
#[derive(Clone, Debug)]
pub struct PriceHistoryRequest {
    pub market_pair: String,
    pub interval: Option<Interval>,
    pub paginator: Option<Paginator<u32>>,
}

/// A client's request to follow a market pair at some interval.
#[derive(Clone, Debug)]
pub struct PriceSubscriptionRequest {
    pub market_pair: String,
    pub interval: Option<Interval>,
}

/// What a client sends over its websocket.
#[derive(Clone, Debug)]
pub enum ClientMessage {
    GetPriceSubscriptionList,
    AddPriceSubscription(PriceHistoryRequest),
    Close,
    Ping,
    Pong,
    Binary(Vec<u8>),
}

} // verus!
