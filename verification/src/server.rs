//! The web server: its error type and the price history it serves.

use vstd::prelude::*;
use crate::shared::{Interval, PriceHistoryRequest};

verus! {

/// Error of the web server; it carries a message.
#[derive(Clone, Debug)]
pub struct Error(String);

impl View for Error {
    type V = Seq<char>;

    closed spec fn view(&self) -> Seq<char> {
        self.0@
    }
}

impl Error {
    /// The error that carries message `s`.
    pub closed spec fn carrying(s: String) -> Error {
        Error(s)
    }

    /// The message read back from an error is the one it was made from.
    pub broadcast proof fn law_message_round_trip(s: String)
        ensures
            #[trigger] Error::carrying(s)@ == s@,
    {
    }

    /// The message the error carries.
    pub fn to_string(&self) -> (s: String)
        ensures
            s@ == self@,
    {
        self.0.clone()
    }
}

impl From<String> for Error {
    fn from(s: String) -> (e: Self) {
        Error(s)
    }
}

impl vstd::std_specs::convert::FromSpecImpl<String> for Error {
    open spec fn obeys_from_spec() -> bool {
        true
    }

    open spec fn from_spec(v: String) -> Self {
        Error::carrying(v)
    }
}


/// The market pair whose history the price-history endpoint serves.
pub open spec fn served_market_pair() -> Seq<char> {
    "SOLBTC"@
}

/// The request behind the price-history endpoint: hourly candles of the
/// served market pair, from the start.
pub fn price_history_request() -> (r: PriceHistoryRequest)
    ensures
        r.market_pair@ == served_market_pair(),
        r.interval == Some(Interval::OneHour),
        r.paginator is None,
{
    proof {
        reveal_strlit("SOLBTC");
    }
    PriceHistoryRequest {
        market_pair: String::from_str("SOLBTC"),
        interval: Some(Interval::OneHour),
        paginator: None,
    }
}

} // verus!
