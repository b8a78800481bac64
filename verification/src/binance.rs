//! The exchange side: credentials, the lazily set exchange client and the
//! requests that are sent to it.

use vstd::prelude::*;
use crate::shared::{Interval, Paginator, PriceHistoryRequest};

verus! {

/// Error of the exchange layer; it carries a message.
#[derive(Clone, Debug)]
pub struct Error(String);

impl View for Error {
    type V = Seq<char>;

    closed spec fn view(&self) -> Seq<char> {
        self.0@
    }
}

impl Error {
    /// The error that carries message `s`.
    pub closed spec fn carrying(s: String) -> Error {
        Error(s)
    }

    /// The message read back from an error is the one it was made from.
    pub broadcast proof fn law_message_round_trip(s: String)
        ensures
            #[trigger] Error::carrying(s)@ == s@,
    {
    }

    /// The message the error carries.
    pub fn to_string(&self) -> (s: String)
        ensures
            s@ == self@,
    {
        self.0.clone()
    }
}

impl From<String> for Error {
    fn from(s: String) -> (e: Self) {
        Error(s)
    }
}

impl vstd::std_specs::convert::FromSpecImpl<String> for Error {
    open spec fn obeys_from_spec() -> bool {
        true
    }

    open spec fn from_spec(v: String) -> Self {
        Error::carrying(v)
    }
}

/// Where the API key is read from.
pub const API_KEY_FILE: &'static str = "keys/binance_api";

/// Where the API secret is read from.
pub const SECRET_KEY_FILE: &'static str = "keys/binance_secret";

/// The two halves of a Binance API credential.
pub struct BinanceCredential {
    secret_key: String,
    api_key: String,
}

impl BinanceCredential {
    /// The credential made of the contents of the two key files.
    pub fn new(api_key: String, secret_key: String) -> (c: Self)
        ensures
            c.api_key_view() == api_key@,
            c.secret_key_view() == secret_key@,
    {
        BinanceCredential { secret_key, api_key }
    }

    pub closed spec fn api_key_view(&self) -> Seq<char> {
        self.api_key@
    }

    pub closed spec fn secret_key_view(&self) -> Seq<char> {
        self.secret_key@
    }

    /// The API key.
    pub fn api_key(&self) -> (k: &str)
        ensures
            k@ == self.api_key_view(),
    {
        self.api_key.as_str()
    }

    /// The API secret.
    pub fn secret_key(&self) -> (k: &str)
        ensures
            k@ == self.secret_key_view(),
    {
        self.secret_key.as_str()
    }
}

/// The message of `OpenLimitsError::NoApiKeySet()`. The crate declares the
/// variant with `#[error("")]`, so its `Display` writes nothing: the message
/// is empty.
#[verifier::external_body]
fn no_api_key_set_message() -> (s: String)
    ensures
        s@ == Seq::<char>::empty(),
{
    openlimits::errors::OpenLimitsError::NoApiKeySet().to_string()
}

/// What `str::to_uppercase` gives for a string: its Unicode upper case.
pub uninterp spec fn unicode_uppercase(s: Seq<char>) -> Seq<char>;

/// `str::to_uppercase`: the string in Unicode upper case, a function of the
/// string alone.
#[verifier::external_body]
fn to_uppercase(s: &str) -> (r: String)
    ensures
        r@ == unicode_uppercase(s@),
{
    s.to_uppercase()
}

/// The exchange handle: empty until `init` hands it a connected client of
/// type `C` (the exchange crate's Binance client).
pub struct Binance<C> {
    api: Option<C>,
}

/// A price-ticker request for one market pair.
#[derive(Clone, Debug)]
pub struct PriceTickerRequest {
    pub market_pair: String,
}

/// A historic-rates request as the exchange takes it.
#[derive(Clone, Debug)]
pub struct HistoricRatesRequest {
    pub market_pair: String,
    pub interval: Interval,
    pub paginator: Option<Paginator<u64>>,
}

/// A paginator whose trade ids were widened from `u32` to `u64`.
pub open spec fn widened_paginator(p: Paginator<u32>) -> Paginator<u64> {
    Paginator {
        start_time: p.start_time,
        end_time: p.end_time,
        limit: p.limit,
        after: match p.after {
            Some(x) => Some(x as u64),
            None => None,
        },
        before: match p.before {
            Some(x) => Some(x as u64),
            None => None,
        },
    }
}

/// The interval a price-history request asks for, one minute by default.
pub open spec fn requested_interval(req: PriceHistoryRequest) -> Interval {
    match req.interval {
        Some(i) => i,
        None => Interval::OneMinute,
    }
}

/// The paginator a price-history request asks for, with widened trade ids.
pub open spec fn requested_paginator(req: PriceHistoryRequest) -> Option<Paginator<u64>> {
    match req.paginator {
        Some(p) => Some(widened_paginator(p)),
        None => None,
    }
}

impl<C> Binance<C> {
    /// The handle before any client was set.
    pub fn new() -> (b: Self)
        ensures
            b.client() is None,
    {
        Binance { api: None }
    }

    /// The client this handle holds, if any.
    pub closed spec fn client(&self) -> Option<C> {
        self.api
    }

    /// Stores the client that was connected with the credential.
    pub fn init(&mut self, api: C)
        ensures
            final(self).client() == Some(api),
    {
        self.api = Some(api);
    }

    /// The client, or the no-API-key error where none was set.
    pub fn api(&self) -> (r: Result<&C, Error>)
        ensures
            self.client() is Some <==> r is Ok,
            r matches Ok(a) ==> Some(*a) == self.client(),
            r matches Err(e) ==> e@ == Seq::<char>::empty(),
    {
        match &self.api {
            Some(api) => Ok(api),
            None => Err(Error::from(no_api_key_set_message())),
        }
    }

    /// The client for mutation, or the no-API-key error where none was set.
    pub fn api_mut(&mut self) -> (r: Result<&mut C, Error>)
        ensures
            old(self).client() is Some <==> r is Ok,
            r matches Ok(a) ==> Some(*a) == old(self).client() && final(self).client() == Some(*final(a)),
            r matches Err(e) ==> e@ == Seq::<char>::empty() && final(self).client() == old(self).client(),
    {
        match &mut self.api {
            Some(api) => Ok(api),
            None => Err(Error::from(no_api_key_set_message())),
        }
    }

    /// The price-ticker request for `symbol`: its market pair is the symbol
    /// in upper case.
    pub fn price_ticker_request(symbol: &str) -> (req: PriceTickerRequest)
        ensures
            req.market_pair@ == unicode_uppercase(symbol@),
    {
        PriceTickerRequest { market_pair: to_uppercase(symbol) }
    }

    /// The historic-rates request for `req`: the market pair in upper case,
    /// the interval one minute where none was asked for, and the paginator's
    /// trade ids widened to `u64`.
    pub fn historic_rates_request(req: PriceHistoryRequest) -> (r: HistoricRatesRequest)
        ensures
            r.market_pair@ == unicode_uppercase(req.market_pair@),
            r.interval == requested_interval(req),
            r.paginator == requested_paginator(req),
    {
        let market_pair = to_uppercase(req.market_pair.as_str());
        let interval = match req.interval {
            Some(i) => i,
            None => Interval::OneMinute,
        };
        let paginator = match req.paginator {
            Some(p) => Some(Paginator {
                start_time: p.start_time,
                end_time: p.end_time,
                limit: p.limit,
                after: match p.after {
                    Some(x) => Some(x as u64),
                    None => None,
                },
                before: match p.before {
                    Some(x) => Some(x as u64),
                    None => None,
                },
            }),
            None => None,
        };
        HistoricRatesRequest { market_pair, interval, paginator }
    }
}

/// The exchange request keeps what a price-history request asks for: its
/// interval (one minute where none is given), and its paginator field by
/// field, the trade ids only widened from `u32` to `u64`.
pub proof fn law_history_request_keeps_paginator(req: PriceHistoryRequest)
    ensures
        req.interval matches Some(i) ==> requested_interval(req) == i,
        req.interval is None ==> requested_interval(req) == Interval::OneMinute,
        req.paginator is None ==> requested_paginator(req) is None,
        req.paginator matches Some(p) ==> requested_paginator(req) matches Some(q) && {
            &&& q.start_time == p.start_time
            &&& q.end_time == p.end_time
            &&& q.limit == p.limit
            &&& (p.after matches Some(x) ==> q.after == Some(x as u64))
            &&& (p.after is None ==> q.after is None)
            &&& (p.before matches Some(x) ==> q.before == Some(x as u64))
            &&& (p.before is None ==> q.before is None)
        },
{
}

} // verus!
