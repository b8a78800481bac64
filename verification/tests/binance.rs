use binance_bot::binance::{Binance, BinanceCredential, Error, API_KEY_FILE, SECRET_KEY_FILE};
use binance_bot::server::{self, price_history_request};
use binance_bot::service;
use binance_bot::shared::{Interval, Paginator, PriceHistoryRequest};

#[test]
fn exchange_error_keeps_its_message() {
    let e = Error::from("boom".to_string());
    assert_eq!(e.to_string(), "boom");
    assert_eq!(e.clone().to_string(), "boom");
}

#[test]
fn server_error_keeps_its_message() {
    let e = server::Error::from("bad route".to_string());
    assert_eq!(e.to_string(), "bad route");
}

#[test]
fn service_error_keeps_its_message() {
    let e = service::Error::from(String::new());
    assert_eq!(e.to_string(), "");
    let e = service::Error::from("tracing failed".to_string());
    assert_eq!(e.to_string(), "tracing failed");
}

#[test]
fn key_files_are_under_keys() {
    assert_eq!(API_KEY_FILE, "keys/binance_api");
    assert_eq!(SECRET_KEY_FILE, "keys/binance_secret");
}

#[test]
fn credential_holds_both_keys() {
    let c = BinanceCredential::new("api-123".to_string(), "secret-456".to_string());
    assert_eq!(c.api_key(), "api-123");
    assert_eq!(c.secret_key(), "secret-456");
}

#[test]
fn api_is_missing_before_init() {
    let b: Binance<u32> = Binance::new();
    let e = b.api().unwrap_err();
    assert_eq!(e.to_string(), "");
}

#[test]
fn api_is_there_after_init() {
    let mut b: Binance<u32> = Binance::new();
    b.init(7);
    assert_eq!(*b.api().unwrap(), 7);
    *b.api_mut().unwrap() = 9;
    assert_eq!(*b.api().unwrap(), 9);
}

#[test]
fn api_mut_is_missing_before_init() {
    let mut b: Binance<u32> = Binance::new();
    assert_eq!(b.api_mut().unwrap_err().to_string(), "");
}

#[test]
fn ticker_request_upper_cases_the_symbol() {
    let r = Binance::<u32>::price_ticker_request("solbtc");
    assert_eq!(r.market_pair, "SOLBTC");
    let r = Binance::<u32>::price_ticker_request("EthUsdt");
    assert_eq!(r.market_pair, "ETHUSDT");
}

#[test]
fn history_request_defaults_to_one_minute() {
    let req = PriceHistoryRequest {
        market_pair: "btcusdt".to_string(),
        interval: None,
        paginator: None,
    };
    let r = Binance::<u32>::historic_rates_request(req);
    assert_eq!(r.market_pair, "BTCUSDT");
    assert_eq!(r.interval, Interval::OneMinute);
    assert!(r.paginator.is_none());
}

#[test]
fn history_request_keeps_interval_and_widens_paginator() {
    let req = PriceHistoryRequest {
        market_pair: "SOLBTC".to_string(),
        interval: Some(Interval::FourHours),
        paginator: Some(Paginator {
            start_time: Some(1_600_000_000_000),
            end_time: None,
            limit: Some(500),
            after: Some(u32::MAX),
            before: Some(17),
        }),
    };
    let r = Binance::<u32>::historic_rates_request(req);
    assert_eq!(r.market_pair, "SOLBTC");
    assert_eq!(r.interval, Interval::FourHours);
    let p = r.paginator.unwrap();
    assert_eq!(p.start_time, Some(1_600_000_000_000));
    assert_eq!(p.end_time, None);
    assert_eq!(p.limit, Some(500));
    assert_eq!(p.after, Some(4_294_967_295u64));
    assert_eq!(p.before, Some(17u64));
}

#[test]
fn served_history_is_hourly_solbtc() {
    let r = price_history_request();
    assert_eq!(r.market_pair, "SOLBTC");
    assert_eq!(r.interval, Some(Interval::OneHour));
    assert!(r.paginator.is_none());
}
