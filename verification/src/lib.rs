//! Verified core of a Binance price-watching service: the request
//! building, message decoding and chart bookkeeping that sit between the
//! exchange client, the websocket transport and the browser chart.

pub mod binance;
pub mod shared;
pub mod chart;
pub mod server;
pub mod service;
pub mod websocket;
