use binance_bot::chart::{interval_choices, Candle, Msg, SubscriptionChart};
use binance_bot::shared::Interval;
use rust_decimal::Decimal;

fn candle(time: u64) -> Candle {
    let p = Decimal::new(time as i64, 2);
    Candle { time, low: p, high: p, open: p, close: p, volume: Decimal::ONE }
}

fn times(chart: &SubscriptionChart) -> Vec<u64> {
    chart.data().iter().map(|c| c.time).collect()
}

fn batch(ts: &[u64]) -> Vec<Candle> {
    ts.iter().map(|t| candle(*t)).collect()
}

#[test]
fn fresh_chart_is_empty() {
    let c = SubscriptionChart::init();
    assert_eq!(c.interval, Interval::OneMinute);
    assert_eq!(c.last_candle_update, None);
    assert!(c.error.is_none());
    assert!(c.data().is_empty());
}

#[test]
fn first_batch_is_taken_whole() {
    let mut c = SubscriptionChart::init();
    c.append_price_history(batch(&[10, 20, 30]));
    assert_eq!(times(&c), vec![10, 20, 30]);
    assert_eq!(c.last_candle_update, Some(30));
    assert_eq!(c.data()[1].open, Decimal::new(20, 2));
}

#[test]
fn later_batches_skip_what_was_seen() {
    let mut c = SubscriptionChart::init();
    c.append_price_history(batch(&[10, 20, 30]));
    c.append_price_history(batch(&[20, 30, 40, 50]));
    assert_eq!(times(&c), vec![10, 20, 30, 40, 50]);
    assert_eq!(c.last_candle_update, Some(50));
}

#[test]
fn only_the_leading_old_run_is_skipped() {
    let mut c = SubscriptionChart::init();
    c.append_price_history(batch(&[30]));
    c.append_price_history(batch(&[10, 40, 20]));
    assert_eq!(times(&c), vec![30, 40, 20]);
    assert_eq!(c.last_candle_update, Some(20));
}

#[test]
fn an_all_old_batch_changes_nothing() {
    let mut c = SubscriptionChart::init();
    c.append_price_history(batch(&[10, 20]));
    c.append_price_history(batch(&[5, 10, 20]));
    assert_eq!(times(&c), vec![10, 20]);
    assert_eq!(c.last_candle_update, Some(20));
}

#[test]
fn an_empty_batch_changes_nothing() {
    let mut c = SubscriptionChart::init();
    c.append_price_history(Vec::new());
    assert!(c.data().is_empty());
    assert_eq!(c.last_candle_update, None);
    c.append_price_history(batch(&[7]));
    c.append_price_history(Vec::new());
    assert_eq!(times(&c), vec![7]);
    assert_eq!(c.last_candle_update, Some(7));
}

#[test]
fn appending_a_sorted_batch_twice_is_appending_it_once() {
    let mut once = SubscriptionChart::init();
    once.append_price_history(batch(&[1, 2, 2, 3]));
    let mut twice = SubscriptionChart::init();
    twice.append_price_history(batch(&[1, 2, 2, 3]));
    twice.append_price_history(batch(&[1, 2, 2, 3]));
    assert_eq!(times(&once), times(&twice));
    assert_eq!(once.last_candle_update, twice.last_candle_update);
}

#[test]
fn sorted_batches_keep_the_chart_sorted() {
    let mut c = SubscriptionChart::init();
    c.append_price_history(batch(&[100, 200]));
    c.append_price_history(batch(&[150, 250, 300]));
    c.append_price_history(batch(&[300, 301]));
    let t = times(&c);
    assert_eq!(t, vec![100, 200, 250, 300, 301]);
    assert!(t.windows(2).all(|w| w[0] < w[1]));
}

#[test]
fn a_new_interval_clears_the_chart() {
    let mut c = SubscriptionChart::init();
    c.append_price_history(batch(&[10, 20]));
    let req = c.set_time_interval(Interval::OneHour);
    assert_eq!(req.market_pair, "SOLBTC");
    assert_eq!(req.interval, Some(Interval::OneHour));
    assert_eq!(c.interval, Interval::OneHour);
    assert!(c.data().is_empty());
    assert_eq!(c.last_candle_update, None);
}

#[test]
fn the_same_interval_keeps_the_chart() {
    let mut c = SubscriptionChart::init();
    c.append_price_history(batch(&[10, 20]));
    let req = c.set_time_interval(Interval::OneMinute);
    assert_eq!(req.interval, Some(Interval::OneMinute));
    assert_eq!(times(&c), vec![10, 20]);
    assert_eq!(c.last_candle_update, Some(20));
    let again = c.set_time_interval(Interval::OneMinute);
    assert_eq!(again.interval, Some(Interval::OneMinute));
    assert_eq!(times(&c), vec![10, 20]);
}

#[test]
fn picking_an_interval_twice_is_picking_it_once() {
    let mut c = SubscriptionChart::init();
    c.append_price_history(batch(&[10]));
    c.set_time_interval(Interval::OneDay);
    c.set_time_interval(Interval::OneDay);
    assert_eq!(c.interval, Interval::OneDay);
    assert!(c.data().is_empty());
}

#[test]
fn update_dispatches_messages() {
    let mut c = SubscriptionChart::init();
    assert!(c.update(Msg::AppendCandles(batch(&[1, 2]))).is_none());
    assert_eq!(times(&c), vec![1, 2]);
    let r = c.update(Msg::SetTimeInterval(Interval::ThreeDays)).unwrap();
    assert_eq!(r.interval, Some(Interval::ThreeDays));
    assert_eq!(r.market_pair, "SOLBTC");
    assert!(c.data().is_empty());
}

#[test]
fn interval_request_names_the_current_interval() {
    let mut c = SubscriptionChart::init();
    let r = c.set_interval_request();
    assert_eq!(r.market_pair, "SOLBTC");
    assert_eq!(r.interval, Some(Interval::OneMinute));
    c.interval = Interval::SixHours;
    assert_eq!(c.set_interval_request().interval, Some(Interval::SixHours));
}

#[test]
fn interval_buttons_in_order() {
    let v = interval_choices();
    let labels: Vec<&str> = v.iter().map(|(l, _)| l.as_str()).collect();
    assert_eq!(labels, vec!["1m", "3m", "15m", "1h", "4h", "6h", "12h", "1d", "3d", "1w", "1M"]);
    assert_eq!(v[0].1, Interval::OneMinute);
    assert_eq!(v[2].1, Interval::FifteenMinutes);
    assert_eq!(v[6].1, Interval::TwelveHours);
    assert_eq!(v[10].1, Interval::OneMonth);
}
