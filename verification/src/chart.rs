//! The browser's price chart of one subscription: which candles it shows,
//! the newest candle time it has seen, and the interval it asks for.

use vstd::prelude::*;
use crate::shared::{Interval, PriceSubscriptionRequest};

verus! {

/// The decimal number type of the `rust_decimal` crate, in which candle
/// prices come; the chart only carries the values.
#[verifier::external_type_specification]
#[verifier::external_body]
pub struct ExDecimal(rust_decimal::Decimal);

/// One candle of a price history; `time` orders the candles.
#[derive(Debug)]
pub struct Candle {
    pub time: u64,
    pub low: rust_decimal::Decimal,
    pub high: rust_decimal::Decimal,
    pub open: rust_decimal::Decimal,
    pub close: rust_decimal::Decimal,
    pub volume: rust_decimal::Decimal,
}

/// The part of `batch` that follows its leading candles no newer than `t`.
pub open spec fn skip_not_newer(batch: Seq<Candle>, t: u64) -> Seq<Candle>
    decreases batch.len(),
{
    if batch.len() == 0 {
        batch
    } else if batch[0].time <= t {
        skip_not_newer(batch.drop_first(), t)
    } else {
        batch
    }
}

/// The candles of `batch` that a chart last updated at `last` takes in:
/// all of them before the first update, else those after the leading run of
/// candles no newer than the last update.
pub open spec fn new_candles(batch: Seq<Candle>, last: Option<u64>) -> Seq<Candle> {
    match last {
        Some(t) => skip_not_newer(batch, t),
        None => batch,
    }
}

/// The time of the newest candle shown, if any is shown.
pub open spec fn newest_time(data: Seq<Candle>) -> Option<u64> {
    if data.len() == 0 {
        None
    } else {
        Some(data.last().time)
    }
}

/// Candle times strictly increase along `s`.
pub open spec fn strictly_increasing(s: Seq<Candle>) -> bool {
    forall|i: int, j: int| 0 <= i < j < s.len() ==> s[i].time < s[j].time
}

/// Candle times never decrease along `s`.
pub open spec fn nondecreasing(s: Seq<Candle>) -> bool {
    forall|i: int, j: int| 0 <= i <= j < s.len() ==> s[i].time <= s[j].time
}

/// What a chart holds, as a value.
pub struct ChartView {
    pub interval: Interval,
    pub last_candle_update: Option<u64>,
    pub error: Option<Seq<char>>,
    pub data: Seq<Candle>,
}

impl ChartView {
    /// The newest-update time agrees with the candles shown.
    pub open spec fn consistent(self) -> bool {
        self.last_candle_update == newest_time(self.data)
    }

    /// The chart after taking in `batch`.
    pub open spec fn appended(self, batch: Seq<Candle>) -> ChartView {
        let data = self.data + new_candles(batch, self.last_candle_update);
        ChartView { data, last_candle_update: newest_time(data), ..self }
    }

    /// The chart after the user picked `interval`: a new interval starts an
    /// empty chart, the same interval changes nothing.
    pub open spec fn with_interval(self, interval: Interval) -> ChartView {
        if self.interval == interval {
            self
        } else {
            ChartView {
                interval,
                last_candle_update: None,
                data: Seq::empty(),
                ..self
            }
        }
    }
}

/// The request that subscribes to the chart's market pair at `interval`.
pub open spec fn interval_request(interval: Interval) -> (Seq<char>, Option<Interval>) {
    ("SOLBTC"@, Some(interval))
}

/// The interval buttons above a chart, left to right: each label with the
/// interval it picks.
pub open spec fn interval_buttons() -> Seq<(Seq<char>, Interval)> {
    seq![
        ("1m"@, Interval::OneMinute),
        ("3m"@, Interval::ThreeMinutes),
        ("15m"@, Interval::FifteenMinutes),
        ("1h"@, Interval::OneHour),
        ("4h"@, Interval::FourHours),
        ("6h"@, Interval::SixHours),
        ("12h"@, Interval::TwelveHours),
        ("1d"@, Interval::OneDay),
        ("3d"@, Interval::ThreeDays),
        ("1w"@, Interval::OneWeek),
        ("1M"@, Interval::OneMonth),
    ]
}

/// The interval buttons above a chart, as label and interval.
pub fn interval_choices() -> (v: Vec<(String, Interval)>)
    ensures
        v@.len() == interval_buttons().len(),
        forall|i: int| 0 <= i < v@.len() ==> (#[trigger] v@[i].0@, v@[i].1) == interval_buttons()[i],
{
    let mut v: Vec<(String, Interval)> = Vec::new();
    v.push((String::from_str("1m"), Interval::OneMinute));
    v.push((String::from_str("3m"), Interval::ThreeMinutes));
    v.push((String::from_str("15m"), Interval::FifteenMinutes));
    v.push((String::from_str("1h"), Interval::OneHour));
    v.push((String::from_str("4h"), Interval::FourHours));
    v.push((String::from_str("6h"), Interval::SixHours));
    v.push((String::from_str("12h"), Interval::TwelveHours));
    v.push((String::from_str("1d"), Interval::OneDay));
    v.push((String::from_str("3d"), Interval::ThreeDays));
    v.push((String::from_str("1w"), Interval::OneWeek));
    v.push((String::from_str("1M"), Interval::OneMonth));
    proof {
            reveal_strlit("1m");
            reveal_strlit("3m");
            reveal_strlit("15m");
            reveal_strlit("1h");
            reveal_strlit("4h");
            reveal_strlit("6h");
            reveal_strlit("12h");
            reveal_strlit("1d");
            reveal_strlit("3d");
            reveal_strlit("1w");
            reveal_strlit("1M");
    }
    v
}

/// What the chart is told.
pub enum Msg {
    SetTimeInterval(Interval),
    AppendCandles(Vec<Candle>),
}

/// The chart of a price subscription.
pub struct SubscriptionChart {
    data: Vec<Candle>,
    pub interval: Interval,
    pub last_candle_update: Option<u64>,
    pub error: Option<String>,
}

impl View for SubscriptionChart {
    type V = ChartView;

    closed spec fn view(&self) -> ChartView {
        ChartView {
            interval: self.interval,
            last_candle_update: self.last_candle_update,
            error: match self.error {
                Some(e) => Some(e@),
                None => None,
            },
            data: self.data@,
        }
    }
}

impl SubscriptionChart {
    /// A fresh chart: one-minute candles, nothing shown yet, no error.
    pub fn init() -> (c: Self)
        ensures
            c@.interval == Interval::OneMinute,
            c@.last_candle_update is None,
            c@.error is None,
            c@.data == Seq::<Candle>::empty(),
    {
        SubscriptionChart {
            data: Vec::new(),
            interval: Interval::OneMinute,
            last_candle_update: None,
            error: None,
        }
    }

    /// The candles shown, oldest first.
    pub fn data(&self) -> (d: &Vec<Candle>)
        ensures
            d@ == self@.data,
    {
        &self.data
    }

    /// The request that subscribes to this chart's interval.
    pub fn set_interval_request(&self) -> (r: PriceSubscriptionRequest)
        ensures
            (r.market_pair@, r.interval) == interval_request(self@.interval),
    {
        proof {
            reveal_strlit("SOLBTC");
        }
        PriceSubscriptionRequest { market_pair: String::from_str("SOLBTC"), interval: Some(self.interval) }
    }

    /// Takes in a batch of candles: those after the leading run that is no
    /// newer than the last update are appended, and the last update becomes
    /// the time of the newest candle shown.
    pub fn append_price_history(&mut self, candles: Vec<Candle>)
        ensures
            final(self)@ == old(self)@.appended(candles@),
    {
        let mut candles = candles;
        let mut start: usize = 0;
        if let Some(timestamp) = self.last_candle_update {
            assert(candles@.skip(0) =~= candles@);
            while start < candles.len() && candles[start].time <= timestamp
                invariant
                    start <= candles@.len(),
                    skip_not_newer(candles@, timestamp) == skip_not_newer(
                        candles@.skip(start as int),
                        timestamp,
                    ),
                decreases candles@.len() - start,
            {
                assert(candles@.skip(start as int).drop_first() =~= candles@.skip(start + 1));
                start = start + 1;
            }
            assert(candles@.skip(start as int) =~= candles@.subrange(start as int, candles@.len() as int));
        } else {
            assert(candles@.skip(0) =~= candles@);
        }
        let mut new_data = candles.split_off(start);
        self.data.append(&mut new_data);
        self.last_candle_update = if self.data.len() == 0 {
            None
        } else {
            Some(self.data[self.data.len() - 1].time)
        };
    }

    /// The user picked `interval`: a different one clears the chart and its
    /// last update; either way the subscription request for it is returned.
    pub fn set_time_interval(&mut self, interval: Interval) -> (r: PriceSubscriptionRequest)
        ensures
            final(self)@ == old(self)@.with_interval(interval),
            (r.market_pair@, r.interval) == interval_request(interval),
    {
        if self.interval != interval {
            self.interval = interval;
            self.last_candle_update = None;
            self.data.clear();
        }
        self.set_interval_request()
    }

    /// Handles a message; the request to send, where the message calls for
    /// one.
    pub fn update(&mut self, msg: Msg) -> (r: Option<PriceSubscriptionRequest>)
        ensures
            match msg {
                Msg::SetTimeInterval(i) => {
                    &&& final(self)@ == old(self)@.with_interval(i)
                    &&& r matches Some(req) && (req.market_pair@, req.interval) == interval_request(i)
                },
                Msg::AppendCandles(c) => final(self)@ == old(self)@.appended(c@) && r is None,
            },
    {
        match msg {
            Msg::SetTimeInterval(interval) => Some(self.set_time_interval(interval)),
            Msg::AppendCandles(candles) => {
                self.append_price_history(candles);
                None
            },
        }
    }
}


/// What `skip_not_newer` keeps is a suffix of the batch.
proof fn lemma_skip_is_suffix(batch: Seq<Candle>, t: u64)
    ensures
        skip_not_newer(batch, t).len() <= batch.len(),
        skip_not_newer(batch, t) == batch.subrange(
            batch.len() - skip_not_newer(batch, t).len(),
            batch.len() as int,
        ),
    decreases batch.len(),
{
    if batch.len() == 0 {
        assert(batch.subrange(0, 0) =~= batch);
    } else if batch[0].time <= t {
        lemma_skip_is_suffix(batch.drop_first(), t);
        let k = skip_not_newer(batch, t).len();
        assert(batch.drop_first().subrange(batch.len() - 1 - k, batch.len() - 1) =~= batch.subrange(
            batch.len() - k,
            batch.len() as int,
        ));
    } else {
        assert(batch.subrange(0, batch.len() as int) =~= batch);
    }
}

/// What `skip_not_newer` keeps starts with a candle newer than `t`.
proof fn lemma_skip_starts_newer(batch: Seq<Candle>, t: u64)
    ensures
        skip_not_newer(batch, t).len() > 0 ==> skip_not_newer(batch, t)[0].time > t,
    decreases batch.len(),
{
    if batch.len() > 0 && batch[0].time <= t {
        lemma_skip_starts_newer(batch.drop_first(), t);
    }
}

/// Of a batch no newer than `t`, nothing is kept.
proof fn lemma_skip_all_old(batch: Seq<Candle>, t: u64)
    requires
        forall|i: int| 0 <= i < batch.len() ==> #[trigger] batch[i].time <= t,
    ensures
        skip_not_newer(batch, t).len() == 0,
    decreases batch.len(),
{
    if batch.len() > 0 {
        assert forall|i: int| 0 <= i < batch.drop_first().len() implies #[trigger] batch.drop_first()[i].time <= t by {
            assert(batch.drop_first()[i] == batch[i + 1]);
        }
        lemma_skip_all_old(batch.drop_first(), t);
    }
}

/// What a chart takes in of a batch is a suffix of the batch, and, once
/// the chart has an update time, every candle of it is newer than that time.
proof fn lemma_new_candles_shape(batch: Seq<Candle>, last: Option<u64>)
    ensures
        new_candles(batch, last).len() <= batch.len(),
        new_candles(batch, last) == batch.subrange(
            batch.len() - new_candles(batch, last).len(),
            batch.len() as int,
        ),
        last matches Some(t) ==> (new_candles(batch, last).len() > 0 ==> new_candles(batch, last)[0].time > t),
{
    match last {
        Some(t) => {
            lemma_skip_is_suffix(batch, t);
            lemma_skip_starts_newer(batch, t);
        },
        None => {
            assert(batch.subrange(0, batch.len() as int) =~= batch);
        },
    }
}

/// Taking in a batch keeps every candle already shown, in place, and leaves
/// the chart consistent: its last update is the time of its newest candle.
pub proof fn law_append_keeps_shown_candles(c: ChartView, batch: Seq<Candle>)
    ensures
        c.appended(batch).data.subrange(0, c.data.len() as int) == c.data,
        c.appended(batch).consistent(),
        c.appended(batch).interval == c.interval,
{
    assert(c.appended(batch).data.subrange(0, c.data.len() as int) =~= c.data);
}

/// A consistent chart whose candles strictly increase in time, fed a batch
/// whose candles strictly increase in time, still shows candles that strictly
/// increase in time: nothing is shown twice or out of order.
pub proof fn law_append_keeps_order(c: ChartView, batch: Seq<Candle>)
    requires
        c.consistent(),
        strictly_increasing(c.data),
        strictly_increasing(batch),
    ensures
        strictly_increasing(c.appended(batch).data),
{
    let new = new_candles(batch, c.last_candle_update);
    lemma_new_candles_shape(batch, c.last_candle_update);
    let off = batch.len() - new.len();
    assert forall|k: int| 0 <= k < new.len() implies #[trigger] new[k] == batch[off + k] by {}
    assert(strictly_increasing(new)) by {
        assert forall|i: int, j: int| 0 <= i < j < new.len() implies new[i].time < new[j].time by {
            assert(new[i] == batch[off + i]);
            assert(new[j] == batch[off + j]);
        }
    }
    if c.data.len() > 0 {
        let t = c.data.last().time;
        assert forall|i: int| 0 <= i < c.data.len() implies #[trigger] c.data[i].time <= t by {
            if i < c.data.len() - 1 {
                assert(c.data[i].time < c.data[c.data.len() - 1].time);
            }
        }
        assert forall|k: int| 0 <= k < new.len() implies #[trigger] new[k].time > t by {
            if k > 0 {
                assert(new[0].time < new[k].time);
            }
        }
    }
    let d = c.appended(batch).data;
    assert(d =~= c.data + new);
    assert forall|i: int, j: int| 0 <= i < j < d.len() implies d[i].time < d[j].time by {
        if j < c.data.len() {
            assert(d[i] == c.data[i] && d[j] == c.data[j]);
        } else if i >= c.data.len() {
            assert(d[i] == new[i - c.data.len()] && d[j] == new[j - c.data.len()]);
        } else {
            assert(d[i] == c.data[i] && d[j] == new[j - c.data.len()]);
        }
    }
}

/// Taking in the same time-ordered batch twice shows what taking it in once
/// shows.
pub proof fn law_append_idempotent(c: ChartView, batch: Seq<Candle>)
    requires
        c.consistent(),
        nondecreasing(batch),
    ensures
        c.appended(batch).appended(batch) == c.appended(batch),
{
    let once = c.appended(batch);
    let new = new_candles(batch, c.last_candle_update);
    lemma_new_candles_shape(batch, c.last_candle_update);
    if new.len() == 0 {
        assert(once.data =~= c.data);
        assert(once.last_candle_update == c.last_candle_update);
        assert(new_candles(batch, once.last_candle_update).len() == 0);
        assert(once.data + new_candles(batch, once.last_candle_update) =~= once.data);
    } else {
        let t = batch.last().time;
        assert(once.data.last() == new.last());
        assert(new.last() == batch[batch.len() - 1]);
        assert(once.last_candle_update == Some(t));
        assert forall|i: int| 0 <= i < batch.len() implies #[trigger] batch[i].time <= t by {}
        lemma_skip_all_old(batch, t);
        assert(once.data + new_candles(batch, once.last_candle_update) =~= once.data);
    }
}

/// Taking in an empty batch changes nothing on a consistent chart.
pub proof fn law_append_nothing(c: ChartView)
    requires
        c.consistent(),
    ensures
        c.appended(Seq::empty()) == c,
{
    assert(new_candles(Seq::<Candle>::empty(), c.last_candle_update) =~= Seq::<Candle>::empty());
    assert(c.data + Seq::<Candle>::empty() =~= c.data);
}

/// Picking the same interval twice is picking it once, and picking an
/// interval keeps a consistent chart consistent.
pub proof fn law_interval_idempotent(c: ChartView, interval: Interval)
    ensures
        c.with_interval(interval).with_interval(interval) == c.with_interval(interval),
        c.with_interval(interval).interval == interval,
        c.consistent() ==> c.with_interval(interval).consistent(),
{
}

/// Leading candles of `batch` up to index `k` are no newer than `t`.
proof fn lemma_skip_prefix_old(batch: Seq<Candle>, t: u64)
    ensures
        forall|i: int|
            0 <= i < batch.len() - skip_not_newer(batch, t).len() ==> #[trigger] batch[i].time <= t,
    decreases batch.len(),
{
    if batch.len() > 0 && batch[0].time <= t {
        lemma_skip_prefix_old(batch.drop_first(), t);
        assert forall|i: int|
            0 <= i < batch.len() - skip_not_newer(batch, t).len() implies #[trigger] batch[i].time <= t by {
            if i > 0 {
                assert(batch[i] == batch.drop_first()[i - 1]);
            }
        }
    }
}

/// What a chart takes in of a batch: before its first update, the whole
/// batch; after it, the batch without its leading run of candles no newer
/// than the last update, and nothing else. The shown candles are the old
/// ones followed by those.
pub proof fn law_append_takes_batch_after_old_run(c: ChartView, batch: Seq<Candle>)
    ensures
        c.last_candle_update is None ==> c.appended(batch).data == c.data + batch,
        c.last_candle_update matches Some(t) ==> exists|k: int|
            #![trigger batch.subrange(k, batch.len() as int)]
            0 <= k <= batch.len()
            && (forall|i: int| 0 <= i < k ==> #[trigger] batch[i].time <= t)
            && (k < batch.len() ==> batch[k].time > t)
            && c.appended(batch).data == c.data + batch.subrange(k, batch.len() as int),
{
    if let Some(t) = c.last_candle_update {
        lemma_skip_is_suffix(batch, t);
        lemma_skip_starts_newer(batch, t);
        lemma_skip_prefix_old(batch, t);
        let k = batch.len() - skip_not_newer(batch, t).len();
        if k < batch.len() {
            assert(skip_not_newer(batch, t)[0] == batch[k]);
        }
        assert(c.appended(batch).data == c.data + batch.subrange(k, batch.len() as int));
    }
}

/// Picking an interval other than the chart's current one empties the chart
/// and forgets its last update, whatever the current interval; picking the
/// current one changes nothing. The error shown is kept either way.
pub proof fn law_new_interval_clears(c: ChartView, interval: Interval)
    ensures
        c.interval != interval ==> {
            &&& c.with_interval(interval).interval == interval
            &&& c.with_interval(interval).data == Seq::<Candle>::empty()
            &&& c.with_interval(interval).last_candle_update is None
            &&& c.with_interval(interval).error == c.error
        },
        c.interval == interval ==> c.with_interval(interval) == c,
{
}

/// The subscription request names the SOLBTC market pair and exactly the
/// interval it is asked for.
pub proof fn law_interval_request_names_interval(interval: Interval)
    ensures
        interval_request(interval).0 == "SOLBTC"@,
        interval_request(interval).1 == Some(interval),
{
}

/// The short notation of an interval, as written on its button.
pub open spec fn interval_label(i: Interval) -> Seq<char> {
    match i {
        Interval::OneMinute => "1m"@,
        Interval::ThreeMinutes => "3m"@,
        Interval::FifteenMinutes => "15m"@,
        Interval::OneHour => "1h"@,
        Interval::FourHours => "4h"@,
        Interval::SixHours => "6h"@,
        Interval::TwelveHours => "12h"@,
        Interval::OneDay => "1d"@,
        Interval::ThreeDays => "3d"@,
        Interval::OneWeek => "1w"@,
        Interval::OneMonth => "1M"@,
        Interval::FiveMinutes => "5m"@,
        Interval::ThirtyMinutes => "30m"@,
        Interval::TwoHours => "2h"@,
        Interval::EightHours => "8h"@,
    }
}

/// Every button's label names the interval the button picks, the buttons
/// come in increasing order of width, and no two share an interval.
pub proof fn law_buttons_name_their_interval()
    ensures
        interval_buttons().len() == 11,
        forall|k: int| 0 <= k < interval_buttons().len() ==>
            #[trigger] interval_buttons()[k].0 == interval_label(interval_buttons()[k].1),
        forall|j: int, k: int| 0 <= j < k < interval_buttons().len() ==>
            interval_minutes(#[trigger] interval_buttons()[j].1) < interval_minutes(#[trigger] interval_buttons()[k].1),
{
    reveal_strlit("1m");
    reveal_strlit("3m");
    reveal_strlit("15m");
    reveal_strlit("1h");
    reveal_strlit("4h");
    reveal_strlit("6h");
    reveal_strlit("12h");
    reveal_strlit("1d");
    reveal_strlit("3d");
    reveal_strlit("1w");
    reveal_strlit("1M");
    assert forall|k: int| 0 <= k < interval_buttons().len() implies
        #[trigger] interval_buttons()[k].0 == interval_label(interval_buttons()[k].1) by {
    }
}

/// The width of an interval in minutes (a month counted as thirty days).
pub open spec fn interval_minutes(i: Interval) -> int {
    match i {
        Interval::OneMinute => 1,
        Interval::ThreeMinutes => 3,
        Interval::FiveMinutes => 5,
        Interval::FifteenMinutes => 15,
        Interval::ThirtyMinutes => 30,
        Interval::OneHour => 60,
        Interval::TwoHours => 120,
        Interval::FourHours => 240,
        Interval::SixHours => 360,
        Interval::EightHours => 480,
        Interval::TwelveHours => 720,
        Interval::OneDay => 1440,
        Interval::ThreeDays => 4320,
        Interval::OneWeek => 10080,
        Interval::OneMonth => 43200,
    }
}

} // verus!
