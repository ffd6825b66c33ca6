//! Per-symbol cumulative buy/sell aggregation with a day-boundary reset.
//!
//! One shared clock holds the time of the last processed tick, for all
//! symbols together.  A tick whose UTC day bucket lies after the clock's
//! day resets the counters of that tick's symbol — only that symbol's —
//! before its own volume is applied; the clock then moves to the tick's
//! time unconditionally.

use vstd::prelude::*;
use vstd::hash_map::StringHashMap;
use vstd::string::StrSliceExecFns;

verus! {

/// Seconds in a UTC calendar day; timestamps are bucketed by this.
pub const SECONDS_PER_DAY: u64 = 86400;

/// The UTC day bucket of a timestamp in seconds since the epoch.
pub open spec fn day_of(t: int) -> int {
    t / (SECONDS_PER_DAY as int)
}

/// Whether a trade-type tag counts as a buy.
pub open spec fn is_buy(ty: Seq<char>) -> bool {
    ty == seq!['B']
}

/// Whether a trade-type tag counts as a sell.
pub open spec fn is_sell(ty: Seq<char>) -> bool {
    ty == seq!['S']
}

/// Whether a tick at time `t` crosses a day boundary relative to the
/// shared clock: the clock holds a time whose day bucket is strictly
/// earlier.
pub open spec fn crosses_day(clock: Option<int>, t: int) -> bool {
    match clock {
        Some(lt) => day_of(t) > day_of(lt),
        None => false,
    }
}

/// The counters a tick starts from: zero when its day crosses a boundary
/// or its symbol has no entry yet, the symbol's current counters
/// otherwise.
pub open spec fn base_counters(m: Map<Seq<char>, (int, int)>, clock: Option<int>, sym: Seq<char>, t: int) -> (int, int) {
    if crosses_day(clock, t) || !m.contains_key(sym) {
        (0, 0)
    } else {
        m[sym]
    }
}

/// The symbol's counters after one tick: the base with the volume added
/// to the buy side for `"B"`, to the sell side for `"S"`, to neither for
/// any other tag.
pub open spec fn next_counters(m: Map<Seq<char>, (int, int)>, clock: Option<int>, sym: Seq<char>, ty: Seq<char>, vol: int, t: int) -> (int, int) {
    let base = base_counters(m, clock, sym, t);
    (
        base.0 + if is_buy(ty) { vol } else { 0 },
        base.1 + if is_sell(ty) { vol } else { 0 },
    )
}

/// The whole counter map after one tick: only the tick's symbol changes.
pub open spec fn step_counters(m: Map<Seq<char>, (int, int)>, clock: Option<int>, sym: Seq<char>, ty: Seq<char>, vol: int, t: int) -> Map<Seq<char>, (int, int)> {
    m.insert(sym, next_counters(m, clock, sym, ty, vol, t))
}

/// Whether a counter pair and its delta are representable as the stored
/// 32-bit integers.
pub open spec fn counters_in_range(c: (int, int)) -> bool {
    &&& i32::MIN as int <= c.0 <= i32::MAX as int
    &&& i32::MIN as int <= c.1 <= i32::MAX as int
    &&& i32::MIN as int <= c.0 - c.1 <= i32::MAX as int
}

/// Why a tick could not be aggregated; the message is dropped and the
/// state is left as it was.
#[derive(Clone, Copy, PartialEq, Eq, Structural, Debug)]
pub enum AggregationError {
    /// The tick's timestamp lies before the epoch.
    TimeBeforeEpoch,
    /// The updated counters or their delta leave the 32-bit range.
    CounterOverflow,
}

/// The cumulative values attached to a tick when it is persisted.
#[derive(Clone, Copy, PartialEq, Eq, Structural, Debug)]
pub struct TickAggregates {
    pub cum_buy: i32,
    pub cum_sell: i32,
    pub cum_delta: i32,
}

/// The running aggregation state: per-symbol counters and the shared
/// last-processed-time clock.
pub struct Aggregator {
    totals: StringHashMap<(i32, i32)>,
    last_time: Option<i64>,
}

impl Aggregator {
    /// The per-symbol counters, as unbounded integers.
    pub closed spec fn model(self) -> Map<Seq<char>, (int, int)> {
        Map::new(
            |s: Seq<char>| self.totals@.contains_key(s),
            |s: Seq<char>| (self.totals@[s].0 as int, self.totals@[s].1 as int),
        )
    }

    /// The shared clock: the last processed tick's time, if any.
    pub closed spec fn clock(self) -> Option<int> {
        match self.last_time {
            Some(t) => Some(t as int),
            None => None,
        }
    }

    /// The clock never holds a pre-epoch time.
    pub closed spec fn wf(self) -> bool {
        self.last_time matches Some(t) ==> t >= 0
    }

    /// A fresh state: no symbol observed, no clock.
    pub fn new() -> (r: Aggregator)
        ensures
            r.wf(),
            r.model() == Map::<Seq<char>, (int, int)>::empty(),
            r.clock() == Option::<int>::None,
    {
        let r = Aggregator { totals: StringHashMap::new(), last_time: None };
        proof {
            assert(r.model() =~= Map::<Seq<char>, (int, int)>::empty());
        }
        r
    }

    /// Applies one tick: resolves the day-boundary reset against the
    /// shared clock, adds the volume to the side named by the trade type,
    /// moves the clock to the tick's time, and returns the updated
    /// cumulative values.  A pre-epoch time or a counter leaving the
    /// 32-bit range is an error that leaves the state unchanged.
    pub fn update(&mut self, symbol: &str, trade_type: &str, volume: i32, event_time: i64) -> (r: Result<TickAggregates, AggregationError>)
        requires
            old(self).wf(),
        ensures
            final(self).wf(),
            (r matches Err(e) && e == AggregationError::TimeBeforeEpoch) <==> event_time < 0,
            (r matches Err(e) && e == AggregationError::CounterOverflow) <==> (event_time >= 0
                && !counters_in_range(next_counters(old(self).model(), old(self).clock(), symbol@, trade_type@, volume as int, event_time as int))),
            r matches Err(_) ==> final(self).model() == old(self).model() && final(self).clock() == old(self).clock(),
            r matches Ok(a) ==> ({
                let next = next_counters(old(self).model(), old(self).clock(), symbol@, trade_type@, volume as int, event_time as int);
                &&& a.cum_buy as int == next.0
                &&& a.cum_sell as int == next.1
                &&& a.cum_delta as int == next.0 - next.1
                &&& final(self).model() == step_counters(old(self).model(), old(self).clock(), symbol@, trade_type@, volume as int, event_time as int)
                &&& final(self).clock() == Some(event_time as int)
            }),
    {
        if event_time < 0 {
            return Err(AggregationError::TimeBeforeEpoch);
        }
        let event_day: u64 = (event_time as u64) / SECONDS_PER_DAY;
        let crossed: bool = match self.last_time {
            Some(lt) => event_day > (lt as u64) / SECONDS_PER_DAY,
            None => false,
        };
        proof {
            assert(crossed == crosses_day(self.clock(), event_time as int));
        }
        let base: (i32, i32) = if crossed {
            (0, 0)
        } else {
            match self.totals.get(symbol) {
                Some(p) => *p,
                None => (0, 0),
            }
        };
        let buy_side = trade_tag_is(trade_type, 'B');
        let sell_side = trade_tag_is(trade_type, 'S');
        let new_buy: i64 = base.0 as i64 + if buy_side { volume as i64 } else { 0 };
        let new_sell: i64 = base.1 as i64 + if sell_side { volume as i64 } else { 0 };
        let delta: i64 = new_buy - new_sell;
        if new_buy > i32::MAX as i64 || new_buy < i32::MIN as i64
            || new_sell > i32::MAX as i64 || new_sell < i32::MIN as i64
            || delta > i32::MAX as i64 || delta < i32::MIN as i64 {
            return Err(AggregationError::CounterOverflow);
        }
        let ghost pre = *self;
        self.totals.insert(symbol.to_owned(), (new_buy as i32, new_sell as i32));
        self.last_time = Some(event_time);
        proof {
            assert(self.model() =~= step_counters(pre.model(), pre.clock(), symbol@, trade_type@, volume as int, event_time as int));
        }
        Ok(TickAggregates { cum_buy: new_buy as i32, cum_sell: new_sell as i32, cum_delta: delta as i32 })
    }
}

/// The counter map and clock after a whole sequence of ticks for one
/// symbol; each event is (trade type, volume, time).
pub open spec fn run_model(m: Map<Seq<char>, (int, int)>, clock: Option<int>, sym: Seq<char>, events: Seq<(Seq<char>, int, int)>) -> (Map<Seq<char>, (int, int)>, Option<int>)
    decreases events.len(),
{
    if events.len() == 0 {
        (m, clock)
    } else {
        let e = events[0];
        run_model(step_counters(m, clock, sym, e.0, e.1, e.2), Some(e.2), sym, events.drop_first())
    }
}

/// The total volume of the buy-tagged events.
pub open spec fn buy_sum(events: Seq<(Seq<char>, int, int)>) -> int
    decreases events.len(),
{
    if events.len() == 0 {
        0
    } else {
        (if is_buy(events[0].0) { events[0].1 } else { 0 }) + buy_sum(events.drop_first())
    }
}

/// The total volume of the sell-tagged events.
pub open spec fn sell_sum(events: Seq<(Seq<char>, int, int)>) -> int
    decreases events.len(),
{
    if events.len() == 0 {
        0
    } else {
        (if is_sell(events[0].0) { events[0].1 } else { 0 }) + sell_sum(events.drop_first())
    }
}

/// Helper: from an entry already present and a clock in the same day as
/// every event, a run only accumulates onto that entry.
proof fn lemma_same_day_accum(m: Map<Seq<char>, (int, int)>, last_t: int, sym: Seq<char>, events: Seq<(Seq<char>, int, int)>, d: int)
    requires
        m.contains_key(sym),
        day_of(last_t) == d,
        forall|i: int| 0 <= i < events.len() ==> #[trigger] day_of(events[i].2) == d,
    ensures
        run_model(m, Some(last_t), sym, events).0.contains_key(sym),
        run_model(m, Some(last_t), sym, events).0[sym]
            == (m[sym].0 + buy_sum(events), m[sym].1 + sell_sum(events)),
    decreases events.len(),
{
    if events.len() > 0 {
        let e = events[0];
        assert(day_of(e.2) == d);
        let m1 = step_counters(m, Some(last_t), sym, e.0, e.1, e.2);
        assert(!crosses_day(Some(last_t), e.2));
        assert(forall|i: int| 0 <= i < events.drop_first().len()
            ==> #[trigger] day_of(events.drop_first()[i].2) == d) by {
            assert(forall|i: int| 0 <= i < events.drop_first().len()
                ==> events.drop_first()[i] == events[i + 1]);
        }
        lemma_same_day_accum(m1, e.2, sym, events.drop_first(), d);
    }
}

/// Law: for a sequence of ticks of one symbol, all within one calendar
/// day and starting from a state that has no entry for that symbol, the
/// cumulative counters after the run are the buy and sell volume totals,
/// so the cumulative delta is their difference.
pub proof fn lemma_single_day_cumulative_delta(m: Map<Seq<char>, (int, int)>, clock: Option<int>, sym: Seq<char>, events: Seq<(Seq<char>, int, int)>, d: int)
    requires
        !m.contains_key(sym),
        events.len() >= 1,
        forall|i: int| 0 <= i < events.len() ==> #[trigger] day_of(events[i].2) == d,
    ensures
        run_model(m, clock, sym, events).0.contains_key(sym),
        run_model(m, clock, sym, events).0[sym] == (buy_sum(events), sell_sum(events)),
        run_model(m, clock, sym, events).0[sym].0 - run_model(m, clock, sym, events).0[sym].1
            == buy_sum(events) - sell_sum(events),
{
    let e = events[0];
    let m1 = step_counters(m, clock, sym, e.0, e.1, e.2);
    assert(base_counters(m, clock, sym, e.2) == (0int, 0int));
    assert(forall|i: int| 0 <= i < events.drop_first().len()
        ==> #[trigger] day_of(events.drop_first()[i].2) == d) by {
        assert(forall|i: int| 0 <= i < events.drop_first().len()
            ==> events.drop_first()[i] == events[i + 1]);
    }
    lemma_same_day_accum(m1, e.2, sym, events.drop_first(), d);
}

/// Whether every step of a run keeps its updated counters and their
/// delta in the stored 32-bit range — for each step, exactly the
/// condition under which `update` answers `Ok` rather than
/// `CounterOverflow` for a non-negative time.
pub open spec fn run_in_range(m: Map<Seq<char>, (int, int)>, clock: Option<int>, sym: Seq<char>, events: Seq<(Seq<char>, int, int)>) -> bool
    decreases events.len(),
{
    if events.len() == 0 {
        true
    } else {
        let e = events[0];
        counters_in_range(next_counters(m, clock, sym, e.0, e.1, e.2))
            && run_in_range(step_counters(m, clock, sym, e.0, e.1, e.2), Some(e.2), sym, events.drop_first())
    }
}

/// Helper: with non-negative volumes both totals are non-negative.
proof fn lemma_sums_nonneg(events: Seq<(Seq<char>, int, int)>)
    requires
        forall|i: int| 0 <= i < events.len() ==> (#[trigger] events[i]).1 >= 0,
    ensures
        buy_sum(events) >= 0,
        sell_sum(events) >= 0,
    decreases events.len(),
{
    if events.len() > 0 {
        assert(forall|i: int| 0 <= i < events.drop_first().len()
            ==> (#[trigger] events.drop_first()[i]).1 >= 0) by {
            assert(forall|i: int| 0 <= i < events.drop_first().len()
                ==> events.drop_first()[i] == events[i + 1]);
        }
        lemma_sums_nonneg(events.drop_first());
    }
}

/// Helper: from a non-negative entry and a same-day clock, a run whose
/// remaining totals keep the entry within the 32-bit range stays in
/// range at every step.
proof fn lemma_same_day_accum_in_range(m: Map<Seq<char>, (int, int)>, last_t: int, sym: Seq<char>, events: Seq<(Seq<char>, int, int)>, d: int)
    requires
        m.contains_key(sym),
        m[sym].0 >= 0,
        m[sym].1 >= 0,
        day_of(last_t) == d,
        forall|i: int| 0 <= i < events.len() ==> #[trigger] day_of(events[i].2) == d,
        forall|i: int| 0 <= i < events.len() ==> (#[trigger] events[i]).1 >= 0,
        m[sym].0 + buy_sum(events) <= i32::MAX as int,
        m[sym].1 + sell_sum(events) <= i32::MAX as int,
    ensures
        run_in_range(m, Some(last_t), sym, events),
    decreases events.len(),
{
    if events.len() > 0 {
        let e = events[0];
        let rest = events.drop_first();
        assert(forall|i: int| 0 <= i < rest.len()
            ==> #[trigger] day_of(rest[i].2) == d) by {
            assert(forall|i: int| 0 <= i < rest.len() ==> rest[i] == events[i + 1]);
        }
        assert(forall|i: int| 0 <= i < rest.len()
            ==> (#[trigger] rest[i]).1 >= 0) by {
            assert(forall|i: int| 0 <= i < rest.len() ==> rest[i] == events[i + 1]);
        }
        lemma_sums_nonneg(rest);
        assert(!crosses_day(Some(last_t), e.2));
        let next = next_counters(m, Some(last_t), sym, e.0, e.1, e.2);
        assert(counters_in_range(next));
        let m1 = step_counters(m, Some(last_t), sym, e.0, e.1, e.2);
        lemma_same_day_accum_in_range(m1, e.2, sym, rest, d);
    }
}

/// Law: a same-day run for one fresh symbol, with non-negative volumes
/// whose buy and sell totals fit the stored 32-bit range, keeps every
/// step's updated counters and delta in that range — so, with
/// non-negative times, the executable `update` accepts every tick of
/// such a run instead of returning an error, and the run's cumulative
/// delta is the one `lemma_single_day_cumulative_delta` gives.
pub proof fn lemma_single_day_run_in_range(m: Map<Seq<char>, (int, int)>, clock: Option<int>, sym: Seq<char>, events: Seq<(Seq<char>, int, int)>, d: int)
    requires
        !m.contains_key(sym),
        forall|i: int| 0 <= i < events.len() ==> #[trigger] day_of(events[i].2) == d,
        forall|i: int| 0 <= i < events.len() ==> (#[trigger] events[i]).1 >= 0,
        buy_sum(events) <= i32::MAX as int,
        sell_sum(events) <= i32::MAX as int,
    ensures
        run_in_range(m, clock, sym, events),
{
    if events.len() > 0 {
        let e = events[0];
        let rest = events.drop_first();
        assert(forall|i: int| 0 <= i < rest.len()
            ==> #[trigger] day_of(rest[i].2) == d) by {
            assert(forall|i: int| 0 <= i < rest.len() ==> rest[i] == events[i + 1]);
        }
        assert(forall|i: int| 0 <= i < rest.len()
            ==> (#[trigger] rest[i]).1 >= 0) by {
            assert(forall|i: int| 0 <= i < rest.len() ==> rest[i] == events[i + 1]);
        }
        lemma_sums_nonneg(rest);
        assert(base_counters(m, clock, sym, e.2) == (0int, 0int));
        let next = next_counters(m, clock, sym, e.0, e.1, e.2);
        assert(counters_in_range(next));
        let m1 = step_counters(m, clock, sym, e.0, e.1, e.2);
        lemma_same_day_accum_in_range(m1, e.2, sym, rest, d);
    }
}

/// Law: of two ticks for the same symbol whose timestamps fall in
/// different day buckets, the second starts from counters reset to zero:
/// only its own volume shows afterwards, whatever the symbol held before.
pub proof fn lemma_day_boundary_reset(m: Map<Seq<char>, (int, int)>, clock: Option<int>, sym: Seq<char>, ty1: Seq<char>, vol1: int, t1: int, ty2: Seq<char>, vol2: int, t2: int)
    requires
        day_of(t2) > day_of(t1),
    ensures
        ({
            let m1 = step_counters(m, clock, sym, ty1, vol1, t1);
            let m2 = step_counters(m1, Some(t1), sym, ty2, vol2, t2);
            m2[sym] == ((if is_buy(ty2) { vol2 } else { 0int }), (if is_sell(ty2) { vol2 } else { 0int }))
        }),
{
    let m1 = step_counters(m, clock, sym, ty1, vol1, t1);
    assert(crosses_day(Some(t1), t2));
    assert(base_counters(m1, Some(t1), sym, t2) == (0int, 0int));
}

/// Law of the shared clock: a tick of one symbol, day crossing or not,
/// never touches another symbol's counters; and after it the other
/// symbol is reset by its own next tick exactly when that tick's day
/// bucket lies after the day this tick moved the shared clock to — the
/// other symbol's own history plays no part in that decision.
pub proof fn lemma_crossing_leaves_others(m: Map<Seq<char>, (int, int)>, clock: Option<int>, sym_a: Seq<char>, sym_b: Seq<char>, ty: Seq<char>, vol: int, t: int, t_b: int)
    requires
        sym_a != sym_b,
    ensures
        step_counters(m, clock, sym_a, ty, vol, t).contains_key(sym_b) == m.contains_key(sym_b),
        m.contains_key(sym_b) ==> step_counters(m, clock, sym_a, ty, vol, t)[sym_b] == m[sym_b],
        base_counters(step_counters(m, clock, sym_a, ty, vol, t), Some(t), sym_b, t_b)
            == (if day_of(t_b) > day_of(t) || !m.contains_key(sym_b) { (0int, 0int) } else { m[sym_b] }),
{
}

/// Law: under non-negative volumes the counters never decrease between
/// resets — a tick that does not cross a day boundary only adds to its
/// symbol's counters — and an entry appears in the counter map only
/// through a tick of its own symbol.
pub proof fn lemma_counters_monotone(m: Map<Seq<char>, (int, int)>, clock: Option<int>, sym: Seq<char>, ty: Seq<char>, vol: int, t: int)
    requires
        vol >= 0,
    ensures
        !crosses_day(clock, t) && m.contains_key(sym) ==> ({
            let stepped = step_counters(m, clock, sym, ty, vol, t);
            stepped[sym].0 >= m[sym].0 && stepped[sym].1 >= m[sym].1
        }),
        step_counters(m, clock, sym, ty, vol, t).dom() =~= m.dom().insert(sym),
{
}

/// Whether a trade-type tag is exactly the one character `c`.
fn trade_tag_is(s: &str, c: char) -> (r: bool)
    ensures
        r == (s@ == seq![c]),
{
    let n = s.unicode_len();
    if n != 1 {
        return false;
    }
    let c0 = s.get_char(0);
    proof {
        if c0 == c {
            assert(s@ =~= seq![c]);
        } else {
            assert(s@[0] != seq![c][0]);
        }
    }
    c0 == c
}

} // verus!
