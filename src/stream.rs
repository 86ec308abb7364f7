//! The per-stream hysteresis state machine and the laws it obeys over a
//! history of breach observations.
use vstd::prelude::*;

verus! {

/// The two counters kept for one monitored stream.
#[derive(Clone, Copy, Debug, PartialEq, Eq)]
pub struct StreamState {
    /// Consecutive breaching ticks, saturating at `u64::MAX`.
    pub high_cycles: u64,
    /// Non-breaching ticks since the last alert, saturating at `u64::MAX`.
    pub ok_cycles: u64,
}

/// Increment that stops at the largest counter value.
pub open spec fn sat_inc(n: u64) -> u64 {
    if n == u64::MAX {
        n
    } else {
        (n + 1) as u64
    }
}

/// The state of a stream before its first observation: eligible to alert
/// after the first sustained breach.
pub open spec fn fresh_state(cycles_between_alert: u64) -> StreamState {
    StreamState { high_cycles: 0, ok_cycles: cycles_between_alert }
}

/// Whether a stream in state `s` alerts when it observes `breach`.
pub open spec fn step_alerts(s: StreamState, breach: bool, cfa: u64, cba: u64) -> bool {
    breach && sat_inc(s.high_cycles) >= cfa && s.ok_cycles >= cba
}

/// The state of a stream after it observes `breach` in state `s`.
pub open spec fn step_state(s: StreamState, breach: bool, cfa: u64, cba: u64) -> StreamState {
    if breach {
        if step_alerts(s, breach, cfa, cba) {
            StreamState { high_cycles: sat_inc(s.high_cycles), ok_cycles: 0 }
        } else {
            StreamState { high_cycles: sat_inc(s.high_cycles), ok_cycles: s.ok_cycles }
        }
    } else {
        StreamState { high_cycles: 0, ok_cycles: sat_inc(s.ok_cycles) }
    }
}

/// The state reached from `s` after observing the breaches `bs` in order.
pub open spec fn run(s: StreamState, bs: Seq<bool>, cfa: u64, cba: u64) -> StreamState
    decreases bs.len(),
{
    if bs.len() == 0 {
        s
    } else {
        step_state(run(s, bs.drop_last(), cfa, cba), bs.last(), cfa, cba)
    }
}

/// Whether a stream that starts fresh and observes `bs` alerts on tick `k`.
pub open spec fn alert_at(bs: Seq<bool>, k: int, cfa: u64, cba: u64) -> bool {
    step_alerts(run(fresh_state(cba), bs.take(k), cfa, cba), bs[k], cfa, cba)
}

/// The number of non-breaching ticks among the ticks `a .. b` of `bs`.
pub open spec fn lows(bs: Seq<bool>, a: int, b: int) -> nat
    decreases b - a,
{
    if b <= a {
        0
    } else {
        lows(bs, a, b - 1) + if bs[b - 1] { 0nat } else { 1nat }
    }
}

impl StreamState {
    /// A stream that has observed nothing yet.
    pub fn fresh(cycles_between_alert: u64) -> (r: StreamState)
        ensures
            r == fresh_state(cycles_between_alert),
    {
        StreamState { high_cycles: 0, ok_cycles: cycles_between_alert }
    }

    /// Records one observation and reports whether it raises an alert.
    pub fn step(&mut self, breach: bool, cycles_for_alert: u64, cycles_between_alert: u64) -> (alert: bool)
        ensures
            *final(self) == step_state(*old(self), breach, cycles_for_alert, cycles_between_alert),
            alert == step_alerts(*old(self), breach, cycles_for_alert, cycles_between_alert),
    {
        if breach {
            if self.high_cycles < u64::MAX {
                self.high_cycles = self.high_cycles + 1;
            }
            if self.high_cycles >= cycles_for_alert && self.ok_cycles >= cycles_between_alert {
                self.ok_cycles = 0;
                true
            } else {
                false
            }
        } else {
            self.high_cycles = 0;
            if self.ok_cycles < u64::MAX {
                self.ok_cycles = self.ok_cycles + 1;
            }
            false
        }
    }
}

/// In one tick a stream never increases both of its counters.
pub proof fn lemma_counters_exclusive(s: StreamState, breach: bool, cfa: u64, cba: u64)
    ensures
        !(step_state(s, breach, cfa, cba).high_cycles > s.high_cycles
            && step_state(s, breach, cfa, cba).ok_cycles > s.ok_cycles),
{
}

/// From a state with no breach streak, `high_cycles` counts a run of breaching
/// ticks that ends the history.
proof fn lemma_high_is_streak(s: StreamState, bs: Seq<bool>, cfa: u64, cba: u64)
    requires
        s.high_cycles == 0,
    ensures
        run(s, bs, cfa, cba).high_cycles <= bs.len(),
        forall|j: int|
            bs.len() - run(s, bs, cfa, cba).high_cycles <= j < bs.len() ==> #[trigger] bs[j],
    decreases bs.len(),
{
    if bs.len() > 0 {
        let prev = bs.drop_last();
        lemma_high_is_streak(s, prev, cfa, cba);
        assert forall|j: int|
            bs.len() - run(s, bs, cfa, cba).high_cycles <= j < bs.len() implies #[trigger] bs[j] by {
            if j < bs.len() - 1 {
                assert(prev[j] == bs[j]);
            }
        }
    }
}

/// A stream alerts on tick `k` only if that tick and the `cfa - 1` ticks before
/// it were breaching, and `ok_cycles` had reached `cba`.
pub proof fn lemma_alert_needs_streak(bs: Seq<bool>, k: int, cfa: u64, cba: u64)
    requires
        0 <= k < bs.len(),
        alert_at(bs, k, cfa, cba),
    ensures
        k + 1 >= cfa,
        forall|j: int| k - cfa < j <= k ==> #[trigger] bs[j],
        run(fresh_state(cba), bs.take(k), cfa, cba).ok_cycles >= cba,
{
    let prefix = bs.take(k);
    lemma_high_is_streak(fresh_state(cba), prefix, cfa, cba);
    assert forall|j: int| k - cfa < j <= k implies #[trigger] bs[j] by {
        if j < k {
            assert(prefix[j] == bs[j]);
        }
    }
}

/// `lows` over a range with no non-breaching tick is zero.
proof fn lemma_lows_all_high(bs: Seq<bool>, a: int, b: int)
    requires
        forall|j: int| a <= j < b ==> #[trigger] bs[j],
    ensures
        lows(bs, a, b) == 0,
    decreases b - a,
{
    if b > a {
        lemma_lows_all_high(bs, a, b - 1);
    }
}

/// After an alert on tick `k`, `ok_cycles` never exceeds the number of
/// non-breaching ticks observed since.
proof fn lemma_ok_bounded_by_lows(bs: Seq<bool>, k: int, j: int, cfa: u64, cba: u64)
    requires
        0 <= k < j <= bs.len(),
        alert_at(bs, k, cfa, cba),
    ensures
        run(fresh_state(cba), bs.take(j), cfa, cba).ok_cycles <= lows(bs, k + 1, j),
    decreases j - k,
{
    let s0 = fresh_state(cba);
    if j == k + 1 {
        assert(bs.take(j).drop_last() =~= bs.take(k));
    } else {
        lemma_ok_bounded_by_lows(bs, k, j - 1, cfa, cba);
        assert(bs.take(j).drop_last() =~= bs.take(j - 1));
    }
}

/// Between two alerts of one stream on ticks `k < m`, at least `cba` ticks were
/// non-breaching. When `cba >= 1`, the breaching streak that ends on `m` also
/// begins after `k`.
pub proof fn lemma_cooldown_between_alerts(bs: Seq<bool>, k: int, m: int, cfa: u64, cba: u64)
    requires
        0 <= k < m < bs.len(),
        alert_at(bs, k, cfa, cba),
        alert_at(bs, m, cfa, cba),
    ensures
        lows(bs, k + 1, m) >= cba,
        cba >= 1 ==> k < m + 1 - cfa,
        forall|j: int| m - cfa < j <= m ==> #[trigger] bs[j],
{
    lemma_ok_bounded_by_lows(bs, k, m, cfa, cba);
    lemma_alert_needs_streak(bs, m, cfa, cba);
    if cba >= 1 && m + 1 - cfa <= k {
        lemma_lows_all_high(bs, k + 1, m);
    }
}

} // verus!
