//! A circuit breaker that halts analysis after repeated failures until a
//! cool-down has passed.
use crate::clock::now_millis;
use vstd::prelude::*;

verus! {

/// Milliseconds in a minute.
pub const MILLIS_PER_MINUTE: i64 = 60_000;

/// The state of a breaker: failures counted, time of the latest one, and the
/// configuration it was built with.
pub struct BreakerModel {
    pub failure_count: nat,
    pub last_failure: Option<int>,
    pub threshold: nat,
    /// The reset window in milliseconds.
    pub window: int,
}

/// Open when the threshold is reached and the latest failure is more recent
/// than the reset window.
pub open spec fn open_at(m: BreakerModel, now: int) -> bool {
    m.failure_count >= m.threshold && match m.last_failure {
        Some(t) => now - t < m.window,
        None => false,
    }
}

/// The state after one more failure at time `at`; the count stops at the
/// largest `u32`.
pub open spec fn failed(m: BreakerModel, at: int) -> BreakerModel {
    BreakerModel {
        failure_count: if m.failure_count < u32::MAX {
            m.failure_count + 1
        } else {
            m.failure_count
        },
        last_failure: Some(at),
        ..m
    }
}

/// The state after failures at each of `times`, in order.
pub open spec fn failed_at_each(m: BreakerModel, times: Seq<i64>) -> BreakerModel
    decreases times.len(),
{
    if times.len() == 0 {
        m
    } else {
        failed(failed_at_each(m, times.drop_last()), times.last() as int)
    }
}

/// A breaker with no failure counted.
pub open spec fn new_breaker(threshold: nat, reset_timeout_minutes: int) -> BreakerModel {
    BreakerModel {
        failure_count: 0,
        last_failure: None,
        threshold,
        window: reset_timeout_minutes * MILLIS_PER_MINUTE,
    }
}

pub open spec fn cleared(m: BreakerModel) -> BreakerModel {
    BreakerModel { failure_count: 0, last_failure: None, ..m }
}

/// Counts failures and the time of the latest one.
#[derive(Clone, Debug)]
pub struct CircuitBreaker {
    failure_count: u32,
    last_failure: Option<i64>,
    threshold: u32,
    reset_timeout_minutes: i64,
}

impl View for CircuitBreaker {
    type V = BreakerModel;

    closed spec fn view(&self) -> BreakerModel {
        BreakerModel {
            failure_count: self.failure_count as nat,
            last_failure: match self.last_failure {
                Some(t) => Some(t as int),
                None => None,
            },
            threshold: self.threshold as nat,
            window: self.reset_timeout_minutes * MILLIS_PER_MINUTE,
        }
    }
}

impl CircuitBreaker {
    /// A closed breaker with no failure counted.
    pub fn new(threshold: u32, reset_timeout_minutes: i64) -> (r: CircuitBreaker)
        ensures
            r@ == new_breaker(threshold as nat, reset_timeout_minutes as int),
    {
        CircuitBreaker { failure_count: 0, last_failure: None, threshold, reset_timeout_minutes }
    }

    /// Whether the breaker is open at time `now` (milliseconds).
    pub fn is_open_at(&self, now: i64) -> (r: bool)
        ensures
            r == open_at(self@, now as int),
    {
        if self.failure_count >= self.threshold {
            if let Some(last) = self.last_failure {
                let elapsed: i128 = now as i128 - last as i128;
                let minutes = self.reset_timeout_minutes as i128;
                assert(-0x8000_0000_0000_0000 <= minutes < 0x8000_0000_0000_0000);
                assert(-0x1_0000_0000_0000_0000_0000 < minutes * 60_000 < 0x1_0000_0000_0000_0000_0000)
                    by (nonlinear_arith)
                    requires
                        -0x8000_0000_0000_0000 <= minutes < 0x8000_0000_0000_0000,
                ;
                let window: i128 = minutes * 60_000;
                return elapsed < window;
            }
        }
        false
    }

    /// Whether the breaker is open now. Below the threshold, or with no
    /// failure recorded, it is closed whatever the time.
    pub fn is_open(&self) -> (r: bool)
        ensures
            exists|t: i64| r == open_at(self@, t as int),
            r ==> self@.failure_count >= self@.threshold && self@.last_failure is Some,
    {
        let now = now_millis();
        self.is_open_at(now)
    }

    /// Counts a failure that happened at `now`.
    pub fn record_failure_at(&mut self, now: i64)
        ensures
            final(self)@ == failed(old(self)@, now as int),
    {
        self.failure_count = self.failure_count.saturating_add(1);
        self.last_failure = Some(now);
    }

    /// Counts a failure that happens now.
    pub fn record_failure(&mut self)
        ensures
            exists|t: i64| final(self)@ == failed(old(self)@, t as int),
    {
        let now = now_millis();
        self.record_failure_at(now);
    }

    /// Forgets every failure; the configuration stays.
    pub fn reset(&mut self)
        ensures
            final(self)@ == cleared(old(self)@),
    {
        self.failure_count = 0;
        self.last_failure = None;
    }
}

/// From a cleared breaker, failures at `times` leave the count at the number
/// of failures and the latest failure at the last time; the breaker is then
/// open at `now` exactly when that count reaches the threshold and the last
/// failure is within the reset window.
pub proof fn lemma_open_after_failures(m: BreakerModel, times: Seq<i64>, now: int)
    requires
        m.failure_count == 0,
        0 < times.len() <= u32::MAX,
    ensures
        failed_at_each(m, times).failure_count == times.len(),
        failed_at_each(m, times).last_failure == Some(times.last() as int),
        failed_at_each(m, times).threshold == m.threshold,
        failed_at_each(m, times).window == m.window,
        open_at(failed_at_each(m, times), now) <==> (times.len() >= m.threshold && now - times.last()
            < m.window),
    decreases times.len(),
{
    if times.len() > 1 {
        lemma_open_after_failures(m, times.drop_last(), now);
    } else {
        assert(failed_at_each(m, times.drop_last()) == m);
    }
}

/// `threshold` failures within the window open the breaker; one fewer does
/// not.
pub proof fn lemma_threshold_opens(m: BreakerModel, times: Seq<i64>, now: int)
    requires
        m.failure_count == 0,
        m.threshold >= 1,
        times.len() <= u32::MAX,
        now - times.last() < m.window,
    ensures
        times.len() == m.threshold ==> open_at(failed_at_each(m, times), now),
        times.len() + 1 == m.threshold ==> !open_at(failed_at_each(m, times), now),
{
    if times.len() > 0 {
        lemma_open_after_failures(m, times, now);
    }
}

/// An open breaker closes with no further failure only once the reset
/// window has passed since its latest failure.
pub proof fn lemma_closes_only_after_window(m: BreakerModel, now: int, later: int)
    requires
        open_at(m, now),
        now <= later,
        !open_at(m, later),
    ensures
        m.last_failure matches Some(t) && later - t >= m.window,
{
}

/// A reset closes the breaker at every time.
pub proof fn lemma_reset_closes(m: BreakerModel, now: int)
    ensures
        !open_at(cleared(m), now),
{
}

} // verus!
