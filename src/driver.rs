//! Decisions of the scan driver. The driver itself (timers, requests,
//! sleeping) runs outside the library; it reports each scan's outcome and
//! performs the action decided here.
use crate::exchanges::PriceMap;
use vstd::prelude::*;

verus! {

/// Pause after a successful scan, in milliseconds.
pub const SCAN_INTERVAL_MILLIS: u64 = 250;

/// Pause after a scan that timed out, in milliseconds.
pub const TIMEOUT_PAUSE_MILLIS: u64 = 5_000;

/// The exponent of the backoff stops growing here.
pub const MAX_BACKOFF_EXPONENT: u32 = 6;

/// How a scan ended.
#[derive(Clone, Copy, Debug, PartialEq, Eq, Structural)]
pub enum ScanOutcome {
    Completed,
    Failed,
    TimedOut,
}

/// What the driver does next.
#[derive(Clone, Copy, Debug, PartialEq, Eq, Structural)]
pub enum DriverAction {
    /// Sleep this many milliseconds, then scan again.
    Pause(u64),
    /// Give up: too many failures in a row.
    Stop,
}

pub open spec fn pow2(n: nat) -> nat
    decreases n,
{
    if n == 0 {
        1
    } else {
        2 * pow2((n - 1) as nat)
    }
}

/// The driver's rule: a completed scan clears the error count and pauses
/// briefly; a failed one counts, stops the driver at the limit and otherwise
/// backs off `2^min(count, 6)` seconds; a timeout counts and pauses 5 s.
pub open spec fn next_step(errors: u32, outcome: ScanOutcome, max_errors: u32) -> (nat, DriverAction) {
    match outcome {
        ScanOutcome::Completed => (0, DriverAction::Pause(SCAN_INTERVAL_MILLIS)),
        ScanOutcome::Failed => {
            let count = errors + 1;
            if count >= max_errors {
                (count as nat, DriverAction::Stop)
            } else {
                let exponent = if count < MAX_BACKOFF_EXPONENT {
                    count
                } else {
                    MAX_BACKOFF_EXPONENT as int
                };
                (count as nat, DriverAction::Pause((1000 * pow2(exponent as nat)) as u64))
            }
        },
        ScanOutcome::TimedOut => ((errors + 1) as nat, DriverAction::Pause(TIMEOUT_PAUSE_MILLIS)),
    }
}

/// The next error count and action after a scan; the count stays below
/// `u32::MAX` by the caller's limit.
pub fn after_scan(errors: u32, outcome: ScanOutcome, max_errors: u32) -> (r: (u32, DriverAction))
    requires
        errors < u32::MAX,
    ensures
        (r.0 as nat, r.1) == next_step(errors, outcome, max_errors),
{
    match outcome {
        ScanOutcome::Completed => (0, DriverAction::Pause(SCAN_INTERVAL_MILLIS)),
        ScanOutcome::Failed => {
            let count = errors + 1;
            if count >= max_errors {
                (count, DriverAction::Stop)
            } else {
                let exponent = if count < MAX_BACKOFF_EXPONENT {
                    count
                } else {
                    MAX_BACKOFF_EXPONENT
                };
                let mut seconds: u64 = 1;
                let mut k: u32 = 0;
                while k < exponent
                    invariant
                        k <= exponent <= MAX_BACKOFF_EXPONENT,
                        seconds == pow2(k as nat),
                        seconds <= 64,
                    decreases exponent - k,
                {
                    proof {
                        lemma_pow2_bound(k as nat);
                    }
                    seconds = seconds * 2;
                    k = k + 1;
                }
                (count, DriverAction::Pause(1000 * seconds))
            }
        },
        ScanOutcome::TimedOut => (errors + 1, DriverAction::Pause(TIMEOUT_PAUSE_MILLIS)),
    }
}

proof fn lemma_pow2_bound(k: nat)
    requires
        k < MAX_BACKOFF_EXPONENT,
    ensures
        pow2(k + 1) <= 64,
        pow2(k + 1) == 2 * pow2(k),
{
    reveal_with_fuel(pow2, 7);
}

/// How long to wait before the next request so that requests are at least
/// `min_interval` milliseconds apart, `elapsed` milliseconds after the last
/// one. A negative elapsed time (a clock that went back) waits nothing.
pub fn rate_limit_delay(elapsed: i64, min_interval: u64) -> (r: u64)
    ensures
        r == (if 0 <= elapsed < min_interval {
            min_interval - elapsed
        } else {
            0
        }),
{
    if elapsed >= 0 && (elapsed as u64) < min_interval {
        min_interval - elapsed as u64
    } else {
        0
    }
}

/// Why a scan's data cannot be analysed.
#[derive(Clone, Copy, Debug, PartialEq, Eq, Structural)]
pub enum ScanError {
    EmptyPriceData,
}

/// A scan needs prices from both venues.
pub fn check_price_data(a: &PriceMap, b: &PriceMap) -> (r: Result<(), ScanError>)
    ensures
        r is Err <==> a.spec_is_empty() || b.spec_is_empty(),
{
    if a.is_empty() || b.is_empty() {
        Err(ScanError::EmptyPriceData)
    } else {
        Ok(())
    }
}

} // verus!
