//! The wait/verify state machine, as pure functions over explicit instants
//! and durations.
//!
//! Instants are whole seconds on the wall clock (signed, so instants before
//! the epoch are representable); durations are non-negative whole seconds.
//! A single wait invocation moves through four phases: not started, sleeping,
//! woke, failed. `begin_wait` decides whether sleeping may start and for how
//! long; the surrounding process performs the one suspension (the sleep
//! itself, which this library cannot) and reports its outcome; `conclude_wait`
//! then classifies the outcome: a backend failure is terminal, and a normal
//! wake is verified against the target within the tolerance.

use vstd::prelude::*;

use crate::errors::{walltime_error_string, HeliocronError, RuntimeErrorKind};

verus! {

use vstd::math::abs;

/// What the sleep backend reported, handed back by the surrounding process.
pub enum SleepOutcome {
    /// The backend returned normally; the payload is the wake instant, a
    /// fresh measurement of "now" taken after waking, in seconds.
    Woke(i64),
    /// The backend itself failed (interruption, clock trouble); the wait is
    /// abandoned and no drift may be inferred from it. The payload is the
    /// cause's displayed message, captured when the failure was observed.
    Failed(String),
}

impl SleepOutcome {
    /// Captures a backend failure at the boundary: the cause's message is
    /// taken once, here, and owned from then on, so that everything said of
    /// the outcome afterwards speaks of the owned value.
    pub fn from_backend_failure(e: &tokio_walltime::Error) -> (r: SleepOutcome)
        ensures
            r is Failed,
    {
        SleepOutcome::Failed(walltime_error_string(e))
    }
}

/// What `schedule_wait` returns: the exact distance from `now` to `target`,
/// or `PastEvent` when the target lies strictly in the past.
pub open spec fn schedule_spec(target: i64, now: i64) -> Result<u64, RuntimeErrorKind> {
    if now > target {
        Err(RuntimeErrorKind::PastEvent)
    } else {
        Ok((target - now) as u64)
    }
}

/// Computes the duration to sleep until `target`. No sleep is performed here:
/// on `PastEvent` the wait is refused before any backend is involved.
pub fn schedule_wait(target: i64, now: i64) -> (r: Result<u64, RuntimeErrorKind>)
    ensures
        r == schedule_spec(target, now),
        now > target ==> r == Err::<u64, RuntimeErrorKind>(RuntimeErrorKind::PastEvent),
        now <= target ==> (r matches Ok(d) && d == target - now),
{
    if target < now {
        Err(RuntimeErrorKind::PastEvent)
    } else {
        let wide: i128 = (target as i128) - (now as i128);
        Ok(wide as u64)
    }
}

/// What `verify` returns: success when the measured drift of the wake instant
/// from the target is within the tolerance, else the exact signed drift.
pub open spec fn verify_spec(target: i64, woke_at: i64, tolerance: u64) -> Result<
    (),
    RuntimeErrorKind,
> {
    if abs(woke_at - target) <= tolerance {
        Ok(())
    } else {
        Err(RuntimeErrorKind::EventMissed((woke_at - target) as i64))
    }
}

/// Checks, after waking, that the wait landed on target. The drift is an
/// actual re-measurement (`woke_at` against `target`), signed, so early and
/// late wakes stay distinguishable. The bound on `woke_at - target` is a
/// machine limit: the drift must be representable in the reported payload.
pub fn verify(target: i64, woke_at: i64, tolerance: u64) -> (r: Result<(), RuntimeErrorKind>)
    requires
        i64::MIN <= woke_at - target <= i64::MAX,
    ensures
        r == verify_spec(target, woke_at, tolerance),
        abs(woke_at - target) <= tolerance ==> r is Ok,
        abs(woke_at - target) > tolerance ==> (r matches Err(RuntimeErrorKind::EventMissed(by))
            && by == woke_at - target),
{
    let drift: i128 = (woke_at as i128) - (target as i128);
    let within: bool = if drift >= 0 {
        drift <= tolerance as i128
    } else {
        -drift <= tolerance as i128
    };
    if within {
        Ok(())
    } else {
        Err(RuntimeErrorKind::EventMissed(drift as i64))
    }
}

/// What `conclude_wait` returns: a backend failure is wrapped and terminal;
/// a normal wake is classified by `verify_spec`.
pub open spec fn conclude_spec(target: i64, outcome: SleepOutcome, tolerance: u64) -> Result<
    (),
    HeliocronError,
> {
    match outcome {
        SleepOutcome::Failed(cause) => Err(
            HeliocronError::Runtime(RuntimeErrorKind::SleepError(cause)),
        ),
        SleepOutcome::Woke(w) => match verify_spec(target, w, tolerance) {
            Ok(u) => Ok(u),
            Err(k) => Err(HeliocronError::Runtime(k)),
        },
    }
}

/// Classifies the backend's outcome once the sleep has ended. A `Failed`
/// outcome short-circuits: it is returned as `SleepError` at once, and no
/// drift is measured or reported for it.
pub fn conclude_wait(target: i64, outcome: SleepOutcome, tolerance: u64) -> (r: Result<
    (),
    HeliocronError,
>)
    requires
        outcome matches SleepOutcome::Woke(w) ==> i64::MIN <= w - target <= i64::MAX,
    ensures
        r == conclude_spec(target, outcome, tolerance),
{
    match outcome {
        SleepOutcome::Failed(cause) => Err(
            HeliocronError::Runtime(RuntimeErrorKind::SleepError(cause)),
        ),
        SleepOutcome::Woke(w) => match verify(target, w, tolerance) {
            Ok(u) => Ok(u),
            Err(k) => Err(HeliocronError::Runtime(k)),
        },
    }
}

/// Turns the resolver's answer into a target instant: a resolver that reports
/// no occurrence yields `NonOccurringEvent`, and nothing further is scheduled.
pub fn resolve_target(resolved: Option<i64>) -> (r: Result<i64, RuntimeErrorKind>)
    ensures
        resolved matches Some(t) ==> r == Ok::<i64, RuntimeErrorKind>(t),
        resolved is None ==> r == Err::<i64, RuntimeErrorKind>(RuntimeErrorKind::NonOccurringEvent),
{
    match resolved {
        Some(t) => Ok(t),
        None => Err(RuntimeErrorKind::NonOccurringEvent),
    }
}

/// What `begin_wait` returns: the duration to sleep, or the runtime failure
/// that stops the wait before any sleep is attempted.
pub open spec fn begin_spec(resolved: Option<i64>, now: i64) -> Result<u64, HeliocronError> {
    match resolved {
        None => Err(HeliocronError::Runtime(RuntimeErrorKind::NonOccurringEvent)),
        Some(t) => match schedule_spec(t, now) {
            Ok(d) => Ok(d),
            Err(k) => Err(HeliocronError::Runtime(k)),
        },
    }
}

/// The whole phase before the sleep: consumes the resolver's answer and
/// schedules the wait. On any error here no sleep may be attempted; on
/// `Ok(d)` the caller sleeps for exactly `d` seconds and then hands the
/// outcome to `conclude_wait`.
pub fn begin_wait(resolved: Option<i64>, now: i64) -> (r: Result<u64, HeliocronError>)
    ensures
        r == begin_spec(resolved, now),
{
    match resolve_target(resolved) {
        Err(k) => Err(HeliocronError::Runtime(k)),
        Ok(target) => match schedule_wait(target, now) {
            Ok(d) => Ok(d),
            Err(k) => Err(HeliocronError::Runtime(k)),
        },
    }
}

/// Law: a target strictly before "now" is refused outright with `PastEvent`;
/// no duration is ever handed out for it, so the backend is never reached.
pub proof fn lemma_past_event_refused(target: i64, now: i64)
    requires
        now > target,
    ensures
        schedule_spec(target, now) == Err::<u64, RuntimeErrorKind>(RuntimeErrorKind::PastEvent),
        begin_spec(Some(target), now) == Err::<u64, HeliocronError>(
            HeliocronError::Runtime(RuntimeErrorKind::PastEvent),
        ),
{
}

/// Law: for a target not in the past, the scheduled duration is exactly
/// `target - now`, with no off-by-one.
pub proof fn lemma_exact_duration(target: i64, now: i64)
    requires
        now <= target,
    ensures
        schedule_spec(target, now) matches Ok(d) && d == target - now,
{
}

/// Law: verification succeeds exactly on drifts within the tolerance, and a
/// miss reports the exact signed drift.
pub proof fn lemma_verify_exact(target: i64, woke_at: i64, tolerance: u64)
    requires
        i64::MIN <= woke_at - target <= i64::MAX,
    ensures
        abs(woke_at - target) <= tolerance <==> verify_spec(target, woke_at, tolerance) is Ok,
        abs(woke_at - target) > tolerance ==> verify_spec(target, woke_at, tolerance) == Err::<
            (),
            RuntimeErrorKind,
        >(RuntimeErrorKind::EventMissed((woke_at - target) as i64)),
{
}

/// Law: a backend failure short-circuits the state machine — the result is
/// always the wrapped `SleepError`, and in particular no `EventMissed` is
/// ever produced after a `SleepError`.
pub proof fn lemma_sleep_error_short_circuits(target: i64, cause: String, tolerance: u64)
    ensures
        conclude_spec(target, SleepOutcome::Failed(cause), tolerance) == Err::<(), HeliocronError>(
            HeliocronError::Runtime(RuntimeErrorKind::SleepError(cause)),
        ),
        !(conclude_spec(target, SleepOutcome::Failed(cause), tolerance) matches Err(
            HeliocronError::Runtime(RuntimeErrorKind::EventMissed(_)),
        )),
{
}

/// Law: the two error tiers are never conflated — the wait/verify machine
/// itself raises only runtime failures; a configuration failure can only
/// originate upstream, before any wait is attempted.
pub proof fn lemma_tiers_not_conflated(
    resolved: Option<i64>,
    now: i64,
    target: i64,
    outcome: SleepOutcome,
    tolerance: u64,
)
    ensures
        begin_spec(resolved, now) matches Err(e) ==> e matches HeliocronError::Runtime(_),
        conclude_spec(target, outcome, tolerance) matches Err(e) ==> e matches HeliocronError::Runtime(_),
{
}

/// Law: a reported miss is always an actual measurement, never an estimate:
/// `EventMissed(d)` arises only from a completed wake, with `d` the wake
/// instant's exact signed distance from the target, and only beyond the
/// tolerance.
pub proof fn lemma_miss_is_measured(target: i64, outcome: SleepOutcome, tolerance: u64)
    ensures
        conclude_spec(target, outcome, tolerance) matches Err(
            HeliocronError::Runtime(RuntimeErrorKind::EventMissed(d)),
        ) ==> (outcome matches SleepOutcome::Woke(w) && d == (w - target) as i64 && abs(
            w - target,
        ) > tolerance),
{
}

/// Law: a target not yet past together with an on-target wake yields overall
/// success — scheduling hands out a duration, and verification accepts.
pub proof fn lemma_on_target_wait_succeeds(target: i64, now: i64, w: i64, tolerance: u64)
    requires
        now <= target,
        abs(w - target) <= tolerance,
    ensures
        begin_spec(Some(target), now) is Ok,
        conclude_spec(target, SleepOutcome::Woke(w), tolerance) is Ok,
{
}

/// Law: a resolver that reports no occurrence stops the run with
/// `NonOccurringEvent` before any duration is scheduled.
pub proof fn lemma_non_occurring_refused(now: i64)
    ensures
        begin_spec(None, now) == Err::<u64, HeliocronError>(
            HeliocronError::Runtime(RuntimeErrorKind::NonOccurringEvent),
        ),
{
}

} // verus!
