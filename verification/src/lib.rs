//! A timing decorator for cooperatively scheduled tasks.
//!
//! A [`Stopwatch`] wraps an inner task. It records a monotonic clock reading
//! at construction and, at the moment the inner task completes, pairs the
//! task's value with the time elapsed since construction. While the inner
//! task is still pending, the stopwatch reports pending and computes nothing.
//!
//! The clock itself is an external collaborator: time is modelled here as a
//! reading of a monotonic clock in whole nanoseconds, and every operation
//! that needs the current time takes that reading as an argument. The caller
//! (a scheduler loop, or a `Future` adapter around this type) attempts to
//! advance the inner task, reads its clock, and hands both to [`Stopwatch::poll_step`].

use vstd::prelude::*;

verus! {

/// The outcome of one scheduling attempt on a task: either the task is still
/// pending and must be scheduled again later, or it has completed with a value.
#[derive(Debug, PartialEq, Eq)]
pub enum PollOutcome<T> {
    Pending,
    Ready(T),
}

/// What one scheduling step of a stopwatch reports, given the stopwatch's
/// start time, the inner task's own report, and the current clock reading:
/// a pending report is forwarded unchanged, and a completed value is paired
/// with the elapsed time `now - start`.
pub open spec fn timed_report<T>(start: u64, report: PollOutcome<T>, now: u64) -> PollOutcome<(T, u64)> {
    match report {
        PollOutcome::Pending => PollOutcome::Pending,
        PollOutcome::Ready(x) => PollOutcome::Ready((x, (now - start) as u64)),
    }
}

/// A stopwatch decorating an inner task: it owns the task together with the
/// monotonic clock reading taken at construction, and reports the task's
/// eventual value paired with the elapsed time, exactly once.
pub struct Stopwatch<F> {
    start_time: u64,
    inner: F,
    done: Ghost<bool>,
}

impl<F> Stopwatch<F> {
    /// The clock reading captured at construction; fixed for the stopwatch's
    /// lifetime.
    pub closed spec fn start(&self) -> u64 {
        self.start_time
    }

    /// The wrapped task.
    pub closed spec fn task(&self) -> F {
        self.inner
    }

    /// Whether the stopwatch has already reported completion. A completed
    /// stopwatch must never be scheduled again.
    pub closed spec fn completed(&self) -> bool {
        self.done@
    }

    /// Wraps `inner` in a new stopwatch. `now` is the caller's monotonic
    /// clock reading at the moment of construction; it is captured here,
    /// exactly once, and never changes afterwards.
    pub fn new(inner: F, now: u64) -> (s: Self)
        ensures
            s.start() == now,
            s.task() == inner,
            !s.completed(),
    {
        Stopwatch { start_time: now, inner, done: Ghost(false) }
    }

    /// The clock reading captured at construction.
    pub fn start_time(&self) -> (t: u64)
        ensures
            t == self.start(),
    {
        self.start_time
    }

    /// Borrows the wrapped task in place, so that a scheduler can attempt to
    /// advance it without moving it out of the stopwatch's storage.
    pub fn task_mut(&mut self) -> (r: &mut F)
        ensures
            *r == old(self).task(),
            final(self).task() == *final(r),
            final(self).start() == old(self).start(),
            final(self).completed() == old(self).completed(),
    {
        &mut self.inner
    }

    /// One scheduling attempt. The caller has just attempted to advance the
    /// wrapped task and passes the task's report in, together with the
    /// current monotonic clock reading. A pending report is forwarded
    /// unchanged, and nothing is computed; a completed value `x` is reported
    /// as `(x, elapsed)` with `elapsed = now - start`, computed exactly once,
    /// here. A stopwatch that has reported completion must not be scheduled
    /// again; the clock being monotonic, `now` cannot lie before `start`.
    pub fn poll_step<T>(&mut self, report: PollOutcome<T>, now: u64) -> (r: PollOutcome<(T, u64)>)
        requires
            !old(self).completed(),
            old(self).start() <= now,
        ensures
            r == timed_report(old(self).start(), report, now),
            final(self).start() == old(self).start(),
            final(self).task() == old(self).task(),
            final(self).completed() == (r is Ready),
    {
        match report {
            PollOutcome::Pending => PollOutcome::Pending,
            PollOutcome::Ready(x) => {
                let elapsed = now - self.start_time;
                self.done = Ghost(true);
                PollOutcome::Ready((x, elapsed))
            },
        }
    }
}

/// How a fallible outcome and a measured duration are merged: success carries
/// the duration into its payload, failure passes through unchanged and the
/// duration is discarded.
pub open spec fn spliced<T, E, D>(outcome: Result<T, E>, duration: D) -> Result<(T, D), E> {
    match outcome {
        Ok(v) => Ok((v, duration)),
        Err(e) => Err(e),
    }
}

/// Merges a fallible task's outcome with the duration measured for it:
/// `Ok(v)` becomes `Ok((v, duration))`, and `Err(e)` stays `Err(e)`, the
/// duration being deliberately discarded on the failure path.
pub fn splice_try<T, E, D>(outcome: Result<T, E>, duration: D) -> (r: Result<(T, D), E>)
    ensures
        r == spliced(outcome, duration),
{
    match outcome {
        Ok(v) => Ok((v, duration)),
        Err(e) => Err(e),
    }
}

/// Timing lower bound law: if the wrapped task completes only at a clock
/// reading at least `d` beyond the stopwatch's start, the reported elapsed
/// time is at least `d`.
pub proof fn lemma_timing_lower_bound<T>(start: u64, x: T, now: u64, d: u64)
    requires
        start + d <= now,
    ensures
        timed_report(start, PollOutcome::Ready(x), now) matches PollOutcome::Ready(p) && p.1 >= d,
{
}

/// Value passthrough law: a task that completes with value `v` is reported
/// as exactly `(v, now - start)`: the value is unchanged and the elapsed
/// time is the full span from construction to completion (never negative,
/// the clock being monotonic).
pub proof fn lemma_value_passthrough<T>(start: u64, v: T, now: u64)
    requires
        start <= now,
    ensures
        timed_report(start, PollOutcome::Ready(v), now) == PollOutcome::Ready((v, (now - start) as u64)),
{
}

/// Abandonment law: while the wrapped task is pending, the stopwatch reports
/// pending and no elapsed time, so a stopwatch dropped before completion
/// never produces a duration.
pub proof fn lemma_no_duration_while_pending<T>(start: u64, now: u64)
    ensures
        timed_report::<T>(start, PollOutcome::<T>::Pending, now) is Pending,
{
}

/// Success passthrough law for the fallible merge: a successful outcome
/// keeps its value unchanged and gains exactly the measured duration.
pub proof fn lemma_try_success_passthrough<T, E, D>(v: T, duration: D)
    ensures
        spliced::<T, E, D>(Ok(v), duration) == Ok::<(T, D), E>((v, duration)),
{
}

/// Error passthrough law for the fallible merge: a failed outcome keeps its
/// error unchanged, and the measured duration does not appear in the result.
pub proof fn lemma_try_error_passthrough<T, E, D>(e: E, duration: D)
    ensures
        spliced::<T, E, D>(Err(e), duration) == Err::<(T, D), E>(e),
{
}

} // verus!
