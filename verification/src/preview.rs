//! Bounded waiting for a terminal preview.
//!
//! Rendering a preview may stall, so it runs as an independent worker that
//! reports through a one-shot completion signal.  The caller polls that
//! signal every [`PREVIEW_POLL_INTERVAL_MS`] milliseconds and gives up
//! after [`PREVIEW_TIMEOUT_MS`] milliseconds in total; an overrunning
//! worker is abandoned, never cancelled.  This module owns every decision
//! of that waiting loop; the caller only sleeps, polls the signal and
//! spawns the worker.

use vstd::prelude::*;

verus! {

/// Total wall-clock budget for one preview wait.
pub const PREVIEW_TIMEOUT_MS: u64 = 2000;

/// Pause between two polls of the completion signal.
pub const PREVIEW_POLL_INTERVAL_MS: u64 = 50;

/// What one poll of the completion signal produced.
#[derive(Clone, Copy, Debug, PartialEq, Eq, Structural)]
pub enum PollSignal {
    /// The worker signalled completion; its outcome is informational.
    Received,
    /// No signal yet.
    Empty,
    /// The signal can never arrive any more.
    Disconnected,
}

/// How a preview wait ends.
#[derive(Clone, Copy, Debug, PartialEq, Eq, Structural)]
pub enum PreviewOutcome {
    /// The worker signalled within the deadline; no notice is printed.
    Completed,
    /// The signal was lost; the preview is skipped.
    Abandoned,
    /// The deadline elapsed first; the preview is skipped and the worker
    /// keeps running unobserved.
    TimedOut,
}

/// What the waiting loop does after one poll.
#[derive(Clone, Copy, Debug, PartialEq, Eq, Structural)]
pub enum PreviewStep {
    /// Stop waiting with this outcome.
    Finish(PreviewOutcome),
    /// Sleep one poll interval and poll again.
    Continue,
}

/// The signal the `i`-th poll sees: past the end of a finite record of
/// polls the channel simply stays empty.
pub open spec fn signal_at(s: Seq<PollSignal>, i: int) -> PollSignal {
    if 0 <= i < s.len() {
        s[i]
    } else {
        PollSignal::Empty
    }
}

/// Every poll before index `k` saw no signal.
pub open spec fn quiet_before(s: Seq<PollSignal>, k: int) -> bool {
    forall|j: int| 0 <= j < k ==> signal_at(s, j) is Empty
}

/// The outcome and the elapsed milliseconds of a wait that has already
/// spent `k` polls, over the record `s` of signals.  Poll `k` happens at
/// elapsed time `k * PREVIEW_POLL_INTERVAL_MS`; once that reaches the
/// deadline the wait times out without polling again.
pub open spec fn wait_result(s: Seq<PollSignal>, k: nat) -> (PreviewOutcome, int)
    decreases PREVIEW_TIMEOUT_MS / PREVIEW_POLL_INTERVAL_MS - k,
{
    if k * PREVIEW_POLL_INTERVAL_MS >= PREVIEW_TIMEOUT_MS {
        (PreviewOutcome::TimedOut, k * PREVIEW_POLL_INTERVAL_MS)
    } else {
        match signal_at(s, k as int) {
            PollSignal::Received => (PreviewOutcome::Completed, k * PREVIEW_POLL_INTERVAL_MS),
            PollSignal::Disconnected => (PreviewOutcome::Abandoned, k * PREVIEW_POLL_INTERVAL_MS),
            PollSignal::Empty => wait_result(s, (k + 1) as nat),
        }
    }
}

/// The deadline has been spent; the caller stops polling.
pub fn deadline_expired(elapsed_ms: u64) -> (r: bool)
    ensures
        r == (elapsed_ms >= PREVIEW_TIMEOUT_MS),
{
    elapsed_ms >= PREVIEW_TIMEOUT_MS
}

/// Decides what the waiting loop does with one poll of the completion
/// signal: a received signal finishes the wait as completed, a lost
/// channel finishes it as abandoned, silence means sleeping and polling
/// again.
pub fn preview_step(signal: PollSignal) -> (r: PreviewStep)
    ensures
        signal is Received ==> r == PreviewStep::Finish(PreviewOutcome::Completed),
        signal is Disconnected ==> r == PreviewStep::Finish(PreviewOutcome::Abandoned),
        signal is Empty ==> r == PreviewStep::Continue,
{
    match signal {
        PollSignal::Received => PreviewStep::Finish(PreviewOutcome::Completed),
        PollSignal::Disconnected => PreviewStep::Finish(PreviewOutcome::Abandoned),
        PollSignal::Empty => PreviewStep::Continue,
    }
}

/// Runs the whole waiting loop over a finite record of signal polls.
/// Polls past the end of the record see an empty channel, so an empty
/// record describes a worker that never signals.
pub fn run_preview_wait(signals: &Vec<PollSignal>) -> (r: (PreviewOutcome, u64))
    ensures
        r.0 == wait_result(signals@, 0).0,
        r.1 as int == wait_result(signals@, 0).1,
        r.1 <= PREVIEW_TIMEOUT_MS,
{
    let mut k: u64 = 0;
    while k * PREVIEW_POLL_INTERVAL_MS < PREVIEW_TIMEOUT_MS
        invariant
            k <= PREVIEW_TIMEOUT_MS / PREVIEW_POLL_INTERVAL_MS,
            wait_result(signals@, 0) == wait_result(signals@, k as nat),
        decreases PREVIEW_TIMEOUT_MS / PREVIEW_POLL_INTERVAL_MS - k,
    {
        let signal: PollSignal = if (k as usize) < signals.len() {
            signals[k as usize]
        } else {
            PollSignal::Empty
        };
        match preview_step(signal) {
            PreviewStep::Finish(outcome) => {
                return (outcome, k * PREVIEW_POLL_INTERVAL_MS);
            },
            PreviewStep::Continue => {
                k = k + 1;
            },
        }
    }
    (PreviewOutcome::TimedOut, k * PREVIEW_POLL_INTERVAL_MS)
}

/// A wait that sees only silence between polls `j` and `k` decides
/// nothing in between.
proof fn lemma_wait_skips_quiet(s: Seq<PollSignal>, j: nat, k: nat)
    requires
        j <= k,
        k * PREVIEW_POLL_INTERVAL_MS <= PREVIEW_TIMEOUT_MS,
        forall|t: int| j <= t < k ==> signal_at(s, t) is Empty,
    ensures
        wait_result(s, j) == wait_result(s, k),
    decreases k - j,
{
    if j < k {
        lemma_wait_skips_quiet(s, (j + 1) as nat, k);
    }
}

/// A worker that signals completion within the deadline, after nothing but
/// silence, always ends the wait as completed strictly before the
/// deadline: the timeout notice is never triggered.
pub proof fn lemma_completion_within_deadline(s: Seq<PollSignal>, k: nat)
    requires
        k * PREVIEW_POLL_INTERVAL_MS < PREVIEW_TIMEOUT_MS,
        quiet_before(s, k as int),
        signal_at(s, k as int) is Received,
    ensures
        wait_result(s, 0).0 is Completed,
        wait_result(s, 0).1 == k * PREVIEW_POLL_INTERVAL_MS < PREVIEW_TIMEOUT_MS,
{
    lemma_wait_skips_quiet(s, 0, k);
}

/// A worker that never signals always ends the wait with the timeout
/// notice, exactly when the full deadline has elapsed.
pub proof fn lemma_no_signal_times_out(s: Seq<PollSignal>)
    requires
        forall|j: int| signal_at(s, j) is Empty,
    ensures
        wait_result(s, 0).0 is TimedOut,
        wait_result(s, 0).1 == PREVIEW_TIMEOUT_MS,
{
    lemma_wait_skips_quiet(s, 0, (PREVIEW_TIMEOUT_MS / PREVIEW_POLL_INTERVAL_MS) as nat);
}

} // verus!
