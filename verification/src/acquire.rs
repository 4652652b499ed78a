//! The clipboard acquisition protocol: poll until a usable capture appears.
//!
//! The loop itself sleeps between polls and can block indefinitely, so the
//! caller owns the polling; this module owns every decision the loop makes.
//! One poll of the clipboard yields a [`PollEvent`]; [`acquisition_step`]
//! classifies it, and [`run_acquisition`] applies the same classification
//! to a whole sequence of polls at once.

use vstd::prelude::*;
use crate::capture::RawCapture;

verus! {

/// How long the acquisition loop sleeps between clipboard polls.
pub const ACQUIRE_POLL_INTERVAL_MS: u64 = 200;

/// What one poll of the clipboard produced.
pub enum PollEvent {
    /// The clipboard held an image; its dimensions are still unchecked.
    Image(RawCapture),
    /// The clipboard held no image.  Expected and transient.
    NoImage,
    /// The clipboard could not be opened.  An environment failure.
    AccessError,
}

/// What the acquisition loop does with one poll.
pub enum AcquireStep {
    /// A capture with non-zero dimensions: stop polling and hand it on.
    Accept(RawCapture),
    /// Transient: sleep and poll again.
    Retry,
    /// Environment failure: stop polling and propagate the error.
    Fail,
}

/// How a finite sequence of polls ends.
pub enum AcquisitionOutcome {
    /// The first capture with non-zero dimensions, and how many polls were
    /// retried before it appeared.
    Accepted { capture: RawCapture, retries: usize },
    /// An access error was hit before any usable capture.
    Failed,
    /// Every poll was transient; a live loop would still be waiting.
    Exhausted,
}

/// The poll is retried: either no image was present, or the capture has a
/// zero dimension.
pub open spec fn is_transient(e: PollEvent) -> bool {
    match e {
        PollEvent::Image(c) => !c.has_area(),
        PollEvent::NoImage => true,
        PollEvent::AccessError => false,
    }
}

/// Every poll before index `k` is transient.
pub open spec fn all_transient_before(s: Seq<PollEvent>, k: int) -> bool {
    forall|j: int| 0 <= j < k ==> is_transient(s[j])
}

/// Decides what the acquisition loop does with one poll: a capture with
/// non-zero dimensions is accepted as it is, a missing image or a capture
/// with a zero dimension is retried, and an access error ends the loop.
pub fn acquisition_step(event: PollEvent) -> (r: AcquireStep)
    ensures
        match event {
            PollEvent::Image(c) => r == (if c.has_area() {
                AcquireStep::Accept(c)
            } else {
                AcquireStep::Retry
            }),
            PollEvent::NoImage => r == AcquireStep::Retry,
            PollEvent::AccessError => r == AcquireStep::Fail,
        },
{
    match event {
        PollEvent::Image(c) => {
            if c.width > 0 && c.height > 0 {
                AcquireStep::Accept(c)
            } else {
                AcquireStep::Retry
            }
        },
        PollEvent::NoImage => AcquireStep::Retry,
        PollEvent::AccessError => AcquireStep::Fail,
    }
}

/// Runs the acquisition decision over a finite sequence of polls.
///
/// Returns the first capture with non-zero dimensions, together with the
/// exact number of transient polls retried before it; fails if an access
/// error comes first; reports exhaustion if every poll is transient.  A
/// returned capture never has a zero dimension.
pub fn run_acquisition(events: &Vec<PollEvent>) -> (r: AcquisitionOutcome)
    ensures
        match r {
            AcquisitionOutcome::Accepted { capture, retries } => {
                &&& retries < events@.len()
                &&& all_transient_before(events@, retries as int)
                &&& events@[retries as int] matches PollEvent::Image(c) && c.has_area()
                    && capture.width == c.width && capture.height == c.height && capture.bytes@
                    == c.bytes@
                &&& capture.has_area()
            },
            AcquisitionOutcome::Failed => exists|k: int|
                0 <= k < events@.len() && all_transient_before(events@, k) && events@[k]
                    is AccessError,
            AcquisitionOutcome::Exhausted => all_transient_before(events@, events@.len() as int),
        },
{
    let mut i: usize = 0;
    while i < events.len()
        invariant
            i <= events@.len(),
            all_transient_before(events@, i as int),
        decreases events@.len() - i,
    {
        match &events[i] {
            PollEvent::Image(c) => {
                if c.width > 0 && c.height > 0 {
                    let capture = c.clone();
                    return AcquisitionOutcome::Accepted { capture, retries: i };
                }
            },
            PollEvent::NoImage => {},
            PollEvent::AccessError => {
                return AcquisitionOutcome::Failed;
            },
        }
        i = i + 1;
    }
    AcquisitionOutcome::Exhausted
}

} // verus!
