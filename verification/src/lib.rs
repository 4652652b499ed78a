//! Verified core of a clipboard-image stitching pipeline.
//!
//! Two raster images arrive through the operating system clipboard as raw
//! RGBA captures.  This crate validates and decodes them into canonical
//! pixel grids, drives the polling protocol that waits for a usable capture,
//! bounds the time spent waiting on a terminal preview, stitches the two
//! grids by swapping their top and bottom halves, and derives the file name
//! the composite is saved under.  Everything that touches the clipboard,
//! the terminal or the file system lives outside this crate and exchanges
//! plain values with it.

mod acquire;
mod capture;
mod decode;
mod persist;
mod preview;
mod stitch;

pub use acquire::ACQUIRE_POLL_INTERVAL_MS;
pub use acquire::AcquireStep;
pub use acquire::AcquisitionOutcome;
pub use acquire::PollEvent;
pub use acquire::acquisition_step;
pub use acquire::all_transient_before;
pub use acquire::is_transient;
pub use acquire::run_acquisition;
pub use capture::BYTES_PER_PIXEL;
pub use capture::RawCapture;
pub use decode::CanonicalImage;
pub use decode::DecodeError;
pub use decode::decode;
pub use persist::artifact_filename;
pub use persist::decimal_seq;
pub use persist::digit_char;
pub use persist::u64_to_decimal;
pub use preview::PREVIEW_POLL_INTERVAL_MS;
pub use preview::PREVIEW_TIMEOUT_MS;
pub use preview::PollSignal;
pub use preview::PreviewOutcome;
pub use preview::PreviewStep;
pub use preview::deadline_expired;
pub use preview::lemma_completion_within_deadline;
pub use preview::lemma_no_signal_times_out;
pub use preview::preview_step;
pub use preview::quiet_before;
pub use preview::run_preview_wait;
pub use preview::signal_at;
pub use preview::wait_result;
pub use stitch::StitchError;
pub use stitch::split_row;
pub use stitch::stitch;
pub use stitch::stitched;
