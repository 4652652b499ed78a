//! Validation and decoding of raw captures into canonical images.

use vstd::prelude::*;
use crate::capture::BYTES_PER_PIXEL;
use crate::capture::RawCapture;

verus! {

/// Why a raw capture could not be decoded.
#[derive(Debug, PartialEq, Eq, Structural)]
pub enum DecodeError {
    /// The buffer does not hold exactly `width * height * 4` bytes.
    PixelLengthMismatch { expected: usize, actual: usize },
}

/// A validated, dimensioned RGBA pixel grid.  Row `y` occupies bytes
/// `[y * width * 4, (y + 1) * width * 4)` of `bytes`; there is no row
/// padding or stride.
#[derive(Debug)]
pub struct CanonicalImage {
    pub width: usize,
    pub height: usize,
    pub bytes: Vec<u8>,
}

impl CanonicalImage {
    /// The buffer holds exactly one tightly packed RGBA row per declared
    /// row.  Every canonical image satisfies this.
    pub open spec fn wf(self) -> bool {
        self.bytes@.len() == self.width * self.height * BYTES_PER_PIXEL
    }

    /// The bytes of row `y`: `width * 4` consecutive buffer bytes.
    pub open spec fn row(self, y: int) -> Seq<u8> {
        self.bytes@.subrange(
            y * self.width * BYTES_PER_PIXEL,
            (y + 1) * self.width * BYTES_PER_PIXEL,
        )
    }
}

/// Validates a raw capture and converts it into a canonical image.
///
/// Succeeds exactly when the buffer holds `width * height * 4` bytes; the
/// RGBA bytes map one-to-one onto pixels, so decoding takes ownership of
/// the buffer and performs no conversion.  On a size mismatch it reports
/// the expected and the actual byte count.
pub fn decode(raw: RawCapture) -> (r: Result<CanonicalImage, DecodeError>)
    requires
        raw.expected_len() <= usize::MAX,
    ensures
        match r {
            Ok(img) => {
                &&& raw.sized_correctly()
                &&& img.wf()
                &&& img.width == raw.width
                &&& img.height == raw.height
                &&& img.bytes@ == raw.bytes@
            },
            Err(e) => {
                &&& !raw.sized_correctly()
                &&& e == (DecodeError::PixelLengthMismatch {
                    expected: raw.expected_len() as usize,
                    actual: raw.bytes@.len() as usize,
                })
            },
        },
{
    let expected: usize = raw.width * raw.height * BYTES_PER_PIXEL;
    if raw.bytes.len() != expected {
        return Err(DecodeError::PixelLengthMismatch { expected, actual: raw.bytes.len() });
    }
    Ok(CanonicalImage { width: raw.width, height: raw.height, bytes: raw.bytes })
}

} // verus!
