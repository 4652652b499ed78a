//! Raw pixel captures as the clipboard delivers them.

use vstd::prelude::*;

verus! {

/// Number of bytes each pixel occupies: one byte per RGBA channel.
pub const BYTES_PER_PIXEL: usize = 4;

/// Unvalidated pixel data plus declared dimensions, straight from the
/// clipboard.  Nothing is assumed about `bytes` until the capture is
/// decoded.
pub struct RawCapture {
    pub width: usize,
    pub height: usize,
    pub bytes: Vec<u8>,
}

impl RawCapture {
    /// The byte count a tightly packed RGBA buffer of the declared
    /// dimensions must have.
    pub open spec fn expected_len(self) -> int {
        self.width * self.height * BYTES_PER_PIXEL
    }

    /// The declared dimensions match the buffer.
    pub open spec fn sized_correctly(self) -> bool {
        self.bytes@.len() == self.expected_len()
    }

    /// Both dimensions are non-zero; zero-dimension captures are transient
    /// noise and are discarded by the acquisition loop.
    pub open spec fn has_area(self) -> bool {
        self.width > 0 && self.height > 0
    }
}

impl Clone for RawCapture {
    fn clone(&self) -> (r: Self)
        ensures
            r.width == self.width,
            r.height == self.height,
            r.bytes@ == self.bytes@,
    {
        RawCapture { width: self.width, height: self.height, bytes: clone_bytes(&self.bytes) }
    }
}

fn clone_bytes(v: &Vec<u8>) -> (r: Vec<u8>)
    ensures
        r@ == v@,
{
    let mut r: Vec<u8> = Vec::new();
    let mut i: usize = 0;
    while i < v.len()
        invariant
            i <= v.len(),
            r@ == v@.subrange(0, i as int),
        decreases v.len() - i,
    {
        r.push(v[i]);
        assert(r@ =~= v@.subrange(0, i + 1));
        i = i + 1;
    }
    assert(r@ =~= v@);
    r
}

} // verus!
