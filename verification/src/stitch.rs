//! Stitching two equal-sized canonical images by swapping their halves.

use vstd::prelude::*;
use crate::capture::BYTES_PER_PIXEL;
use crate::decode::CanonicalImage;

verus! {

/// Why two images could not be stitched.
#[derive(Debug, PartialEq, Eq, Structural)]
pub enum StitchError {
    /// The two inputs do not have identical dimensions.
    DimensionMismatch { width_a: usize, height_a: usize, width_b: usize, height_b: usize },
    /// A region copy into the composite failed.
    CompositionError,
}

/// The first row index the composite takes from the bottom source: the
/// floor midpoint of the shared height.  For an odd height the bottom
/// region is one row taller than the top region.
pub open spec fn split_row(height: int) -> int {
    height / 2
}

/// Rows of `out` below the split equal the corresponding rows of `top`,
/// and rows at or above the split equal the corresponding rows of
/// `bottom`.
pub open spec fn stitched(out: CanonicalImage, bottom: CanonicalImage, top: CanonicalImage) -> bool {
    &&& out.width == bottom.width
    &&& out.height == bottom.height
    &&& forall|y: int|
        0 <= y < split_row(out.height as int) ==> out.row(y) == top.row(y)
    &&& forall|y: int|
        split_row(out.height as int) <= y < out.height ==> out.row(y) == bottom.row(y)
}

/// The bytes of row `y` of an image with these dimensions lie inside the
/// buffer, and a row below `bound` lies entirely before byte
/// `bound * width * 4`.
proof fn lemma_row_bounds(w: int, h: int, y: int, bound: int)
    requires
        0 <= w,
        0 <= y,
        y < bound <= h,
    ensures
        0 <= y * w * BYTES_PER_PIXEL,
        (y + 1) * w * BYTES_PER_PIXEL <= bound * w * BYTES_PER_PIXEL,
        bound * w * BYTES_PER_PIXEL <= h * w * BYTES_PER_PIXEL,
        h * w * BYTES_PER_PIXEL == w * h * BYTES_PER_PIXEL,
{
    assert(0 <= y * w * BYTES_PER_PIXEL && (y + 1) * w * BYTES_PER_PIXEL <= bound * w
        * BYTES_PER_PIXEL && bound * w * BYTES_PER_PIXEL <= h * w * BYTES_PER_PIXEL && h * w
        * BYTES_PER_PIXEL == w * h * BYTES_PER_PIXEL) by (nonlinear_arith)
        requires
            0 <= w,
            0 <= y,
            y < bound <= h,
    ;
}

/// Row `y` of `out` equals row `y` of `src` whenever the two images share
/// dimensions and their buffers agree on every byte of that row.
proof fn lemma_row_from_bytes(out: CanonicalImage, src: CanonicalImage, y: int)
    requires
        out.wf(),
        src.wf(),
        out.width == src.width,
        out.height == src.height,
        0 <= y < out.height,
        forall|j: int|
            y * out.width * BYTES_PER_PIXEL <= j < (y + 1) * out.width * BYTES_PER_PIXEL
                ==> out.bytes@[j] == src.bytes@[j],
    ensures
        out.row(y) == src.row(y),
{
    let w: int = out.width as int;
    let h: int = out.height as int;
    let lo: int = y * w * BYTES_PER_PIXEL;
    let hi: int = (y + 1) * w * BYTES_PER_PIXEL;
    assert(0 <= lo && lo <= hi && hi <= h * w * BYTES_PER_PIXEL && h * w * BYTES_PER_PIXEL == w * h
        * BYTES_PER_PIXEL) by (nonlinear_arith)
        requires
            0 <= w,
            0 <= y,
            y < h,
            lo == y * w * BYTES_PER_PIXEL,
            hi == (y + 1) * w * BYTES_PER_PIXEL,
    ;
    assert(out.row(y) =~= src.row(y));
}

/// Combines two canonical images of equal dimensions into one composite:
/// the composite's rows `[0, height / 2)` come from `top`, its rows
/// `[height / 2, height)` from `bottom`, each copied at column offset 0.
///
/// Succeeds exactly when the dimensions agree; on a mismatch it reports
/// both pairs of dimensions and produces no image.
pub fn stitch(bottom: &CanonicalImage, top: &CanonicalImage) -> (r: Result<
    CanonicalImage,
    StitchError,
>)
    requires
        bottom.wf(),
        top.wf(),
    ensures
        match r {
            Ok(out) => {
                &&& bottom.width == top.width
                &&& bottom.height == top.height
                &&& out.wf()
                &&& stitched(out, *bottom, *top)
            },
            Err(e) => {
                &&& (bottom.width != top.width || bottom.height != top.height)
                &&& e == (StitchError::DimensionMismatch {
                    width_a: bottom.width,
                    height_a: bottom.height,
                    width_b: top.width,
                    height_b: top.height,
                })
            },
        },
{
    if bottom.width != top.width || bottom.height != top.height {
        return Err(
            StitchError::DimensionMismatch {
                width_a: bottom.width,
                height_a: bottom.height,
                width_b: top.width,
                height_b: top.height,
            },
        );
    }

    let ghost w: int = bottom.width as int;
    let ghost h: int = bottom.height as int;
    let mid: usize = bottom.height / 2;
    let total: usize = bottom.bytes.len();
    proof {
        assert(mid as int * w * BYTES_PER_PIXEL <= h * w * BYTES_PER_PIXEL && h * w
            * BYTES_PER_PIXEL == w * h * BYTES_PER_PIXEL && 0 <= mid as int * w <= mid as int * w
            * BYTES_PER_PIXEL) by (nonlinear_arith)
            requires
                0 <= w,
                0 <= mid as int <= h,
        ;
    }
    let mid_bytes: usize = mid * bottom.width * BYTES_PER_PIXEL;

    let mut out_bytes: Vec<u8> = Vec::new();
    let mut i: usize = 0;
    while i < total
        invariant
            bottom.wf(),
            top.wf(),
            bottom.width == top.width,
            bottom.height == top.height,
            w == bottom.width as int,
            h == bottom.height as int,
            mid as int == split_row(h),
            mid_bytes == mid * w * BYTES_PER_PIXEL,
            mid_bytes <= total,
            total == bottom.bytes@.len(),
            i <= total,
            out_bytes@.len() == i,
            forall|j: int|
                0 <= j < i ==> out_bytes@[j] == (if j < mid_bytes {
                    top.bytes@[j]
                } else {
                    bottom.bytes@[j]
                }),
        decreases total - i,
    {
        let byte: u8 = if i < mid_bytes {
            top.bytes[i]
        } else {
            bottom.bytes[i]
        };
        out_bytes.push(byte);
        i = i + 1;
    }

    let out = CanonicalImage { width: bottom.width, height: bottom.height, bytes: out_bytes };
    proof {
        assert forall|y: int| 0 <= y < split_row(h) implies out.row(y) == top.row(y) by {
            lemma_row_bounds(w, h, y, mid as int);
            lemma_row_from_bytes(out, *top, y);
        }
        assert forall|y: int| split_row(h) <= y < h implies out.row(y) == bottom.row(y) by {
            lemma_row_bounds(w, h, y, h);
            assert(y * w * BYTES_PER_PIXEL >= mid * w * BYTES_PER_PIXEL) by (nonlinear_arith)
                requires
                    0 <= w,
                    mid as int <= y,
            ;
            lemma_row_from_bytes(out, *bottom, y);
        }
    }
    Ok(out)
}

} // verus!
