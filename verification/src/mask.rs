//! The exclusion mask: which pixels of the canonical frame count toward the
//! score.
//!
//! Exclusion rectangles are given in the coordinates of the original baseline
//! image. Each is mapped onto the canonical frame by the ratio of the canonical
//! side to the original side, rounding the top-left corner down and the
//! bottom-right corner up, so that a mapped rectangle never covers less than the
//! original did. The scale is kept as an exact ratio of integers.

use vstd::prelude::*;
use crate::filters::Rect;

verus! {

/// Side of the canonical frame, in pixels.
pub const CANONICAL_DIM: u32 = 256;

/// Number of pixels in the canonical frame.
pub const CANONICAL_LEN: usize = 65536;

/// The side of the original image that the scale is computed from: an image
/// without extent is treated as one pixel wide.
pub open spec fn source_dim(dim: u32) -> int {
    if dim == 0 {
        1
    } else {
        dim as int
    }
}

/// The last canonical index, for values beyond it.
pub open spec fn limit_to_frame(v: int) -> int {
    if v > 255 {
        255
    } else {
        v
    }
}

/// Where a top-left coordinate lands in the canonical frame:
/// `coord * 256 / dim` rounded down, kept inside the frame.
pub open spec fn mapped_low(coord: u32, dim: u32) -> int {
    limit_to_frame((coord as int * 256) / source_dim(dim))
}

/// Where a bottom-right coordinate lands in the canonical frame:
/// `coord * 256 / dim` rounded up, kept inside the frame.
pub open spec fn mapped_high(coord: u32, dim: u32) -> int {
    limit_to_frame((coord as int * 256 + source_dim(dim) - 1) / source_dim(dim))
}

/// The canonical pixel `(x, y)` lies in the rectangle `r` as mapped from an
/// original image of `width` by `height` pixels.
pub open spec fn rect_covers(r: Rect, width: u32, height: u32, x: int, y: int) -> bool {
    &&& mapped_low(r.top_left_x, width) <= x <= mapped_high(r.bottom_right_x, width)
    &&& mapped_low(r.top_left_y, height) <= y <= mapped_high(r.bottom_right_y, height)
}

/// Some rectangle of `rects` covers the canonical pixel `(x, y)`.
pub open spec fn excluded_by_any(rects: Seq<Rect>, width: u32, height: u32, x: int, y: int) -> bool {
    exists|k: int| 0 <= k < rects.len() && rect_covers(#[trigger] rects[k], width, height, x, y)
}

/// Column of the pixel stored at `index` of a canonical frame.
pub open spec fn column_of(index: int) -> int {
    index % 256
}

/// Row of the pixel stored at `index` of a canonical frame.
pub open spec fn row_of(index: int) -> int {
    index / 256
}

/// The pixel stored at `index` of the canonical frame counts toward the score:
/// no rectangle covers it.
pub open spec fn pixel_included(rects: Seq<Rect>, width: u32, height: u32, index: int) -> bool {
    !excluded_by_any(rects, width, height, column_of(index), row_of(index))
}

/// `mask` is the inclusion mask of `rects` for an original image of `width` by
/// `height` pixels: one flag per canonical pixel, row by row.
pub open spec fn is_inclusion_mask(mask: Seq<bool>, rects: Seq<Rect>, width: u32, height: u32) -> bool {
    &&& mask.len() == CANONICAL_LEN
    &&& forall|i: int|
        0 <= i < CANONICAL_LEN ==> mask[i] == pixel_included(rects, width, height, i)
}

/// Maps a top-left coordinate into the canonical frame.
pub fn map_low(coord: u32, dim: u32) -> (v: u32)
    ensures
        v == mapped_low(coord, dim),
        v < CANONICAL_DIM,
{
    let side: u64 = if dim == 0 { 1 } else { dim as u64 };
    let scaled: u64 = (coord as u64) * 256 / side;
    if scaled > 255 {
        255
    } else {
        scaled as u32
    }
}

/// Maps a bottom-right coordinate into the canonical frame.
pub fn map_high(coord: u32, dim: u32) -> (v: u32)
    ensures
        v == mapped_high(coord, dim),
        v < CANONICAL_DIM,
{
    let side: u64 = if dim == 0 { 1 } else { dim as u64 };
    let scaled: u64 = ((coord as u64) * 256 + side - 1) / side;
    if scaled > 255 {
        255
    } else {
        scaled as u32
    }
}

/// Clears the flags of the pixels in columns `x0..=x1` of rows `y0..=y1` and
/// leaves every other flag as it was. An empty span clears nothing.
pub fn exclude_span(mask: &mut Vec<bool>, x0: u32, x1: u32, y0: u32, y1: u32)
    requires
        old(mask).len() == CANONICAL_LEN,
        x0 < CANONICAL_DIM,
        x1 < CANONICAL_DIM,
        y0 < CANONICAL_DIM,
        y1 < CANONICAL_DIM,
    ensures
        final(mask).len() == CANONICAL_LEN,
        forall|i: int|
            0 <= i < CANONICAL_LEN ==> final(mask)[i] == (old(mask)[i] && !(x0 <= column_of(i) <= x1
                && y0 <= row_of(i) <= y1)),
{
    let mut y: u32 = y0;
    while y <= y1
        invariant
            mask.len() == CANONICAL_LEN,
            old(mask).len() == CANONICAL_LEN,
            x0 < CANONICAL_DIM,
            x1 < CANONICAL_DIM,
            y1 < CANONICAL_DIM,
            y0 <= y <= CANONICAL_DIM,
            y <= y1 + 1 || y == y0,
            forall|i: int|
                0 <= i < CANONICAL_LEN ==> mask[i] == (old(mask)[i] && !(x0 <= column_of(i) <= x1
                    && y0 <= row_of(i) < y)),
        decreases CANONICAL_DIM - y,
    {
        let mut x: u32 = x0;
        while x <= x1
            invariant
                mask.len() == CANONICAL_LEN,
                old(mask).len() == CANONICAL_LEN,
                x1 < CANONICAL_DIM,
                y < CANONICAL_DIM,
                x0 <= x <= CANONICAL_DIM,
                x <= x1 + 1 || x == x0,
                forall|i: int|
                    0 <= i < CANONICAL_LEN ==> mask[i] == (old(mask)[i] && !(x0 <= column_of(i)
                        <= x1 && y0 <= row_of(i) < y) && !(row_of(i) == y && x0 <= column_of(i)
                        < x)),
            decreases CANONICAL_DIM - x,
        {
            let index: usize = (y as usize) * 256 + (x as usize);
            assert(column_of(index as int) == x && row_of(index as int) == y);
            mask.set(index, false);
            x = x + 1;
        }
        y = y + 1;
    }
}

/// Dropping the last of the first `k + 1` rectangles leaves the first `k`:
/// a pixel is excluded by the longer list exactly if the shorter list or the
/// rectangle at `k` excludes it.
proof fn lemma_excluded_by_next(rects: Seq<Rect>, k: int, width: u32, height: u32, x: int, y: int)
    requires
        0 <= k < rects.len(),
    ensures
        excluded_by_any(rects.take(k + 1), width, height, x, y) == (excluded_by_any(
            rects.take(k),
            width,
            height,
            x,
            y,
        ) || rect_covers(rects[k], width, height, x, y)),
{
    let shorter = rects.take(k);
    let longer = rects.take(k + 1);
    if excluded_by_any(longer, width, height, x, y) {
        let j = choose|j: int| 0 <= j < longer.len() && rect_covers(#[trigger] longer[j], width, height, x, y);
        if j < k {
            assert(shorter[j] == longer[j]);
        } else {
            assert(longer[j] == rects[k]);
        }
    }
    if excluded_by_any(shorter, width, height, x, y) {
        let j = choose|j: int| 0 <= j < shorter.len() && rect_covers(#[trigger] shorter[j], width, height, x, y);
        assert(longer[j] == shorter[j]);
    }
    if rect_covers(rects[k], width, height, x, y) {
        assert(longer[k] == rects[k]);
    }
}

/// Builds the inclusion mask of `rects` for an original image of `width` by
/// `height` pixels. Rectangles combine by union; without rectangles every pixel
/// is included.
pub fn exclusion_mask(rects: &Vec<Rect>, width: u32, height: u32) -> (mask: Vec<bool>)
    ensures
        is_inclusion_mask(mask@, rects@, width, height),
{
    let mut mask: Vec<bool> = vec![true; CANONICAL_LEN];
    let mut k: usize = 0;
    while k < rects.len()
        invariant
            mask.len() == CANONICAL_LEN,
            k <= rects.len(),
            forall|i: int|
                0 <= i < CANONICAL_LEN ==> mask[i] == pixel_included(
                    rects@.take(k as int),
                    width,
                    height,
                    i,
                ),
        decreases rects.len() - k,
    {
        let r: Rect = rects[k];
        let x0: u32 = map_low(r.top_left_x, width);
        let y0: u32 = map_low(r.top_left_y, height);
        let x1: u32 = map_high(r.bottom_right_x, width);
        let y1: u32 = map_high(r.bottom_right_y, height);
        exclude_span(&mut mask, x0, x1, y0, y1);
        proof {
            assert forall|i: int| 0 <= i < CANONICAL_LEN implies mask[i] == pixel_included(
                rects@.take(k as int + 1),
                width,
                height,
                i,
            ) by {
                lemma_excluded_by_next(rects@, k as int, width, height, column_of(i), row_of(i));
            }
        }
        k = k + 1;
    }
    proof {
        assert(rects@.take(rects.len() as int) =~= rects@);
    }
    mask
}

} // verus!
