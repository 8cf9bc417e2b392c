//! What holds of the comparison for every input, stated and proved over the
//! specification functions that the contracts of the engine use.

use vstd::prelude::*;
use crate::compare::{
    byte_score, compared_similarity, decoded_comparison, effective_noise_filter, fallback_score,
    frames_similarity, inclusion_mask, pixel_outcome, rects_of, verdict, CompareRequest,
    CompareStatus,
};
use crate::filters::Rect;
use crate::mask::{
    column_of, excluded_by_any, mapped_high, mapped_low, pixel_included, rect_covers, row_of,
    source_dim, CANONICAL_LEN,
};
use crate::raster::decoded_luma;
use crate::scoring::{
    abs_difference, difference_frame, included_count, lemma_difference_sum_bounds,
    masked_difference_sum, score_of,
};
use crate::similarity::{full_score, lemma_percent_floor_bounds, zero_score, Similarity};

verus! {

/// Number of included pixels among the first `n` at which `a` and `b` differ
/// by at least `d`.
pub open spec fn differing_count(a: Seq<u8>, b: Seq<u8>, mask: Seq<bool>, d: int, n: int) -> int
    decreases n,
{
    if n <= 0 {
        0
    } else {
        differing_count(a, b, mask, d, n - 1) + if mask[n - 1] && abs_difference(a[n - 1], b[n - 1])
            >= d {
            1int
        } else {
            0int
        }
    }
}

/// The differences of the included pixels add up to nothing exactly if no
/// included pixel differs.
pub proof fn lemma_difference_sum_zero(a: Seq<u8>, b: Seq<u8>, mask: Seq<bool>, n: int)
    requires
        0 <= n <= mask.len(),
        n <= a.len(),
        n <= b.len(),
    ensures
        masked_difference_sum(a, b, mask, n) == 0 <==> (forall|i: int|
            0 <= i < n && mask[i] ==> a[i] == b[i]),
    decreases n,
{
    if n > 0 {
        lemma_difference_sum_zero(a, b, mask, n - 1);
        lemma_difference_sum_bounds(a, b, mask, n - 1);
        if masked_difference_sum(a, b, mask, n) == 0 {
            assert forall|i: int| 0 <= i < n && mask[i] implies a[i] == b[i] by {
                if i < n - 1 {
                }
            }
        }
    }
}

/// Some pixel is included exactly if the count of included pixels is not zero.
pub proof fn lemma_included_count_positive(mask: Seq<bool>, n: int)
    requires
        0 <= n <= mask.len(),
    ensures
        included_count(mask, n) > 0 <==> (exists|i: int| 0 <= i < n && mask[i]),
    decreases n,
{
    if n > 0 {
        lemma_included_count_positive(mask, n - 1);
        lemma_difference_sum_bounds(Seq::<u8>::empty(), Seq::<u8>::empty(), mask, n - 1);
        if included_count(mask, n) > 0 {
            if mask[n - 1] {
                assert(0 <= n - 1 < n && mask[n - 1]);
            } else {
                let i = choose|i: int| 0 <= i < n - 1 && mask[i];
                assert(0 <= i < n && mask[i]);
            }
        }
        if exists|i: int| 0 <= i < n && mask[i] {
            let i = choose|i: int| 0 <= i < n && mask[i];
            if i < n - 1 {
                assert(0 <= i < n - 1 && mask[i]);
            }
        }
    }
}

/// A score over at least one included pixel is 100 percent exactly if no
/// included pixel differs: differences under excluded pixels do not count, and
/// any difference that is included lowers the score below 100 percent.
pub proof fn lemma_full_score_iff_included_equal(a: Seq<u8>, b: Seq<u8>, mask: Seq<bool>)
    requires
        a.len() == mask.len(),
        b.len() == mask.len(),
        included_count(mask, mask.len() as int) > 0,
        255 * mask.len() <= u64::MAX,
    ensures
        score_of(a, b, mask).wf(),
        score_of(a, b, mask).is_full() <==> (forall|i: int|
            0 <= i < mask.len() && mask[i] ==> a[i] == b[i]),
        score_of(a, b, mask).is_full() <==> score_of(a, b, mask).percent_floor() == 100,
{
    let n = mask.len() as int;
    lemma_difference_sum_bounds(a, b, mask, n);
    lemma_difference_sum_zero(a, b, mask, n);
    let s = score_of(a, b, mask);
    lemma_percent_floor_bounds(s);
    if s.percent_floor() == 100 {
        assert(s.is_full()) by (nonlinear_arith)
            requires
                100 * s.total <= 100 * s.matched,
                s.matched <= s.total,
        ;
    }
}

/// Equal frames score 100 percent, whatever the mask, as long as it includes a
/// pixel.
pub proof fn lemma_identical_frames_score_full(a: Seq<u8>, mask: Seq<bool>)
    requires
        a.len() == mask.len(),
        included_count(mask, mask.len() as int) > 0,
        255 * mask.len() <= u64::MAX,
    ensures
        score_of(a, a, mask).is_full(),
        score_of(a, a, mask).percent_floor() == 100,
        difference_frame(a, a) == Seq::new(a.len(), |i: int| 0u8),
{
    lemma_full_score_iff_included_equal(a, a, mask);
    assert(difference_frame(a, a) =~= Seq::new(a.len(), |i: int| 0u8));
}

/// A frame of which every pixel is excluded scores 0 percent.
pub proof fn lemma_nothing_included_scores_zero(a: Seq<u8>, b: Seq<u8>, mask: Seq<bool>)
    requires
        forall|i: int| 0 <= i < mask.len() ==> !mask[i],
    ensures
        score_of(a, b, mask) == zero_score(),
{
    lemma_included_count_positive(mask, mask.len() as int);
    lemma_difference_sum_bounds(a, b, mask, mask.len() as int);
}

/// The differences add up to at least `d` for every included pixel that
/// differs by `d` or more.
pub proof fn lemma_difference_sum_at_least(a: Seq<u8>, b: Seq<u8>, mask: Seq<bool>, d: int, n: int)
    requires
        0 <= n,
        0 <= d,
    ensures
        0 <= differing_count(a, b, mask, d, n) <= included_count(mask, n),
        masked_difference_sum(a, b, mask, n) >= d * differing_count(a, b, mask, d, n),
    decreases n,
{
    if n > 0 {
        lemma_difference_sum_at_least(a, b, mask, d, n - 1);
        lemma_difference_sum_bounds(a, b, mask, n - 1);
        let k = differing_count(a, b, mask, d, n - 1);
        assert(d * (k + 1) == d * k + d) by (nonlinear_arith);
    }
}

/// The score is bounded by the share of pixels that differ: where `k` of the
/// `count` included pixels differ by `d` or more, no more than
/// `255 * count - d * k` parts of `255 * count` match.
pub proof fn lemma_score_bounded_by_differences(a: Seq<u8>, b: Seq<u8>, mask: Seq<bool>, d: int)
    requires
        a.len() == mask.len(),
        b.len() == mask.len(),
        0 <= d,
        included_count(mask, mask.len() as int) > 0,
        255 * mask.len() <= u64::MAX,
    ensures
        score_of(a, b, mask).total == 255 * included_count(mask, mask.len() as int),
        score_of(a, b, mask).matched <= score_of(a, b, mask).total - d * differing_count(
            a,
            b,
            mask,
            d,
            mask.len() as int,
        ),
        d > 0 && differing_count(a, b, mask, d, mask.len() as int) > 0 ==> !score_of(
            a,
            b,
            mask,
        ).is_full(),
{
    let n = mask.len() as int;
    lemma_difference_sum_bounds(a, b, mask, n);
    lemma_difference_sum_at_least(a, b, mask, d, n);
    let k = differing_count(a, b, mask, d, n);
    if d > 0 && k > 0 {
        assert(d * k > 0) by (nonlinear_arith)
            requires
                d > 0,
                k > 0,
        ;
    }
}

/// A minimum similarity strictly above the score gives `Failed`, one strictly
/// below it gives `Passed`, and without a minimum there is no verdict.
pub proof fn lemma_verdict_by_threshold(score: Similarity, min_similarity: i32)
    requires
        score.wf(),
    ensures
        score.is_below(min_similarity as int) ==> verdict(score, Some(min_similarity)) == Some(
            CompareStatus::Failed,
        ),
        score.is_above(min_similarity as int) ==> verdict(score, Some(min_similarity)) == Some(
            CompareStatus::Passed,
        ),
        verdict(score, None) is None,
{
    lemma_percent_floor_bounds(score);
    let p = score.percent_floor();
    let m = min_similarity as int;
    let t = score.total as int;
    let n = 100 * score.matched;
    if score.is_below(m) {
        assert(p < m) by (nonlinear_arith)
            requires
                p * t <= n,
                n < m * t,
                t > 0,
        ;
    }
    if score.is_above(m) {
        assert(p >= m) by (nonlinear_arith)
            requires
                n < (p + 1) * t,
                n > m * t,
                t > 0,
        ;
    }
}

/// The reported noise filter lies in 0..=100 for every request, is 20 where
/// none was requested, and is the requested one where that lies in 0..=100.
pub proof fn lemma_noise_filter_range(requested: Option<i32>)
    ensures
        0 <= effective_noise_filter(requested) <= 100,
        requested is None ==> effective_noise_filter(requested) == 20,
        requested matches Some(v) ==> (0 <= v <= 100 ==> effective_noise_filter(requested) == v),
        requested matches Some(v) ==> (v < 0 ==> effective_noise_filter(requested) == 0),
        requested matches Some(v) ==> (v > 100 ==> effective_noise_filter(requested) == 100),
{
}

/// Where either locator could not be read there is no pixel comparison, and
/// the score is 0 percent.
pub proof fn lemma_unreadable_inputs_score_zero(
    req: CompareRequest,
    baseline: Option<Seq<u8>>,
    input: Option<Seq<u8>>,
)
    requires
        baseline is None || input is None,
    ensures
        pixel_outcome(req, baseline, input) is None,
        compared_similarity(req, baseline, input) == zero_score(),
{
}

/// Two inputs that hold the same bytes score 100 percent in the byte
/// comparison, also where they are empty.
pub proof fn lemma_identical_bytes_score_full(bytes: Seq<u8>)
    ensures
        byte_score(bytes, bytes) == full_score(),
        fallback_score(Some(bytes), Some(bytes)) == full_score(),
{
}

/// Two inputs that hold the same bytes score 100 percent: in the byte
/// comparison always, and in the pixel comparison where both locators have the
/// bytes decoded alike and the exclusion rectangles leave a pixel to score.
pub proof fn lemma_identical_images_score_full(req: CompareRequest, bytes: Seq<u8>)
    requires
        decoded_luma(req.baseline_image@, bytes) == decoded_luma(req.input_image@, bytes),
        decoded_luma(req.baseline_image@, bytes) matches Some(img) ==> exists|i: int|
            0 <= i < CANONICAL_LEN && pixel_included(rects_of(req.excluded_areas), img.0, img.1, i),
    ensures
        compared_similarity(req, Some(bytes), Some(bytes)).wf(),
        compared_similarity(req, Some(bytes), Some(bytes)).is_full(),
        compared_similarity(req, Some(bytes), Some(bytes)).percent_floor() == 100,
{
    match decoded_luma(req.baseline_image@, bytes) {
        Some(img) => {
            let rects = rects_of(req.excluded_areas);
            let mask = inclusion_mask(rects, img.0, img.1);
            let i = choose|i: int|
                0 <= i < CANONICAL_LEN && pixel_included(rects, img.0, img.1, i);
            assert(mask[i]);
            lemma_included_count_positive(mask, mask.len() as int);
            let found = decoded_comparison(img, img, rects);
            let frame = crate::raster::canonical_frame(img.0, img.1, img.2);
            assert(found.0 == score_of(frame, frame, mask));
            lemma_frame_scores(frame, mask);
        },
        None => {
            lemma_percent_floor_bounds(full_score());
        },
    }
}

/// A frame scored against itself: 100 percent where a pixel is included,
/// whatever the length of the frame.
proof fn lemma_frame_scores(frame: Seq<u8>, mask: Seq<bool>)
    requires
        mask.len() == CANONICAL_LEN,
        included_count(mask, mask.len() as int) > 0,
    ensures
        score_of(frame, frame, mask).wf(),
        score_of(frame, frame, mask).is_full(),
        score_of(frame, frame, mask).percent_floor() == 100,
{
    let n = mask.len() as int;
    lemma_difference_sum_bounds(frame, frame, mask, n);
    lemma_self_difference_zero(frame, mask, n);
    lemma_percent_floor_bounds(score_of(frame, frame, mask));
}

/// A frame does not differ from itself.
proof fn lemma_self_difference_zero(frame: Seq<u8>, mask: Seq<bool>, n: int)
    requires
        0 <= n,
    ensures
        masked_difference_sum(frame, frame, mask, n) == 0,
    decreases n,
{
    if n > 0 {
        lemma_self_difference_zero(frame, mask, n - 1);
    }
}

/// Rounding a coordinate down never lands beyond rounding a coordinate that is
/// no smaller up.
pub proof fn lemma_mapped_low_le_high(low: u32, high: u32, dim: u32)
    requires
        low <= high,
    ensures
        0 <= mapped_low(low, dim) <= mapped_high(high, dim) <= 255,
{
    let s = source_dim(dim);
    let a: int = low as int * 256;
    let b: int = high as int * 256 + s - 1;
    vstd::arithmetic::div_mod::lemma_div_is_ordered(a, b, s);
    vstd::arithmetic::div_mod::lemma_div_pos_is_pos(a, s);
}

/// A rectangle whose top-left corner does not lie beyond its bottom-right
/// corner excludes at least one pixel, however small it is and wherever it
/// lies: the pixel that its top-left corner is mapped to.
pub proof fn lemma_ordered_rect_excludes_pixel(r: Rect, width: u32, height: u32)
    requires
        r.is_ordered(),
    ensures
        rect_covers(
            r,
            width,
            height,
            mapped_low(r.top_left_x, width),
            mapped_low(r.top_left_y, height),
        ),
        ({
            let index = mapped_low(r.top_left_y, height) * 256 + mapped_low(r.top_left_x, width);
            0 <= index < CANONICAL_LEN && !pixel_included(seq![r], width, height, index)
        }),
{
    lemma_mapped_low_le_high(r.top_left_x, r.bottom_right_x, width);
    lemma_mapped_low_le_high(r.top_left_y, r.bottom_right_y, height);
    let x = mapped_low(r.top_left_x, width);
    let y = mapped_low(r.top_left_y, height);
    let index = y * 256 + x;
    assert(column_of(index) == x && row_of(index) == y);
    assert(seq![r][0] == r);
}

/// Rectangles combine by union: a pixel is excluded by two lists together
/// exactly if one of them excludes it. Without rectangles no pixel is excluded.
pub proof fn lemma_exclusion_is_union(
    first: Seq<Rect>,
    second: Seq<Rect>,
    width: u32,
    height: u32,
    x: int,
    y: int,
)
    ensures
        excluded_by_any(first + second, width, height, x, y) == (excluded_by_any(
            first,
            width,
            height,
            x,
            y,
        ) || excluded_by_any(second, width, height, x, y)),
        !excluded_by_any(Seq::<Rect>::empty(), width, height, x, y),
{
    let both = first + second;
    if excluded_by_any(both, width, height, x, y) {
        let k = choose|k: int|
            0 <= k < both.len() && rect_covers(#[trigger] both[k], width, height, x, y);
        if k < first.len() {
            assert(first[k] == both[k]);
        } else {
            assert(second[k - first.len()] == both[k]);
        }
    }
    if excluded_by_any(first, width, height, x, y) {
        let k = choose|k: int|
            0 <= k < first.len() && rect_covers(#[trigger] first[k], width, height, x, y);
        assert(both[k] == first[k]);
    }
    if excluded_by_any(second, width, height, x, y) {
        let k = choose|k: int|
            0 <= k < second.len() && rect_covers(#[trigger] second[k], width, height, x, y);
        assert(both[k + first.len()] == second[k]);
    }
}

/// The score of the pixel comparison does not depend on the pixels that the
/// rectangles exclude: two inputs that agree with the baseline everywhere else
/// score alike.
pub proof fn lemma_excluded_pixels_do_not_count(
    a: Seq<u8>,
    b: Seq<u8>,
    c: Seq<u8>,
    rects: Seq<Rect>,
    width: u32,
    height: u32,
)
    requires
        a.len() == CANONICAL_LEN,
        b.len() == CANONICAL_LEN,
        c.len() == CANONICAL_LEN,
        forall|i: int|
            0 <= i < CANONICAL_LEN && pixel_included(rects, width, height, i) ==> b[i] == c[i],
    ensures
        frames_similarity(a, b, rects, width, height) == frames_similarity(
            a,
            c,
            rects,
            width,
            height,
        ),
{
    let mask = inclusion_mask(rects, width, height);
    lemma_masked_sum_agrees(a, b, c, mask, mask.len() as int);
}

/// The sum of differences reads only the included pixels.
proof fn lemma_masked_sum_agrees(a: Seq<u8>, b: Seq<u8>, c: Seq<u8>, mask: Seq<bool>, n: int)
    requires
        0 <= n <= mask.len(),
        forall|i: int| 0 <= i < n && mask[i] ==> b[i] == c[i],
    ensures
        masked_difference_sum(a, b, mask, n) == masked_difference_sum(a, c, mask, n),
    decreases n,
{
    if n > 0 {
        lemma_masked_sum_agrees(a, b, c, mask, n - 1);
    }
}

} // verus!
