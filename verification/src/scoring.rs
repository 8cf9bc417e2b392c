//! Scoring two normalized luminance frames, and their difference frame.
//!
//! The score is the mean absolute difference of the included pixels, turned
//! round so that equal frames score 100 percent: with `sum` the absolute
//! differences added up over the `count` included pixels, the score is
//! `(255 * count - sum)` out of `255 * count`. A frame without included pixels
//! scores 0 percent. The difference frame ignores the mask.

use vstd::prelude::*;
use crate::similarity::{Similarity, zero_score};

verus! {

/// Largest difference that two luminance values can have.
pub const MAX_DIFFERENCE: u64 = 255;

/// Absolute difference of two luminance values.
pub open spec fn abs_difference(a: u8, b: u8) -> int {
    if a >= b {
        a - b
    } else {
        b - a
    }
}

/// Number of included pixels among the first `n`.
pub open spec fn included_count(mask: Seq<bool>, n: int) -> int
    decreases n,
{
    if n <= 0 {
        0
    } else {
        included_count(mask, n - 1) + if mask[n - 1] {
            1int
        } else {
            0int
        }
    }
}

/// Absolute differences of the included pixels among the first `n`, added up.
pub open spec fn masked_difference_sum(a: Seq<u8>, b: Seq<u8>, mask: Seq<bool>, n: int) -> int
    decreases n,
{
    if n <= 0 {
        0
    } else {
        masked_difference_sum(a, b, mask, n - 1) + if mask[n - 1] {
            abs_difference(a[n - 1], b[n - 1])
        } else {
            0int
        }
    }
}

/// The score of frames `a` and `b` over the pixels that `mask` includes.
pub open spec fn score_of(a: Seq<u8>, b: Seq<u8>, mask: Seq<bool>) -> Similarity {
    let count = included_count(mask, mask.len() as int);
    let sum = masked_difference_sum(a, b, mask, mask.len() as int);
    if count == 0 {
        zero_score()
    } else {
        Similarity { matched: (255 * count - sum) as u64, total: (255 * count) as u64 }
    }
}

/// The difference frame of `a` and `b`: pixel by pixel their absolute
/// difference, whatever the mask says.
pub open spec fn difference_frame(a: Seq<u8>, b: Seq<u8>) -> Seq<u8> {
    Seq::new(a.len(), |i: int| abs_difference(a[i], b[i]) as u8)
}

/// The sum of differences lies between nothing and the largest difference at
/// every included pixel, and no more pixels are included than there are.
pub proof fn lemma_difference_sum_bounds(a: Seq<u8>, b: Seq<u8>, mask: Seq<bool>, n: int)
    requires
        0 <= n,
    ensures
        0 <= included_count(mask, n) <= n,
        0 <= masked_difference_sum(a, b, mask, n) <= 255 * included_count(mask, n),
    decreases n,
{
    if n > 0 {
        lemma_difference_sum_bounds(a, b, mask, n - 1);
    }
}

/// Scores frames `a` and `b` over the pixels that `mask` includes.
pub fn score_pixels(a: &[u8], b: &[u8], mask: &[bool]) -> (s: Similarity)
    requires
        a.len() == mask.len(),
        b.len() == mask.len(),
        255 * mask.len() <= u64::MAX,
    ensures
        s == score_of(a@, b@, mask@),
        s.wf(),
{
    let n: usize = mask.len();
    let mut sum: u64 = 0;
    let mut count: u64 = 0;
    let mut i: usize = 0;
    while i < n
        invariant
            n == mask.len(),
            a.len() == n,
            b.len() == n,
            255 * n <= u64::MAX,
            i <= n,
            count == included_count(mask@, i as int),
            sum == masked_difference_sum(a@, b@, mask@, i as int),
        decreases n - i,
    {
        proof {
            lemma_difference_sum_bounds(a@, b@, mask@, i as int);
        }
        if mask[i] {
            let pa: u8 = a[i];
            let pb: u8 = b[i];
            let d: u8 = if pa >= pb { pa - pb } else { pb - pa };
            sum = sum + d as u64;
            count = count + 1;
        }
        i = i + 1;
    }
    proof {
        lemma_difference_sum_bounds(a@, b@, mask@, n as int);
    }
    if count == 0 {
        Similarity::zero()
    } else {
        let total: u64 = MAX_DIFFERENCE * count;
        Similarity { matched: total - sum, total }
    }
}

/// Computes the difference frame of `a` and `b`.
pub fn difference_pixels(a: &[u8], b: &[u8]) -> (d: Vec<u8>)
    requires
        a.len() == b.len(),
    ensures
        d@ == difference_frame(a@, b@),
{
    let n: usize = a.len();
    let mut d: Vec<u8> = Vec::with_capacity(n);
    let mut i: usize = 0;
    while i < n
        invariant
            a.len() == n,
            b.len() == n,
            i <= n,
            d.len() == i,
            forall|j: int| 0 <= j < i ==> d[j] == abs_difference(a[j], b[j]) as u8,
        decreases n - i,
    {
        let pa: u8 = a[i];
        let pb: u8 = b[i];
        d.push(if pa >= pb { pa - pb } else { pb - pa });
        i = i + 1;
    }
    assert(d@ =~= difference_frame(a@, b@));
    d
}

} // verus!
