//! Comparing two images.
//!
//! The caller reads the two locators and hands over what it read. Where both
//! decode as images, they are normalized and scored pixel by pixel, and the
//! difference frame is handed back to be stored. Where either does not, the
//! raw bytes are compared position by position instead. A request may carry a
//! minimum similarity, against which the score is then judged.

use vstd::prelude::*;
use crate::filters::{Meta, Rect};
use crate::mask::{exclusion_mask, is_inclusion_mask, pixel_included, CANONICAL_LEN};
use crate::raster::{canonical_frame, decode_luma, decoded_luma, normalize, GrayImage};
use crate::scoring::{difference_frame, difference_pixels, score_of, score_pixels};
use crate::similarity::{full_score, zero_score, Similarity};

verus! {

/// What to compare, and how.
#[derive(Debug, Clone)]
pub struct CompareRequest {
    /// Locator of the baseline image; its extension names the format.
    pub baseline_image: String,
    /// Locator of the image under test; its extension names the format.
    pub input_image: String,
    /// Percentage that the score has to reach for the verdict `Passed`.
    pub min_similarity: Option<i32>,
    /// Accepted and reported back, limited to 0..=100; the score ignores it.
    pub noise_filter: Option<i32>,
    /// Rectangles of the baseline image that do not count toward the score.
    pub excluded_areas: Option<Vec<Rect>>,
    pub meta: Meta,
}

/// The verdict on a score that was held against a minimum similarity.
#[derive(Debug, Clone, Copy, PartialEq, Eq, Structural)]
pub enum CompareStatus {
    Passed,
    Failed,
}

/// What a comparison found.
#[derive(Debug, Clone)]
pub struct CompareResult {
    pub obtained_similarity: Similarity,
    /// Present exactly if the request carried a minimum similarity.
    pub status: Option<CompareStatus>,
    /// Where the difference frame is to be found; present exactly if both
    /// inputs decoded as images.
    pub result_image_ref: Option<String>,
    /// The noise filter of the request, limited to 0..=100; 20 without one.
    pub noise_filter: i32,
    /// The exclusion rectangles of the request; empty without any.
    pub excluded_areas: Vec<Rect>,
}

/// The score and the difference frame of two images that decoded.
#[derive(Debug, Clone)]
pub struct PixelComparison {
    pub similarity: Similarity,
    /// Absolute luminance difference of every canonical pixel, row by row.
    pub difference: Vec<u8>,
}

/// Which of the two inputs did not decode as an image.
#[derive(Debug, Clone, Copy, PartialEq, Eq, Structural)]
pub enum DecodeError {
    Baseline,
    Input,
}

/// A comparison's result, and the difference frame for the caller to store
/// under `result.result_image_ref`.
#[derive(Debug, Clone)]
pub struct Comparison {
    pub result: CompareResult,
    pub difference: Option<Vec<u8>>,
}

/// Noise filter reported for a request that names none.
pub const DEFAULT_NOISE_FILTER: i32 = 20;

/// The noise filter that a result reports: the requested one limited to
/// 0..=100, or 20.
pub open spec fn effective_noise_filter(requested: Option<i32>) -> int {
    match requested {
        None => 20,
        Some(v) => if v < 0 {
            0
        } else if v > 100 {
            100
        } else {
            v as int
        },
    }
}

/// The verdict on `score`: absent without a minimum; else `Passed` exactly if
/// the percentage, its fraction cut off, reaches the minimum.
pub open spec fn verdict(score: Similarity, min_similarity: Option<i32>) -> Option<CompareStatus> {
    match min_similarity {
        None => None,
        Some(min) => Some(
            if score.percent_floor() >= min {
                CompareStatus::Passed
            } else {
                CompareStatus::Failed
            },
        ),
    }
}

/// The rectangles that a request excludes.
pub open spec fn rects_of(excluded: Option<Vec<Rect>>) -> Seq<Rect> {
    match excluded {
        Some(rects) => rects@,
        None => Seq::empty(),
    }
}

/// The inclusion mask of `rects` for an original image of `width` by `height`
/// pixels.
pub open spec fn inclusion_mask(rects: Seq<Rect>, width: u32, height: u32) -> Seq<bool> {
    Seq::new(CANONICAL_LEN as nat, |i: int| pixel_included(rects, width, height, i))
}

/// The score of the canonical frames `a` and `b`, leaving out `rects` of a
/// baseline of `width` by `height` pixels.
pub open spec fn frames_similarity(a: Seq<u8>, b: Seq<u8>, rects: Seq<Rect>, width: u32, height: u32) -> Similarity {
    score_of(a, b, inclusion_mask(rects, width, height))
}

/// Number of positions among the first `n` at which `a` and `b` hold the same
/// byte.
pub open spec fn matching_positions(a: Seq<u8>, b: Seq<u8>, n: int) -> int
    decreases n,
{
    if n <= 0 {
        0
    } else {
        matching_positions(a, b, n - 1) + if a[n - 1] == b[n - 1] {
            1int
        } else {
            0int
        }
    }
}

/// Length of the part that `a` and `b` both have.
pub open spec fn common_len(a: Seq<u8>, b: Seq<u8>) -> int {
    if a.len() <= b.len() {
        a.len() as int
    } else {
        b.len() as int
    }
}

/// The score of two byte sequences: 100 percent if they are the same; else the
/// share of matching positions in the part that both have, and 0 percent where
/// that part is empty.
pub open spec fn byte_score(a: Seq<u8>, b: Seq<u8>) -> Similarity {
    if a == b {
        full_score()
    } else if common_len(a, b) == 0 {
        zero_score()
    } else {
        Similarity {
            matched: matching_positions(a, b, common_len(a, b)) as u64,
            total: common_len(a, b) as u64,
        }
    }
}

/// What was read from a locator, if it could be read.
pub open spec fn bytes_of(read: Option<Vec<u8>>) -> Option<Seq<u8>> {
    match read {
        Some(bytes) => Some(bytes@),
        None => None,
    }
}

/// The score of the byte comparison: 0 percent where either input could not
/// be read.
pub open spec fn fallback_score(baseline: Option<Seq<u8>>, input: Option<Seq<u8>>) -> Similarity {
    match (baseline, input) {
        (Some(a), Some(b)) => byte_score(a, b),
        _ => zero_score(),
    }
}

/// Score and difference frame of two decoded images.
pub open spec fn decoded_comparison(
    baseline: (u32, u32, Seq<u8>),
    input: (u32, u32, Seq<u8>),
    rects: Seq<Rect>,
) -> (Similarity, Seq<u8>) {
    let a = canonical_frame(baseline.0, baseline.1, baseline.2);
    let b = canonical_frame(input.0, input.1, input.2);
    (frames_similarity(a, b, rects, baseline.0, baseline.1), difference_frame(a, b))
}

/// Score and difference frame of the pixel comparison, where both inputs were
/// read and decode as images; nothing otherwise.
pub open spec fn pixel_outcome(
    req: CompareRequest,
    baseline: Option<Seq<u8>>,
    input: Option<Seq<u8>>,
) -> Option<(Similarity, Seq<u8>)> {
    match (baseline, input) {
        (Some(a), Some(b)) => match (
            decoded_luma(req.baseline_image@, a),
            decoded_luma(req.input_image@, b),
        ) {
            (Some(da), Some(db)) => Some(decoded_comparison(da, db, rects_of(req.excluded_areas))),
            _ => None,
        },
        _ => None,
    }
}

/// The score that a comparison reports: that of the pixel comparison where
/// there is one, else that of the byte comparison.
pub open spec fn compared_similarity(
    req: CompareRequest,
    baseline: Option<Seq<u8>>,
    input: Option<Seq<u8>>,
) -> Similarity {
    match pixel_outcome(req, baseline, input) {
        Some(found) => found.0,
        None => fallback_score(baseline, input),
    }
}

/// `out` is the comparison that `req` asks for, given what was read from its
/// two locators and where the difference frame is to be stored.
pub open spec fn is_comparison_of(
    out: Comparison,
    req: CompareRequest,
    baseline: Option<Vec<u8>>,
    input: Option<Vec<u8>>,
    artifact_ref: String,
) -> bool {
    &&& out.result.obtained_similarity == compared_similarity(
        req,
        bytes_of(baseline),
        bytes_of(input),
    )
    &&& out.result.status == verdict(out.result.obtained_similarity, req.min_similarity)
    &&& out.result.noise_filter == effective_noise_filter(req.noise_filter)
    &&& out.result.excluded_areas@ == rects_of(req.excluded_areas)
    &&& match pixel_outcome(req, bytes_of(baseline), bytes_of(input)) {
        Some(found) => {
            &&& out.result.result_image_ref == Some(artifact_ref)
            &&& out.difference matches Some(frame) && frame@ == found.1
        },
        None => out.result.result_image_ref is None && out.difference is None,
    }
}

/// Limits the requested noise filter to 0..=100; 20 where none is requested.
pub fn clamp_noise_filter(requested: Option<i32>) -> (noise: i32)
    ensures
        noise == effective_noise_filter(requested),
        0 <= noise <= 100,
{
    match requested {
        None => DEFAULT_NOISE_FILTER,
        Some(v) => if v < 0 {
            0
        } else if v > 100 {
            100
        } else {
            v
        },
    }
}

/// Judges `score` against the minimum similarity of a request, if it has one.
pub fn evaluate_threshold(score: Similarity, min_similarity: Option<i32>) -> (status: Option<CompareStatus>)
    requires
        score.wf(),
    ensures
        status == verdict(score, min_similarity),
{
    match min_similarity {
        None => None,
        Some(min) => {
            if score.truncated_percent() >= min {
                Some(CompareStatus::Passed)
            } else {
                Some(CompareStatus::Failed)
            }
        },
    }
}

/// No more positions match than there are, and all of them match exactly if
/// the two sequences agree on the first `n` positions.
pub proof fn lemma_matching_positions(a: Seq<u8>, b: Seq<u8>, n: int)
    requires
        0 <= n <= a.len(),
        n <= b.len(),
    ensures
        0 <= matching_positions(a, b, n) <= n,
        matching_positions(a, b, n) == n <==> (forall|i: int| 0 <= i < n ==> a[i] == b[i]),
    decreases n,
{
    if n > 0 {
        lemma_matching_positions(a, b, n - 1);
        if matching_positions(a, b, n) == n {
            assert forall|i: int| 0 <= i < n implies a[i] == b[i] by {
                if i < n - 1 {
                }
            }
        }
    }
}

/// Compares what was read from two locators byte by byte.
pub fn byte_similarity(baseline: &Option<Vec<u8>>, input: &Option<Vec<u8>>) -> (score: Similarity)
    ensures
        score == fallback_score(bytes_of(*baseline), bytes_of(*input)),
        score.wf(),
{
    match (baseline, input) {
        (Some(a), Some(b)) => {
            let n: usize = if a.len() <= b.len() { a.len() } else { b.len() };
            let mut same: usize = 0;
            let mut i: usize = 0;
            while i < n
                invariant
                    n == common_len(a@, b@),
                    i <= n,
                    same == matching_positions(a@, b@, i as int),
                    same <= i,
                decreases n - i,
            {
                if a[i] == b[i] {
                    same = same + 1;
                }
                i = i + 1;
            }
            proof {
                lemma_matching_positions(a@, b@, n as int);
                if a.len() == b.len() && same == n {
                    assert(a@ =~= b@);
                }
            }
            if a.len() == b.len() && same == n {
                Similarity::full()
            } else if n == 0 {
                Similarity::zero()
            } else {
                Similarity { matched: same as u64, total: n as u64 }
            }
        },
        _ => Similarity::zero(),
    }
}

/// Scores two canonical frames, leaving out the rectangles excluded from a
/// baseline of `width` by `height` pixels, and computes their difference frame.
pub fn compare_frames(a: &[u8], b: &[u8], excluded: &Option<Vec<Rect>>, width: u32, height: u32) -> (out:
    PixelComparison)
    requires
        a.len() == CANONICAL_LEN,
        b.len() == CANONICAL_LEN,
    ensures
        out.similarity == frames_similarity(a@, b@, rects_of(*excluded), width, height),
        out.similarity.wf(),
        out.difference@ == difference_frame(a@, b@),
{
    let mask: Vec<bool> = match excluded {
        Some(rects) => exclusion_mask(rects, width, height),
        None => {
            let all: Vec<bool> = vec![true; CANONICAL_LEN];
            assert(is_inclusion_mask(all@, Seq::<Rect>::empty(), width, height));
            all
        },
    };
    assert(mask@ =~= inclusion_mask(rects_of(*excluded), width, height));
    let similarity: Similarity = score_pixels(a, b, mask.as_slice());
    let difference: Vec<u8> = difference_pixels(a, b);
    PixelComparison { similarity, difference }
}

/// Normalizes two decoded images and compares their canonical frames. The
/// exclusion rectangles are read in the coordinates of the baseline.
pub fn compare_decoded(baseline: &GrayImage, input: &GrayImage, excluded: &Option<Vec<Rect>>) -> (out:
    PixelComparison)
    requires
        baseline.wf(),
        input.wf(),
    ensures
        (out.similarity, out.difference@) == decoded_comparison(
            (baseline.width, baseline.height, baseline.pixels@),
            (input.width, input.height, input.pixels@),
            rects_of(*excluded),
        ),
        out.similarity.wf(),
        out.difference.len() == CANONICAL_LEN,
{
    let a: Vec<u8> = normalize(baseline);
    let b: Vec<u8> = normalize(input);
    compare_frames(a.as_slice(), b.as_slice(), excluded, baseline.width, baseline.height)
}

/// Compares two images pixel by pixel. Fails where either input does not
/// decode as an image of the format that its locator names; the baseline is
/// tried first.
pub fn pixel_similarity(req: &CompareRequest, baseline: &[u8], input: &[u8]) -> (res: Result<
    PixelComparison,
    DecodeError,
>)
    ensures
        match res {
            Ok(out) => pixel_outcome(*req, Some(baseline@), Some(input@)) == Some(
                (out.similarity, out.difference@),
            ) && out.similarity.wf() && out.difference.len() == CANONICAL_LEN,
            Err(DecodeError::Baseline) => decoded_luma(req.baseline_image@, baseline@) is None,
            Err(DecodeError::Input) => decoded_luma(req.baseline_image@, baseline@) is Some
                && decoded_luma(req.input_image@, input@) is None,
        },
{
    let img_a: GrayImage = match decode_luma(req.baseline_image.as_str(), baseline) {
        Some(img) => img,
        None => {
            return Err(DecodeError::Baseline);
        },
    };
    let img_b: GrayImage = match decode_luma(req.input_image.as_str(), input) {
        Some(img) => img,
        None => {
            return Err(DecodeError::Input);
        },
    };
    Ok(compare_decoded(&img_a, &img_b, &req.excluded_areas))
}

/// Compares the images of a request. `baseline` and `input` hold what was read
/// from the two locators, or nothing where a locator could not be read;
/// `artifact_ref` is where the caller will store the difference frame.
///
/// Where both inputs decode as images the score is that of the pixel
/// comparison, and the result refers to the difference frame that is handed
/// back. Otherwise the score is that of the byte comparison, and there is no
/// difference frame.
pub fn compare_images(
    req: CompareRequest,
    baseline: &Option<Vec<u8>>,
    input: &Option<Vec<u8>>,
    artifact_ref: String,
) -> (out: Comparison)
    ensures
        is_comparison_of(out, req, *baseline, *input, artifact_ref),
        out.result.obtained_similarity.wf(),
        0 <= out.result.noise_filter <= 100,
        out.difference matches Some(frame) ==> frame.len() == CANONICAL_LEN,
        baseline is None || input is None ==> out.result.result_image_ref is None
            && out.result.obtained_similarity == zero_score(),
{
    let pixels: Option<PixelComparison> = match (baseline, input) {
        (Some(a), Some(b)) => match pixel_similarity(&req, a.as_slice(), b.as_slice()) {
            Ok(found) => Some(found),
            Err(_) => None,
        },
        _ => None,
    };
    let noise: i32 = clamp_noise_filter(req.noise_filter);
    let min_similarity: Option<i32> = req.min_similarity;
    let excluded_areas: Vec<Rect> = match req.excluded_areas {
        Some(rects) => rects,
        None => Vec::new(),
    };
    match pixels {
        Some(found) => {
            let status: Option<CompareStatus> = evaluate_threshold(found.similarity, min_similarity);
            Comparison {
                result: CompareResult {
                    obtained_similarity: found.similarity,
                    status,
                    result_image_ref: Some(artifact_ref),
                    noise_filter: noise,
                    excluded_areas,
                },
                difference: Some(found.difference),
            }
        },
        None => {
            let score: Similarity = byte_similarity(baseline, input);
            let status: Option<CompareStatus> = evaluate_threshold(score, min_similarity);
            Comparison {
                result: CompareResult {
                    obtained_similarity: score,
                    status,
                    result_image_ref: None,
                    noise_filter: noise,
                    excluded_areas,
                },
                difference: None,
            }
        },
    }
}

} // verus!
