//! A stand-in for the engine that answers every request alike, for callers
//! that test how they handle an answer rather than the comparison itself.

use vstd::prelude::*;
use crate::compare::{rects_of, CompareRequest, CompareResult, CompareStatus};
use crate::filters::Rect;
use crate::similarity::Similarity;

verus! {

/// The score that the stand-in reports: 42 percent.
pub open spec fn mock_score() -> Similarity {
    Similarity { matched: 42, total: 100 }
}

/// The noise filter that the stand-in reports: the requested one as it is, or
/// 20.
pub open spec fn mock_noise_filter(requested: Option<i32>) -> int {
    match requested {
        Some(v) => v as int,
        None => 20,
    }
}

/// `res` is the stand-in's answer to `req`.
pub open spec fn is_mock_result(res: CompareResult, req: CompareRequest) -> bool {
    &&& res.obtained_similarity == mock_score()
    &&& res.status == (if req.min_similarity is Some {
        Some(CompareStatus::Failed)
    } else {
        None
    })
    &&& res.result_image_ref is None
    &&& res.noise_filter == mock_noise_filter(req.noise_filter)
    &&& res.excluded_areas@ == rects_of(req.excluded_areas)
}

/// Scores two inputs without looking at them: 42 percent.
pub fn compare(baseline: &str, input: &str, min_similarity: i32) -> (score: Similarity)
    ensures
        score == mock_score(),
        score.wf(),
        score.percent_floor() == 42,
{
    Similarity { matched: 42, total: 100 }
}

/// Answers a request without comparing anything: 42 percent, `Failed` where
/// the request carries a minimum similarity, no difference frame, the noise
/// filter and the exclusion rectangles as requested.
pub fn mock_compare_images(req: CompareRequest) -> (res: CompareResult)
    ensures
        is_mock_result(res, req),
{
    let score: Similarity = compare(req.baseline_image.as_str(), req.input_image.as_str(), 0);
    let status: Option<CompareStatus> = match req.min_similarity {
        Some(_) => Some(CompareStatus::Failed),
        None => None,
    };
    let noise_filter: i32 = match req.noise_filter {
        Some(v) => v,
        None => 20,
    };
    let excluded_areas: Vec<Rect> = match req.excluded_areas {
        Some(rects) => rects,
        None => Vec::new(),
    };
    CompareResult {
        obtained_similarity: score,
        status,
        result_image_ref: None,
        noise_filter,
        excluded_areas,
    }
}

} // verus!
