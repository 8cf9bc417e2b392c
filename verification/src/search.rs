//! Searching a parent image for a child image.
//!
//! Only the shape of the answer is settled: no matching is carried out, and
//! every search answers that nothing was found.

use vstd::prelude::*;
use crate::filters::Meta;

verus! {

/// What to search for, and where.
#[derive(Debug, Clone)]
pub struct SearchRequest {
    pub parent_image: String,
    pub child_image: String,
    pub meta: Meta,
}

/// Where in the parent image a match lies; the bottom-right corner is
/// inclusive.
#[derive(Debug, Clone, Copy, PartialEq, Eq, Structural)]
pub struct MatchRegion {
    pub top_left_x: u32,
    pub top_left_y: u32,
    pub bottom_right_x: u32,
    pub bottom_right_y: u32,
}

/// A quantity that need not be whole, held exactly as `numerator` over
/// `denominator`.
#[derive(Debug, Clone, Copy, PartialEq, Eq, Structural)]
pub struct Fraction {
    pub numerator: u64,
    pub denominator: u64,
}

impl Fraction {
    /// The fraction has a value.
    pub open spec fn wf(&self) -> bool {
        self.denominator > 0
    }
}

/// What a search found.
#[derive(Debug, Clone)]
pub struct SearchResult {
    /// `"Found"` or `"NotFound"`.
    pub status: String,
    pub total_matches: u32,
    pub matches: Vec<MatchRegion>,
    pub result_image_ref: Option<String>,
    pub precision: Option<Fraction>,
    /// Centre of the best match, as x and y.
    pub center: Option<(Fraction, Fraction)>,
}

/// The answer of a search that found nothing.
pub open spec fn is_not_found(res: SearchResult) -> bool {
    &&& res.status@ == "NotFound"@
    &&& res.total_matches == 0
    &&& res.matches@ == Seq::<MatchRegion>::empty()
    &&& res.result_image_ref is None
    &&& res.precision is None
    &&& res.center is None
}

/// Searches the parent image for the child image. Answers that nothing was
/// found, whatever the request.
pub fn flex_search(req: SearchRequest) -> (res: SearchResult)
    ensures
        is_not_found(res),
{
    SearchResult {
        status: "NotFound".to_owned(),
        total_matches: 0,
        matches: Vec::new(),
        result_image_ref: None,
        precision: None,
        center: None,
    }
}

} // verus!
