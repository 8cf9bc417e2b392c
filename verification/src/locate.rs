//! Locating one element relative to another inside a container image.
//!
//! Only the shape of the answer is settled: nothing is located, and every
//! request is answered with "not found".

use vstd::prelude::*;
use crate::filters::Meta;

verus! {

/// Which elements to locate, and in which container.
#[derive(Debug, Clone)]
pub struct LocateRequest {
    pub container_image: String,
    pub main_image: String,
    pub relative_image: String,
    pub meta: Meta,
}

/// Where the relative element lies, seen from the main element.
#[derive(Debug, Clone, Copy, PartialEq, Eq, Structural)]
pub enum RelativePosition {
    TopLeft,
    TopRight,
    BottomLeft,
    BottomRight,
    Left,
    Right,
    Above,
    Below,
    Overlapping,
}

/// What a locate request found. A region is given as top-left x, top-left y,
/// bottom-right x, bottom-right y.
#[derive(Debug, Clone)]
pub struct LocateResult {
    /// `"Found"` or `"NotFound"`.
    pub status: String,
    pub main_region: Option<(u32, u32, u32, u32)>,
    pub relative_region: Option<(u32, u32, u32, u32)>,
    pub relative_position_from_main: Option<RelativePosition>,
    pub description: Option<String>,
    pub result_image_ref: Option<String>,
}

/// The answer of a locate request that found nothing.
pub open spec fn is_not_located(res: LocateResult) -> bool {
    &&& res.status@ == "NotFound"@
    &&& res.main_region is None
    &&& res.relative_region is None
    &&& res.relative_position_from_main is None
    &&& res.description is None
    &&& res.result_image_ref is None
}

/// Locates the relative element as seen from the main element. Answers that
/// nothing was found, whatever the request.
pub fn flex_locate(req: LocateRequest) -> (res: LocateResult)
    ensures
        is_not_located(res),
{
    LocateResult {
        status: "NotFound".to_owned(),
        main_region: None,
        relative_region: None,
        relative_position_from_main: None,
        description: None,
        result_image_ref: None,
    }
}

} // verus!
