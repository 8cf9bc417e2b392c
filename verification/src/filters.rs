//! Values that callers attach to a request: exclusion rectangles and metadata.

use vstd::prelude::*;

verus! {

/// An axis-aligned rectangle in the pixel coordinates of the original baseline
/// image. The bottom-right corner is inclusive. Nothing orders the two corners:
/// a caller may hand in a rectangle whose top-left lies beyond its bottom-right.
#[derive(Debug, Clone, Copy, PartialEq, Eq, Structural)]
pub struct Rect {
    pub top_left_x: u32,
    pub top_left_y: u32,
    pub bottom_right_x: u32,
    pub bottom_right_y: u32,
}

impl Rect {
    /// The top-left corner does not lie beyond the bottom-right corner.
    pub open spec fn is_ordered(&self) -> bool {
        self.top_left_x <= self.bottom_right_x && self.top_left_y <= self.bottom_right_y
    }
}

/// Identifiers of the test run a request belongs to. They are carried along and
/// never read by the engine.
#[derive(Debug, Clone)]
pub struct Meta {
    pub test_name: Option<String>,
    pub test_mode: Option<String>,
    pub project_name: Option<String>,
    pub execution_name: Option<String>,
}

/// Metadata that names nothing.
pub open spec fn empty_meta() -> Meta {
    Meta { test_name: None, test_mode: None, project_name: None, execution_name: None }
}

impl Default for Meta {
    fn default() -> (m: Meta)
        ensures
            m == empty_meta(),
    {
        Meta { test_name: None, test_mode: None, project_name: None, execution_name: None }
    }
}

} // verus!
