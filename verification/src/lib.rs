//! Visual-regression comparison engine.
//!
//! Two raster images are reduced to luminance, brought to one canonical
//! resolution and scored by their mean absolute difference; rectangles of the
//! baseline can be left out of the score. Every item of this crate is checked
//! by Verus against the contract written on it; the few calls into the `image`
//! crate sit behind wrappers whose contracts are taken on trust.

pub mod artifact;
pub mod boundary;
pub mod compare;
pub mod filters;
pub mod laws;
pub mod locate;
pub mod mask;
pub mod mock;
pub mod raster;
pub mod scoring;
pub mod search;
pub mod similarity;

pub use compare::{compare_images, CompareRequest, CompareResult, CompareStatus};
pub use locate::{flex_locate, LocateRequest, LocateResult, RelativePosition};
pub use search::{flex_search, MatchRegion, SearchRequest, SearchResult};
