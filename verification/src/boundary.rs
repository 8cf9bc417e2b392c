//! Turning what arrives at a foreign-function boundary into requests.
//!
//! Such a boundary has no optional integers and hands over text that may not
//! parse. An integer below zero stands for "absent"; exclusion rectangles that
//! did not parse are treated as none, metadata that did not parse as empty.
//! The engine that answers is chosen once, by value.

use vstd::prelude::*;
use crate::compare::{compare_images, CompareRequest, Comparison};
use crate::filters::{empty_meta, Meta, Rect};
use crate::locate::LocateRequest;
use crate::mock::mock_compare_images;
use crate::search::SearchRequest;

verus! {

/// The engine that answers a request.
#[derive(Debug, Clone, Copy, PartialEq, Eq, Structural)]
pub enum Backend {
    /// Compares the images.
    Real,
    /// Answers every request alike.
    Mock,
}

/// What an integer of the boundary stands for: itself, or nothing where it is
/// below zero.
pub open spec fn from_sentinel(value: i32) -> Option<i32> {
    if value >= 0 {
        Some(value)
    } else {
        None
    }
}

/// The metadata of a request: what was parsed, or empty metadata.
pub open spec fn meta_or_empty(meta: Option<Meta>) -> Meta {
    match meta {
        Some(m) => m,
        None => empty_meta(),
    }
}

/// Reads an integer of the boundary.
pub fn optional_from_sentinel(value: i32) -> (opt: Option<i32>)
    ensures
        opt == from_sentinel(value),
{
    if value >= 0 {
        Some(value)
    } else {
        None
    }
}

/// What was parsed, or empty metadata.
pub fn meta_or_default(meta: Option<Meta>) -> (m: Meta)
    ensures
        m == meta_or_empty(meta),
{
    match meta {
        Some(m) => m,
        None => Meta::default(),
    }
}

/// Builds the request of a comparison from what the boundary received.
/// `excluded_areas` and `meta` hold what was parsed, or nothing where the text
/// was missing or malformed.
pub fn compare_request(
    baseline_image: String,
    input_image: String,
    min_similarity: i32,
    noise_filter: i32,
    excluded_areas: Option<Vec<Rect>>,
    meta: Option<Meta>,
) -> (req: CompareRequest)
    ensures
        req.baseline_image == baseline_image,
        req.input_image == input_image,
        req.min_similarity == from_sentinel(min_similarity),
        req.noise_filter == from_sentinel(noise_filter),
        req.excluded_areas == excluded_areas,
        req.meta == meta_or_empty(meta),
{
    CompareRequest {
        baseline_image,
        input_image,
        min_similarity: optional_from_sentinel(min_similarity),
        noise_filter: optional_from_sentinel(noise_filter),
        excluded_areas,
        meta: meta_or_default(meta),
    }
}

/// Builds the request of a search from what the boundary received.
pub fn search_request(parent_image: String, child_image: String, meta: Option<Meta>) -> (req:
    SearchRequest)
    ensures
        req.parent_image == parent_image,
        req.child_image == child_image,
        req.meta == meta_or_empty(meta),
{
    SearchRequest { parent_image, child_image, meta: meta_or_default(meta) }
}

/// Builds a locate request from what the boundary received.
pub fn locate_request(
    container_image: String,
    main_image: String,
    relative_image: String,
    meta: Option<Meta>,
) -> (req: LocateRequest)
    ensures
        req.container_image == container_image,
        req.main_image == main_image,
        req.relative_image == relative_image,
        req.meta == meta_or_empty(meta),
{
    LocateRequest { container_image, main_image, relative_image, meta: meta_or_default(meta) }
}

/// Has the chosen engine answer a comparison. The stand-in reads neither
/// input and hands back no difference frame.
pub fn run_compare(
    backend: Backend,
    req: CompareRequest,
    baseline: &Option<Vec<u8>>,
    input: &Option<Vec<u8>>,
    artifact_ref: String,
) -> (out: Comparison)
    ensures
        backend == Backend::Real ==> crate::compare::is_comparison_of(
            out,
            req,
            *baseline,
            *input,
            artifact_ref,
        ),
        backend == Backend::Mock ==> crate::mock::is_mock_result(out.result, req)
            && out.difference is None,
{
    match backend {
        Backend::Real => compare_images(req, baseline, input, artifact_ref),
        Backend::Mock => Comparison { result: mock_compare_images(req), difference: None },
    }
}

} // verus!
