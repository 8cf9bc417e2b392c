use std::io::Cursor;

use image::{ImageBuffer, ImageFormat, Rgb};
use vt_sdk::compare::{
    compare_images, pixel_similarity, CompareRequest, CompareStatus, DecodeError,
};
use vt_sdk::filters::{Meta, Rect};
use vt_sdk::similarity::Similarity;

fn png_bytes(img: &ImageBuffer<Rgb<u8>, Vec<u8>>) -> Vec<u8> {
    let mut bytes: Vec<u8> = Vec::new();
    img.write_to(&mut Cursor::new(&mut bytes), ImageFormat::Png)
        .expect("failed to encode test png");
    bytes
}

fn tmp(file: &str) -> String {
    format!("vt_test_{}.png", file)
}

fn solid_rgb(w: u32, h: u32, rgb: [u8; 3]) -> ImageBuffer<Rgb<u8>, Vec<u8>> {
    ImageBuffer::from_fn(w, h, |_x, _y| Rgb(rgb))
}

fn percent(s: &Similarity) -> f32 {
    (100.0 * s.matched as f64 / s.total as f64) as f32
}

fn request(baseline: String, input: String) -> CompareRequest {
    CompareRequest {
        baseline_image: baseline,
        input_image: input,
        min_similarity: None,
        noise_filter: None,
        excluded_areas: None,
        meta: Default::default(),
    }
}

#[test]
fn identical_images_give_100() {
    let w = 256;
    let h = 256;
    let a = solid_rgb(w, h, [200, 200, 200]);
    let b = a.clone();
    let pa = tmp("ident_a");
    let pb = tmp("ident_b");

    let req = CompareRequest {
        baseline_image: pa,
        input_image: pb,
        min_similarity: None,
        noise_filter: None,
        excluded_areas: None,
        meta: Default::default(),
    };
    let out = compare_images(
        req,
        &Some(png_bytes(&a)),
        &Some(png_bytes(&b)),
        "vt_diff_1.png".to_string(),
    );
    let res = out.result;
    let got = percent(&res.obtained_similarity);
    assert!((got - 100.0).abs() < 0.001, "got {}", got);
    assert_eq!(res.obtained_similarity.matched, res.obtained_similarity.total);
}

#[test]
fn different_images_lower_similarity() {
    let w = 256;
    let h = 256;
    let a = solid_rgb(w, h, [255, 255, 255]);
    let mut b = solid_rgb(w, h, [255, 255, 255]);
    // Put a black square in B
    for y in 80..176 {
        for x in 80..176 {
            b.put_pixel(x, y, Rgb([0, 0, 0]));
        }
    }
    let pa = tmp("diff_a");
    let pb = tmp("diff_b");

    let req = CompareRequest {
        baseline_image: pa,
        input_image: pb,
        min_similarity: None,
        noise_filter: None,
        excluded_areas: None,
        meta: Default::default(),
    };
    let out = compare_images(
        req,
        &Some(png_bytes(&a)),
        &Some(png_bytes(&b)),
        "vt_diff_2.png".to_string(),
    );
    let res = out.result;
    let got = percent(&res.obtained_similarity);
    assert!(got < 95.0, "unexpected high similarity: {}", got);
    assert!(got < 100.0);
    // 96 * 96 of 256 * 256 pixels differ by the full range.
    assert_eq!(res.obtained_similarity.total, 255 * 65536);
    assert_eq!(res.obtained_similarity.matched, 255 * (65536 - 96 * 96));
}

#[test]
fn excluded_area_ignores_difference() {
    let w = 256;
    let h = 256;
    let a = solid_rgb(w, h, [255, 255, 255]);
    let mut b = solid_rgb(w, h, [255, 255, 255]);
    // Difference only in a central square 80..176
    for y in 80..176 {
        for x in 80..176 {
            b.put_pixel(x, y, Rgb([0, 0, 0]));
        }
    }
    let pa = tmp("ex_a");
    let pb = tmp("ex_b");

    // Exclude exactly that region (in original coordinates)
    let rect = Rect { top_left_x: 80, top_left_y: 80, bottom_right_x: 175, bottom_right_y: 175 };

    let req = CompareRequest {
        baseline_image: pa,
        input_image: pb,
        min_similarity: None,
        noise_filter: None,
        excluded_areas: Some(vec![rect]),
        meta: Default::default(),
    };
    let out = compare_images(
        req,
        &Some(png_bytes(&a)),
        &Some(png_bytes(&b)),
        "vt_diff_3.png".to_string(),
    );
    let res = out.result;
    let got = percent(&res.obtained_similarity);
    assert!(got > 99.9, "expected near 100, got {}", got);
    assert_eq!(res.obtained_similarity.total, 255 * (65536 - 96 * 96));
    assert_eq!(res.excluded_areas, vec![rect]);
    // The difference frame does not know of the exclusion.
    let frame = out.difference.expect("expected a difference frame");
    assert_eq!(frame[100 * 256 + 100], 255);
    assert_eq!(frame[10 * 256 + 10], 0);
}

#[test]
fn min_similarity_sets_status() {
    let w = 128;
    let h = 128;
    let a = solid_rgb(w, h, [255, 255, 255]);
    let mut b = solid_rgb(w, h, [255, 255, 255]);
    // small difference
    for y in 40..88 {
        for x in 40..88 {
            b.put_pixel(x, y, Rgb([0, 0, 0]));
        }
    }
    let pa = tmp("thr_a");
    let pb = tmp("thr_b");

    // Set a high threshold to force Failed
    let req = CompareRequest {
        baseline_image: pa,
        input_image: pb,
        min_similarity: Some(99),
        noise_filter: None,
        excluded_areas: None,
        meta: Default::default(),
    };
    let out = compare_images(
        req,
        &Some(png_bytes(&a)),
        &Some(png_bytes(&b)),
        "vt_diff_4.png".to_string(),
    );
    let res = out.result;
    assert!(matches!(res.status, Some(CompareStatus::Failed)));
}

#[test]
fn result_image_ref_created_when_images_load() {
    let w = 64;
    let h = 64;
    let a = solid_rgb(w, h, [10, 20, 30]);
    let b = solid_rgb(w, h, [11, 21, 31]);
    let pa = tmp("diff_ref_a");
    let pb = tmp("diff_ref_b");

    let req = CompareRequest {
        baseline_image: pa,
        input_image: pb,
        min_similarity: None,
        noise_filter: None,
        excluded_areas: None,
        meta: Default::default(),
    };
    let out = compare_images(
        req,
        &Some(png_bytes(&a)),
        &Some(png_bytes(&b)),
        "vt_diff_5.png".to_string(),
    );
    let path = out.result.result_image_ref.expect("expected diff path");
    assert_eq!(path, "vt_diff_5.png");
    // The frame to store under that path is handed back with the result.
    let frame = out.difference.expect("expected a difference frame");
    assert_eq!(frame.len(), 256 * 256);
    assert!(frame.iter().all(|d| *d <= 2), "diff image not found at {path}");
}

#[test]
fn fallback_byte_similarity_for_invalid_paths() {
    let req = CompareRequest {
        baseline_image: "/path/does/not/exist/a.png".into(),
        input_image: "/path/does/not/exist/b.png".into(),
        min_similarity: Some(1),
        noise_filter: None,
        excluded_areas: None,
        meta: Default::default(),
    };
    // Neither locator can be read.
    let out = compare_images(req, &None, &None, "vt_diff_6.png".to_string());
    let res = out.result;
    assert!(percent(&res.obtained_similarity) <= 1.0);
    assert_eq!(res.obtained_similarity.matched, 0);
    assert!(res.result_image_ref.is_none());
    assert!(out.difference.is_none());
    assert!(matches!(res.status, Some(CompareStatus::Failed)));
}

#[test]
fn status_is_absent_without_minimum() {
    let a = solid_rgb(256, 256, [9, 9, 9]);
    let out = compare_images(
        request(tmp("abs_a"), tmp("abs_b")),
        &Some(png_bytes(&a)),
        &Some(png_bytes(&a)),
        "d.png".to_string(),
    );
    assert!(out.result.status.is_none());
}

#[test]
fn threshold_below_score_passes_and_above_fails() {
    let a = solid_rgb(256, 256, [255, 255, 255]);
    let mut b = solid_rgb(256, 256, [255, 255, 255]);
    for y in 0..128 {
        for x in 0..256 {
            b.put_pixel(x, y, Rgb([0, 0, 0]));
        }
    }
    // Half of the frame differs by the full range: 50 percent.
    for (min, expected) in [(49, CompareStatus::Passed), (50, CompareStatus::Passed), (51, CompareStatus::Failed)] {
        let mut req = request(tmp("half_a"), tmp("half_b"));
        req.min_similarity = Some(min);
        let out = compare_images(req, &Some(png_bytes(&a)), &Some(png_bytes(&b)), "d.png".to_string());
        assert_eq!(out.result.obtained_similarity, Similarity { matched: 255 * 32768, total: 255 * 65536 });
        assert_eq!(out.result.status, Some(expected));
    }
}

#[test]
fn noise_filter_is_limited_and_defaults_to_20() {
    for (requested, expected) in
        [(None, 20), (Some(0), 0), (Some(35), 35), (Some(100), 100), (Some(101), 100), (Some(-7), 0), (Some(i32::MAX), 100), (Some(i32::MIN), 0)]
    {
        let mut req = request("a.png".to_string(), "b.png".to_string());
        req.noise_filter = requested;
        let out = compare_images(req, &None, &None, "d.png".to_string());
        assert_eq!(out.result.noise_filter, expected);
    }
}

#[test]
fn excluded_areas_are_reported_back() {
    let rects = vec![
        Rect { top_left_x: 1, top_left_y: 2, bottom_right_x: 3, bottom_right_y: 4 },
        Rect { top_left_x: 9, top_left_y: 9, bottom_right_x: 0, bottom_right_y: 0 },
    ];
    let mut req = request("a.png".to_string(), "b.png".to_string());
    req.excluded_areas = Some(rects.clone());
    let out = compare_images(req, &Some(vec![1, 2, 3]), &Some(vec![1, 2, 4]), "d.png".to_string());
    assert_eq!(out.result.excluded_areas, rects);
    let out = compare_images(request("a.png".to_string(), "b.png".to_string()), &None, &None, "d.png".to_string());
    assert!(out.result.excluded_areas.is_empty());
}

#[test]
fn undecodable_inputs_fall_back_to_bytes() {
    // Bytes that are no PNG: three of four positions match.
    let out = compare_images(
        request("a.png".to_string(), "b.png".to_string()),
        &Some(vec![1, 2, 3, 4]),
        &Some(vec![1, 2, 3, 5, 6]),
        "d.png".to_string(),
    );
    assert_eq!(out.result.obtained_similarity, Similarity { matched: 3, total: 4 });
    assert!(out.result.result_image_ref.is_none());
    assert!(out.difference.is_none());
}

#[test]
fn one_decodable_input_still_falls_back() {
    let a = png_bytes(&solid_rgb(8, 8, [1, 2, 3]));
    let out = compare_images(
        request("a.png".to_string(), "b.png".to_string()),
        &Some(a.clone()),
        &Some(vec![0u8; 4]),
        "d.png".to_string(),
    );
    assert!(out.result.result_image_ref.is_none());
    assert!(out.result.obtained_similarity.matched < out.result.obtained_similarity.total);
    // A readable baseline beside an unreadable input scores nothing.
    let out = compare_images(request("a.png".to_string(), "b.png".to_string()), &Some(a), &None, "d.png".to_string());
    assert_eq!(out.result.obtained_similarity, Similarity { matched: 0, total: 1 });
}

#[test]
fn identical_undecodable_bytes_score_100() {
    let out = compare_images(
        request("a.txt".to_string(), "b.txt".to_string()),
        &Some(vec![7, 7, 7]),
        &Some(vec![7, 7, 7]),
        "d.png".to_string(),
    );
    assert_eq!(out.result.obtained_similarity, Similarity { matched: 1, total: 1 });
    let out = compare_images(request("a.txt".to_string(), "b.txt".to_string()), &Some(vec![]), &Some(vec![]), "d.png".to_string());
    assert_eq!(out.result.obtained_similarity, Similarity { matched: 1, total: 1 });
}

#[test]
fn empty_common_part_scores_zero() {
    let out = compare_images(
        request("a.txt".to_string(), "b.txt".to_string()),
        &Some(vec![]),
        &Some(vec![7]),
        "d.png".to_string(),
    );
    assert_eq!(out.result.obtained_similarity, Similarity { matched: 0, total: 1 });
}

#[test]
fn format_is_read_off_the_locator() {
    // PNG bytes under a locator without a known extension do not decode.
    let a = png_bytes(&solid_rgb(4, 4, [5, 5, 5]));
    let req = request("baseline.unknown".to_string(), "input.png".to_string());
    assert!(matches!(pixel_similarity(&req, &a, &a), Err(DecodeError::Baseline)));
    let req = request("baseline.png".to_string(), "input".to_string());
    assert!(matches!(pixel_similarity(&req, &a, &a), Err(DecodeError::Input)));
    let req = request("baseline.PNG".to_string(), "dir/input.png".to_string());
    assert!(pixel_similarity(&req, &a, &a).is_ok());
}

#[test]
fn decode_errors_name_the_input() {
    let a = png_bytes(&solid_rgb(4, 4, [5, 5, 5]));
    let req = request("a.png".to_string(), "b.png".to_string());
    assert!(matches!(pixel_similarity(&req, &[1, 2, 3], &a), Err(DecodeError::Baseline)));
    assert!(matches!(pixel_similarity(&req, &a, &[1, 2, 3]), Err(DecodeError::Input)));
    assert!(matches!(pixel_similarity(&req, &[], &[]), Err(DecodeError::Baseline)));
}

#[test]
fn images_of_other_sizes_are_brought_to_the_canonical_frame() {
    let a = png_bytes(&solid_rgb(31, 17, [255, 255, 255]));
    let b = png_bytes(&solid_rgb(300, 500, [0, 0, 0]));
    let req = request("a.png".to_string(), "b.png".to_string());
    let found = pixel_similarity(&req, &a, &b).expect("both decode");
    assert_eq!(found.difference.len(), 65536);
    assert!(found.difference.iter().all(|d| *d == 255));
    assert_eq!(found.similarity, Similarity { matched: 0, total: 255 * 65536 });
}

#[test]
fn meta_defaults_to_nothing() {
    let m = Meta::default();
    assert!(m.test_name.is_none());
    assert!(m.test_mode.is_none());
    assert!(m.project_name.is_none());
    assert!(m.execution_name.is_none());
}
