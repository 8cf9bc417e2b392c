use vt_sdk::boundary::{locate_request, search_request};
use vt_sdk::filters::Meta;
use vt_sdk::locate::{flex_locate, LocateRequest};
use vt_sdk::search::{flex_search, SearchRequest};

#[test]
fn search_stub_not_found() {
    let req = SearchRequest {
        parent_image: "parent.png".into(),
        child_image: "child.png".into(),
        meta: Meta::default(),
    };
    let res = flex_search(req);
    assert_eq!(res.status, "NotFound");
    assert_eq!(res.total_matches, 0);
    assert!(res.matches.is_empty());
    assert!(res.result_image_ref.is_none());
}

#[test]
fn search_reports_neither_precision_nor_center() {
    let res = flex_search(search_request("p.png".to_string(), "c.png".to_string(), None));
    assert!(res.precision.is_none());
    assert!(res.center.is_none());
}

#[test]
fn locate_stub_not_found() {
    let req = LocateRequest {
        container_image: "container.png".into(),
        main_image: "main.png".into(),
        relative_image: "relative.png".into(),
        meta: Meta::default(),
    };
    let res = flex_locate(req);
    assert_eq!(res.status, "NotFound");
    assert!(res.main_region.is_none());
    assert!(res.relative_region.is_none());
    assert!(res.relative_position_from_main.is_none());
    assert!(res.description.is_none());
    assert!(res.result_image_ref.is_none());
}

#[test]
fn locate_answer_does_not_depend_on_the_request() {
    let meta = Meta {
        test_name: Some("t".to_string()),
        test_mode: None,
        project_name: Some("p".to_string()),
        execution_name: None,
    };
    let res = flex_locate(locate_request(String::new(), String::new(), String::new(), Some(meta)));
    assert_eq!(res.status, "NotFound");
    assert!(res.relative_position_from_main.is_none());
}
