use gitlab_batch::api::{
    ApiError, Project, build_merge_request, classify_mr_response, classify_project_response,
    encode_project_path, format_success_line, merge_request_url, project_request_url,
    u64_to_string,
};

#[test]
fn writes_small_numbers() {
    assert_eq!(u64_to_string(0), "0");
    assert_eq!(u64_to_string(7), "7");
    assert_eq!(u64_to_string(10), "10");
}

#[test]
fn writes_large_numbers() {
    assert_eq!(u64_to_string(7031), "7031");
    assert_eq!(u64_to_string(u64::MAX), "18446744073709551615");
}

#[test]
fn encoder_escapes_reserved_characters() {
    assert_eq!(encode_project_path("team/sub proj"), "team%2Fsub%20proj");
    assert_eq!(encode_project_path(""), "");
}

#[test]
fn project_url_percent_encodes_the_path() {
    let url = project_request_url("https://gitlab.com/api/v4", "team/sub/proj");
    assert_eq!(url, "https://gitlab.com/api/v4/projects/team%2Fsub%2Fproj");
}

#[test]
fn project_url_keeps_unreserved_characters() {
    let url = project_request_url("https://gitlab.com/api/v4", "my-team/a_b.c~d");
    assert_eq!(url, "https://gitlab.com/api/v4/projects/my-team%2Fa_b.c~d");
}

#[test]
fn merge_request_url_uses_the_numeric_id() {
    let url = merge_request_url("https://gitlab.com/api/v4", 42);
    assert_eq!(url, "https://gitlab.com/api/v4/projects/42/merge_requests");
}

#[test]
fn merge_request_body_carries_title_and_description() {
    let req = build_merge_request("feature", "main");
    assert_eq!(req.source_branch, "feature");
    assert_eq!(req.target_branch, "main");
    assert_eq!(req.title, "feature to main");
    assert_eq!(
        req.description.as_deref(),
        Some("Auto-created merge request from feature to main")
    );
}

#[test]
fn project_lookup_keeps_the_failing_status() {
    let r = classify_project_response(404, None);
    assert!(matches!(r, Err(ApiError::HttpStatus { status: 404 })));
}

#[test]
fn project_lookup_rejects_undecodable_success() {
    let r = classify_project_response(200, None);
    assert!(matches!(r, Err(ApiError::Decode)));
}

#[test]
fn project_lookup_returns_the_decoded_project() {
    let p = Project { id: 42, name: "proj".to_string() };
    let r = classify_project_response(200, Some(p)).unwrap();
    assert_eq!(r.id, 42);
    assert_eq!(r.name, "proj");
}

#[test]
fn failing_status_wins_over_decoded_body() {
    let p = Project { id: 42, name: "proj".to_string() };
    let r = classify_project_response(500, Some(p));
    assert!(matches!(r, Err(ApiError::HttpStatus { status: 500 })));
}

#[test]
fn mr_creation_keeps_the_raw_body_on_failure() {
    let r = classify_mr_response(409, None, "another open merge request exists".to_string());
    match r {
        Err(ApiError::Rejected { body }) => {
            assert_eq!(body, "another open merge request exists");
        }
        _ => panic!("expected the raw body to be kept"),
    }
}

#[test]
fn mr_creation_rejects_undecodable_success() {
    let r = classify_mr_response(201, None, String::new());
    assert!(matches!(r, Err(ApiError::Decode)));
}

#[test]
fn mr_creation_returns_the_web_url() {
    let url = "https://gitlab.com/team/proj/-/merge_requests/5".to_string();
    let r = classify_mr_response(201, Some(url), String::new()).unwrap();
    assert_eq!(r.web_url, "https://gitlab.com/team/proj/-/merge_requests/5");
}

#[test]
fn success_line_joins_name_and_url() {
    let line = format_success_line("proj", "https://gitlab.com/team/proj/-/merge_requests/5");
    assert_eq!(line, "proj: https://gitlab.com/team/proj/-/merge_requests/5");
}
