use axum_problem::{problem_for_response, Problem, ProblemLayer, PROBLEM_CONTENT_TYPE};

/// What a response looks like after the layer: its status and content type.
fn after_layer(status: u16, content_type: Option<&str>) -> (u16, Option<String>) {
    match problem_for_response(status, content_type) {
        Some(p) => {
            let r = p.into_response_parts();
            (r.status, Some(r.content_type.to_string()))
        }
        None => (status, content_type.map(|s| s.to_string())),
    }
}

#[test]
fn problem_layer_converts_plain_404_to_problem_json() {
    let p = problem_for_response(404, Some("text/plain; charset=utf-8")).unwrap();
    let r = p.into_response_parts();
    assert_eq!(r.status, 404);
    assert_eq!(r.content_type, "application/problem+json");
    assert_eq!(r.problem.status, 404);
    assert_eq!(r.problem.title, "Not Found");
}

#[test]
fn problem_layer_passes_through_2xx() {
    assert!(problem_for_response(200, Some("text/plain; charset=utf-8")).is_none());
}

#[test]
fn problem_layer_passes_through_existing_problem_json() {
    assert!(problem_for_response(404, Some("application/problem+json")).is_none());
}

#[test]
fn problem_layer_converts_axum_405_method_not_allowed() {
    let p = problem_for_response(405, None).unwrap();
    assert_eq!(p.status, 405);
    assert_eq!(p.title, "Method Not Allowed");
}

#[test]
fn problem_layer_converts_5xx_to_problem_json() {
    let p = problem_for_response(500, Some("text/plain; charset=utf-8")).unwrap();
    assert_eq!(p.status, 500);
    assert_eq!(p.title, "Internal Server Error");
}

#[test]
fn problem_layer_passes_through_3xx_redirect() {
    assert!(problem_for_response(301, None).is_none());
    assert!(problem_for_response(302, Some("text/html")).is_none());
}

#[test]
fn problem_layer_converts_4xx_with_no_content_type() {
    let p = problem_for_response(400, None).unwrap();
    assert_eq!(p.status, 400);
}

#[test]
fn problem_layer_passes_through_existing_problem_500() {
    assert!(problem_for_response(500, Some(PROBLEM_CONTENT_TYPE)).is_none());
}

#[test]
fn problem_layer_converts_axum_json_extractor_error() {
    let p = problem_for_response(422, Some("text/plain; charset=utf-8")).unwrap();
    assert!(p.status >= 400);
    assert_eq!(p.title, "Unprocessable Entity");
}

#[test]
fn problem_layer_stacked_twice_is_idempotent() {
    for (status, ct) in [
        (404u16, None),
        (404, Some("text/plain")),
        (500, Some("application/problem+json")),
        (200, Some("text/plain")),
        (301, None),
        (599, Some("application/json")),
    ] {
        let once = after_layer(status, ct);
        let twice = after_layer(once.0, once.1.as_deref());
        assert_eq!(once, twice);
    }
}

#[test]
fn problem_marker_found_anywhere_in_content_type() {
    assert!(problem_for_response(400, Some("application/problem+json; charset=utf-8")).is_none());
    assert!(problem_for_response(400, Some("x, application/problem+json")).is_none());
    assert!(problem_for_response(400, Some("application/problem+jso")).is_some());
    assert!(problem_for_response(400, Some("application/json")).is_some());
    assert!(problem_for_response(400, Some("")).is_some());
}

#[test]
fn problem_layer_status_boundaries() {
    assert!(problem_for_response(399, None).is_none());
    assert!(problem_for_response(400, None).is_some());
    assert!(problem_for_response(499, None).is_some());
    assert!(problem_for_response(599, None).is_some());
    assert!(problem_for_response(600, None).is_none());
    assert!(problem_for_response(100, None).is_none());
}

#[test]
fn replacement_is_a_fresh_problem() {
    let p = problem_for_response(429, Some("text/plain")).unwrap();
    assert_eq!(p.title, "Too Many Requests");
    assert!(p.detail.is_none());
    assert!(p.instance.is_none());
    assert!(p.problem_type.is_none());
    assert!(p.extensions.is_empty());
}

#[test]
fn layer_wraps_the_given_service() {
    let service = ProblemLayer.layer(41u32);
    assert_eq!(service.clone().into_inner(), 41);
    let layer = ProblemLayer::default();
    let _copy = layer;
    assert_eq!(layer.layer("inner").into_inner(), "inner");
}

#[test]
fn problem_response_of_any_error_status_passes_layer() {
    for status in [400u16, 404, 418, 500, 503, 599] {
        let r = Problem::new(status).into_response_parts();
        assert!(problem_for_response(r.status, Some(r.content_type)).is_none());
    }
}
