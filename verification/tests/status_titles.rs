use axum_problem::{response_status, status_title};

#[test]
fn status_title_coverage() {
    assert_eq!(status_title(404), "Not Found");
    assert_eq!(status_title(500), "Internal Server Error");
    assert_eq!(status_title(999), "Error");
}

#[test]
fn all_common_status_codes_have_proper_titles() {
    let common = [400u16, 401, 403, 404, 405, 408, 409, 410, 415, 422, 429,
                  500, 501, 502, 503, 504];
    for code in common {
        let title = status_title(code);
        assert!(!title.is_empty(), "status {code} must have non-empty title");
        assert_ne!(title, "Error",
            "status {code} should have a specific title, not the generic fallback");
    }
}

#[test]
fn every_listed_code_has_its_own_title() {
    let expected = [
        (400u16, "Bad Request"),
        (401, "Unauthorized"),
        (403, "Forbidden"),
        (404, "Not Found"),
        (405, "Method Not Allowed"),
        (408, "Request Timeout"),
        (409, "Conflict"),
        (410, "Gone"),
        (415, "Unsupported Media Type"),
        (422, "Unprocessable Entity"),
        (429, "Too Many Requests"),
        (500, "Internal Server Error"),
        (501, "Not Implemented"),
        (502, "Bad Gateway"),
        (503, "Service Unavailable"),
        (504, "Gateway Timeout"),
    ];
    for (code, title) in expected {
        assert_eq!(status_title(code), title);
    }
}

#[test]
fn unlisted_codes_get_the_generic_title() {
    for code in [0u16, 1, 99, 100, 200, 201, 302, 402, 406, 418, 451, 505, 599, 600, 999, u16::MAX] {
        assert_eq!(status_title(code), "Error", "status {code}");
    }
}

#[test]
fn status_title_is_never_empty() {
    for code in 0..=u16::MAX {
        assert!(!status_title(code).is_empty());
    }
}

#[test]
fn response_status_keeps_valid_codes() {
    assert_eq!(response_status(100), 100);
    assert_eq!(response_status(200), 200);
    assert_eq!(response_status(418), 418);
    assert_eq!(response_status(599), 599);
    assert_eq!(response_status(999), 999);
}

#[test]
fn response_status_replaces_invalid_codes_with_500() {
    assert_eq!(response_status(0), 500);
    assert_eq!(response_status(99), 500);
    assert_eq!(response_status(1000), 500);
    assert_eq!(response_status(u16::MAX), 500);
}

#[test]
fn response_status_is_always_a_valid_code() {
    for code in 0..=u16::MAX {
        let s = response_status(code);
        assert!((100..=999).contains(&s));
        if (100..=999).contains(&code) {
            assert_eq!(s, code);
        } else {
            assert_eq!(s, 500);
        }
    }
}
