use vstd::prelude::*;

verus! {

/// The short title that RFC 9457 problems carry by default for a status code.
pub open spec fn spec_status_title(status: u16) -> Seq<char> {
    if status == 400 {
        "Bad Request"@
    } else if status == 401 {
        "Unauthorized"@
    } else if status == 403 {
        "Forbidden"@
    } else if status == 404 {
        "Not Found"@
    } else if status == 405 {
        "Method Not Allowed"@
    } else if status == 408 {
        "Request Timeout"@
    } else if status == 409 {
        "Conflict"@
    } else if status == 410 {
        "Gone"@
    } else if status == 415 {
        "Unsupported Media Type"@
    } else if status == 422 {
        "Unprocessable Entity"@
    } else if status == 429 {
        "Too Many Requests"@
    } else if status == 500 {
        "Internal Server Error"@
    } else if status == 501 {
        "Not Implemented"@
    } else if status == 502 {
        "Bad Gateway"@
    } else if status == 503 {
        "Service Unavailable"@
    } else if status == 504 {
        "Gateway Timeout"@
    } else {
        "Error"@
    }
}

/// The status codes that have a title of their own; every other code is titled `"Error"`.
pub open spec fn has_specific_title(status: u16) -> bool {
    status == 400 || status == 401 || status == 403 || status == 404 || status == 405
        || status == 408 || status == 409 || status == 410 || status == 415 || status == 422
        || status == 429 || status == 500 || status == 501 || status == 502 || status == 503
        || status == 504
}

/// Every status code has a non-empty title, and the generic title `"Error"` goes to
/// exactly the codes that have no title of their own.
pub proof fn lemma_status_title_shape(status: u16)
    ensures
        spec_status_title(status).len() > 0,
        spec_status_title(status) == "Error"@ <==> !has_specific_title(status),
{
    reveal_strlit("Bad Request");
    reveal_strlit("Unauthorized");
    reveal_strlit("Forbidden");
    reveal_strlit("Not Found");
    reveal_strlit("Method Not Allowed");
    reveal_strlit("Request Timeout");
    reveal_strlit("Conflict");
    reveal_strlit("Gone");
    reveal_strlit("Unsupported Media Type");
    reveal_strlit("Unprocessable Entity");
    reveal_strlit("Too Many Requests");
    reveal_strlit("Internal Server Error");
    reveal_strlit("Not Implemented");
    reveal_strlit("Bad Gateway");
    reveal_strlit("Service Unavailable");
    reveal_strlit("Gateway Timeout");
    reveal_strlit("Error");
    // No specific title has the length of the generic one.
    assert("Error"@.len() == 5);
    if has_specific_title(status) {
        assert(spec_status_title(status).len() != 5);
    }
}

/// Returns a short title for common HTTP status codes, and `"Error"` for any other.
pub fn status_title(status: u16) -> (title: &'static str)
    ensures
        title@ == spec_status_title(status),
        title@.len() > 0,
        title@ == "Error"@ <==> !has_specific_title(status),
{
    proof {
        lemma_status_title_shape(status);
    }
    match status {
        400 => "Bad Request",
        401 => "Unauthorized",
        403 => "Forbidden",
        404 => "Not Found",
        405 => "Method Not Allowed",
        408 => "Request Timeout",
        409 => "Conflict",
        410 => "Gone",
        415 => "Unsupported Media Type",
        422 => "Unprocessable Entity",
        429 => "Too Many Requests",
        500 => "Internal Server Error",
        501 => "Not Implemented",
        502 => "Bad Gateway",
        503 => "Service Unavailable",
        504 => "Gateway Timeout",
        _ => "Error",
    }
}


/// Whether `http` accepts a number as a status code: from 100 to 999.
pub open spec fn is_valid_status_code(code: u16) -> bool {
    100 <= code <= 999
}

/// The status line of a response for the status `code` of a problem: the code itself
/// where `http` accepts it, 500 (Internal Server Error) where it does not.
pub open spec fn spec_response_status(code: u16) -> u16 {
    if is_valid_status_code(code) {
        code
    } else {
        500
    }
}

/// Calls `http::StatusCode::from_u16`, which accepts exactly the codes from 100 to
/// 999, and reads an accepted code back with `http::StatusCode::as_u16`, which gives
/// the number it was made from.
#[verifier::external_body]
fn http_status_code(code: u16) -> (accepted: Option<u16>)
    ensures
        accepted == (if is_valid_status_code(code) { Some(code) } else { None }),
{
    match http::StatusCode::from_u16(code) {
        Ok(status) => Some(status.as_u16()),
        Err(_) => None,
    }
}

/// The status line that a problem with status `code` is sent with: `code` where it
/// is a valid HTTP status code, 500 otherwise.
pub fn response_status(code: u16) -> (status: u16)
    ensures
        status == spec_response_status(code),
        is_valid_status_code(status),
        status == (if 100 <= code <= 999 { code } else { 500 }),
{
    match http_status_code(code) {
        Some(status) => status,
        None => 500,
    }
}

/// The title of each listed status code, and `"Error"` for every code outside the list.
pub proof fn lemma_status_title_table(status: u16)
    ensures
        spec_status_title(400) == "Bad Request"@,
        spec_status_title(401) == "Unauthorized"@,
        spec_status_title(403) == "Forbidden"@,
        spec_status_title(404) == "Not Found"@,
        spec_status_title(405) == "Method Not Allowed"@,
        spec_status_title(408) == "Request Timeout"@,
        spec_status_title(409) == "Conflict"@,
        spec_status_title(410) == "Gone"@,
        spec_status_title(415) == "Unsupported Media Type"@,
        spec_status_title(422) == "Unprocessable Entity"@,
        spec_status_title(429) == "Too Many Requests"@,
        spec_status_title(500) == "Internal Server Error"@,
        spec_status_title(501) == "Not Implemented"@,
        spec_status_title(502) == "Bad Gateway"@,
        spec_status_title(503) == "Service Unavailable"@,
        spec_status_title(504) == "Gateway Timeout"@,
        status != 400 && status != 401 && status != 403 && status != 404 && status != 405
            && status != 408 && status != 409 && status != 410 && status != 415 && status
            != 422 && status != 429 && status != 500 && status != 501 && status != 502
            && status != 503 && status != 504 ==> spec_status_title(status) == "Error"@,
{
}

} // verus!
