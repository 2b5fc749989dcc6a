//! RFC 9457 problem details: the verified core of an axum error-response library.
//!
//! The library decides what an error response says: the problem's members, the
//! HTTP status line that goes with them, the default title of a status code, and
//! which responses a problem layer turns into `application/problem+json`.

mod json;
mod layer;
mod problem;
mod status;

pub use json::{json_object_members, no_members, JsonObject};
pub use layer::{
    contains_chars, is_error_status, is_problem_content_type, problem_for_response,
    spec_needs_problem, spec_layered_response, lemma_problem_responses_pass_through,
    lemma_layer_idempotent, lemma_needs_problem_exactly, ProblemLayer, ProblemService,
};
pub use problem::{
    lemma_new_problem_members, lemma_sent_problem_members, lemma_variant_detail_sent,
    lemma_variant_problem_members, opt_chars, spec_new_problem, spec_sent_problem, spec_variant_problem, Problem,
    ProblemResponse, ProblemView, FALLBACK_PROBLEM_BODY, PROBLEM_CONTENT_TYPE,
};
pub use status::{
    has_specific_title, is_valid_status_code, lemma_status_title_shape, lemma_status_title_table, response_status,
    spec_response_status, spec_status_title, status_title,
};
