use vstd::prelude::*;

use crate::json::json_object_members;
use crate::problem::{spec_new_problem, spec_sent_problem, Problem, PROBLEM_CONTENT_TYPE};
use crate::status::spec_status_title;

verus! {

/// Tower middleware layer that turns error responses that are not problem documents
/// into RFC 9457 problems.
///
/// Any 4xx or 5xx response whose `Content-Type` is not `application/problem+json` is
/// replaced by a [`Problem`] with the same HTTP status code. 1xx, 2xx and 3xx
/// responses, and responses that already are problem documents, pass through.
#[derive(Clone, Copy, Default)]
pub struct ProblemLayer;

/// Tower service produced by [`ProblemLayer`]: the wrapped service, whose error
/// responses are reviewed with [`problem_for_response`].
#[derive(Clone)]
pub struct ProblemService<S> {
    inner: S,
}

impl<S> ProblemService<S> {
    /// The service that this one wraps.
    pub closed spec fn wrapped(&self) -> S {
        self.inner
    }

    /// Hands back the wrapped service.
    pub fn into_inner(self) -> (inner: S)
        ensures
            inner == self.wrapped(),
    {
        self.inner
    }
}

impl ProblemLayer {
    /// Wraps `inner` in a [`ProblemService`].
    pub fn layer<S>(&self, inner: S) -> (service: ProblemService<S>)
        ensures
            service.wrapped() == inner,
    {
        ProblemService { inner }
    }
}

/// Whether `needle` occurs as a contiguous run of characters in `haystack`.
pub open spec fn contains_chars(haystack: Seq<char>, needle: Seq<char>) -> bool {
    exists|i: int|
        0 <= i && i + needle.len() <= haystack.len() && #[trigger] haystack.subrange(
            i,
            i + needle.len(),
        ) == needle
}

/// Whether a response with this `Content-Type` (absent, or not readable as text,
/// when `None`) already carries a problem document.
pub open spec fn is_problem_content_type(content_type: Option<Seq<char>>) -> bool {
    match content_type {
        Some(ct) => contains_chars(ct, PROBLEM_CONTENT_TYPE@),
        None => false,
    }
}

/// Whether a status code is a client error (4xx) or a server error (5xx).
pub open spec fn is_error_status(status: u16) -> bool {
    400 <= status < 600
}

/// Whether the problem layer replaces a response: an error status whose body is not
/// a problem document yet.
pub open spec fn spec_needs_problem(status: u16, content_type: Option<Seq<char>>) -> bool {
    is_error_status(status) && !is_problem_content_type(content_type)
}

/// Whether `needle` occurs in `haystack` at character position `at`.
fn chars_match_at(haystack: &str, needle: &str, at: usize) -> (found: bool)
    requires
        at + needle@.len() <= haystack@.len(),
    ensures
        found == (haystack@.subrange(at as int, at + needle@.len()) == needle@),
{
    let h = haystack.unicode_len();
    let n = needle.unicode_len();
    let mut j: usize = 0;
    while j < n
        invariant
            h == haystack@.len(),
            n == needle@.len(),
            at + n <= haystack@.len(),
            j <= n,
            forall|k: int| 0 <= k < j ==> haystack@[at + k] == needle@[k],
        decreases n - j,
    {
        if haystack.get_char(at + j) != needle.get_char(j) {
            assert(haystack@.subrange(at as int, at + n)[j as int] != needle@[j as int]);
            return false;
        }
        j = j + 1;
    }
    assert(haystack@.subrange(at as int, at + n) =~= needle@);
    true
}

/// Whether `needle` occurs as a contiguous run of characters in `haystack`.
fn str_contains(haystack: &str, needle: &str) -> (found: bool)
    ensures
        found == contains_chars(haystack@, needle@),
{
    let h = haystack.unicode_len();
    let n = needle.unicode_len();
    if n > h {
        return false;
    }
    let last = h - n;
    let mut i: usize = 0;
    loop
        invariant
            h == haystack@.len(),
            n == needle@.len(),
            last == h - n,
            i <= last,
            forall|k: int| 0 <= k < i ==> #[trigger] haystack@.subrange(k, k + n) != needle@,
        decreases last - i,
    {
        if chars_match_at(haystack, needle, i) {
            return true;
        }
        if i == last {
            return false;
        }
        i = i + 1;
    }
}

/// The problem that replaces a response of status `status` and `Content-Type`
/// `content_type` (`None` where the response has none, or one that is not visible
/// ASCII): a fresh problem for the same status where the status is a client or
/// server error and the response is not a problem document yet; `None` where the
/// response passes through unchanged.
pub fn problem_for_response(status: u16, content_type: Option<&str>) -> (replacement: Option<
    Problem,
>)
    ensures
        replacement is Some <==> spec_needs_problem(
            status,
            match content_type {
                Some(ct) => Some(ct@),
                None => None,
            },
        ),
        replacement matches Some(p) ==> p@ == spec_new_problem(status),
        replacement is Some <==> (400 <= status < 600 && !(match content_type {
            Some(ct) => exists|i: int|
                0 <= i && i + "application/problem+json"@.len() <= ct@.len()
                    && #[trigger] ct@.subrange(i, i + "application/problem+json"@.len())
                    == "application/problem+json"@,
            None => false,
        })),
        replacement matches Some(p) ==> (p.status == status && p.title@ == spec_status_title(
            status,
        ) && p.problem_type is None && p.detail is None && p.instance is None
            && json_object_members(p.extensions).dom() == Set::<Seq<char>>::empty()),
{
    if !(400 <= status && status < 600) {
        return None;
    }
    let already_problem = match content_type {
        Some(ct) => str_contains(ct, PROBLEM_CONTENT_TYPE),
        None => false,
    };
    if already_problem {
        None
    } else {
        Some(Problem::new(status))
    }
}

/// The status and `Content-Type` of a response after the problem layer: a replaced
/// response is the problem for its status, sent as a problem document; any other
/// response is unchanged.
pub open spec fn spec_layered_response(status: u16, content_type: Option<Seq<char>>) -> (
    u16,
    Option<Seq<char>>,
) {
    if spec_needs_problem(status, content_type) {
        (spec_sent_problem(spec_new_problem(status)).status, Some(PROBLEM_CONTENT_TYPE@))
    } else {
        (status, content_type)
    }
}

/// A response that carries the problem content type is never replaced, whatever its
/// status: the layer leaves problem responses, with their extension members, as
/// they are.
pub proof fn lemma_problem_responses_pass_through(status: u16)
    ensures
        !spec_needs_problem(status, Some(PROBLEM_CONTENT_TYPE@)),
{
    let p = PROBLEM_CONTENT_TYPE@;
    assert(p.subrange(0, 0 + p.len() as int) =~= p);
}

/// Applying the problem layer twice is the same as applying it once.
pub proof fn lemma_layer_idempotent(status: u16, content_type: Option<Seq<char>>)
    ensures
        ({
            let once = spec_layered_response(status, content_type);
            spec_layered_response(once.0, once.1) == once
        }),
{
    lemma_problem_responses_pass_through(spec_sent_problem(spec_new_problem(status)).status);
}

/// The layer replaces a response exactly when its status is a client or server error
/// (400 to 599) and its `Content-Type` is absent or does not contain
/// `application/problem+json` anywhere; the same test holds for every error status.
pub proof fn lemma_needs_problem_exactly(status: u16, content_type: Option<Seq<char>>)
    ensures
        spec_needs_problem(status, content_type) <==> (400 <= status < 600 && !(
        match content_type {
            Some(ct) => exists|i: int|
                0 <= i && i + "application/problem+json"@.len() <= ct.len()
                    && #[trigger] ct.subrange(i, i + "application/problem+json"@.len())
                    == "application/problem+json"@,
            None => false,
        })),
{
}

} // verus!
