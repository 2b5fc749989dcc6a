use vstd::prelude::*;

use crate::json::{json_object_insert, json_object_members, new_json_object, no_members, JsonObject};
use crate::status::{response_status, spec_response_status, spec_status_title, status_title};

verus! {

/// The media type of an RFC 9457 problem details document in JSON.
pub const PROBLEM_CONTENT_TYPE: &'static str = "application/problem+json";

/// The body sent when a problem cannot be rendered as JSON.
pub const FALLBACK_PROBLEM_BODY: &'static str = "{\"title\":\"Internal Server Error\",\"status\":500}";

/// An RFC 9457 problem details response.
///
/// It is sent as `application/problem+json` with the matching HTTP status code.
/// Extension members (RFC 9457 §3.5) are sent as top-level JSON members beside
/// the standard ones.
#[derive(Debug, Clone)]
pub struct Problem {
    /// URI reference identifying the problem type; sent as `"type"` where present.
    pub problem_type: Option<String>,
    /// Short human-readable summary of the problem type.
    pub title: String,
    /// HTTP status code.
    pub status: u16,
    /// Human-readable explanation specific to this occurrence.
    pub detail: Option<String>,
    /// URI identifying the specific occurrence of this problem.
    pub instance: Option<String>,
    /// RFC 9457 extension members, sent as top-level JSON members.
    pub extensions: JsonObject,
}

/// What a [`Problem`] says: its members, with strings as their characters.
pub struct ProblemView {
    pub problem_type: Option<Seq<char>>,
    pub title: Seq<char>,
    pub status: u16,
    pub detail: Option<Seq<char>>,
    pub instance: Option<Seq<char>>,
    pub extensions: Map<Seq<char>, serde_json::Value>,
}

/// The characters of an optional string.
pub open spec fn opt_chars(s: Option<String>) -> Option<Seq<char>> {
    match s {
        Some(s) => Some(s@),
        None => None,
    }
}

impl View for Problem {
    type V = ProblemView;

    open spec fn view(&self) -> ProblemView {
        ProblemView {
            problem_type: opt_chars(self.problem_type),
            title: self.title@,
            status: self.status,
            detail: opt_chars(self.detail),
            instance: opt_chars(self.instance),
            extensions: json_object_members(self.extensions),
        }
    }
}

/// A fresh problem for `status`: the status's default title, no type, detail or
/// instance, and no extension members.
pub open spec fn spec_new_problem(status: u16) -> ProblemView {
    ProblemView {
        problem_type: None,
        title: spec_status_title(status),
        status,
        detail: None,
        instance: None,
        extensions: no_members(),
    }
}

/// The problem that an error variant turns into: its status, its own title or else the
/// status's default one, and the variant's rendered message as detail unless the
/// variant is masked.
pub open spec fn spec_variant_problem(
    status: u16,
    title: Option<Seq<char>>,
    mask: bool,
    message: Seq<char>,
) -> ProblemView {
    ProblemView {
        title: match title {
            Some(t) => t,
            None => spec_status_title(status),
        },
        detail: if mask {
            None
        } else {
            Some(message)
        },
        ..spec_new_problem(status)
    }
}

/// The problem as it is sent: its status replaced by the status line it goes out with.
pub open spec fn spec_sent_problem(p: ProblemView) -> ProblemView {
    ProblemView { status: spec_response_status(p.status), ..p }
}

/// A problem ready to be sent: the HTTP status line, the content type, and the
/// problem whose JSON rendering is the body.
pub struct ProblemResponse {
    /// The HTTP status code of the response.
    pub status: u16,
    /// The `Content-Type` of the response.
    pub content_type: &'static str,
    /// The problem to render as the body; its `status` equals the status line.
    pub problem: Problem,
}

impl Problem {
    /// Creates a new problem for the given HTTP status code.
    /// The title is set from the status code.
    pub fn new(status: u16) -> (p: Self)
        ensures
            p@ == spec_new_problem(status),
            p.status == status,
            p.title@ == spec_status_title(status),
            p.problem_type is None,
            p.detail is None,
            p.instance is None,
            json_object_members(p.extensions).dom() == Set::<Seq<char>>::empty(),
    {
        Problem {
            problem_type: None,
            title: status_title(status).to_owned(),
            status,
            detail: None,
            instance: None,
            extensions: new_json_object(),
        }
    }

    /// Adds an RFC 9457 extension member, sent as a top-level JSON member.
    /// A member of the same name that was there before is replaced.
    pub fn extension(self, key: &str, value: serde_json::Value) -> (p: Self)
        ensures
            p@ == (ProblemView { extensions: self@.extensions.insert(key@, value), ..self@ }),
    {
        let mut p = self;
        let _ = json_object_insert(&mut p.extensions, key.to_owned(), value);
        p
    }

    /// Sets the problem type URI (a receiver reads a problem without one as `"about:blank"`).
    pub fn problem_type(self, t: &str) -> (p: Self)
        ensures
            p@ == (ProblemView { problem_type: Some(t@), ..self@ }),
    {
        let mut p = self;
        p.problem_type = Some(t.to_owned());
        p
    }

    /// Overrides the title.
    pub fn title(self, title: &str) -> (p: Self)
        ensures
            p@ == (ProblemView { title: title@, ..self@ }),
    {
        let mut p = self;
        p.title = title.to_owned();
        p
    }

    /// Adds a human-readable explanation for this specific occurrence.
    pub fn detail(self, detail: &str) -> (p: Self)
        ensures
            p@ == (ProblemView { detail: Some(detail@), ..self@ }),
    {
        let mut p = self;
        p.detail = Some(detail.to_owned());
        p
    }

    /// Adds a URI identifying this specific occurrence.
    pub fn instance(self, instance: &str) -> (p: Self)
        ensures
            p@ == (ProblemView { instance: Some(instance@), ..self@ }),
    {
        let mut p = self;
        p.instance = Some(instance.to_owned());
        p
    }

    /// The problem for one variant of an error enum: `status`, the variant's own
    /// `title` or else the status's default one, and `message` (the variant's
    /// rendered text) as detail, unless the variant is masked, in which case the
    /// message stays out of the problem.
    pub fn from_variant(status: u16, title: Option<&str>, mask: bool, message: &str) -> (p: Self)
        ensures
            p@ == spec_variant_problem(
                status,
                match title {
                    Some(t) => Some(t@),
                    None => None,
                },
                mask,
                message@,
            ),
            p.status == status,
            p.title@ == (match title {
                Some(t) => t@,
                None => spec_status_title(status),
            }),
            mask ==> p.detail is None,
            !mask ==> opt_chars(p.detail) == Some(message@),
            p.problem_type is None,
            p.instance is None,
            json_object_members(p.extensions).dom() == Set::<Seq<char>>::empty(),
    {
        let problem = match title {
            Some(t) => Problem::new(status).title(t),
            None => Problem::new(status).title(status_title(status)),
        };
        if mask {
            problem
        } else {
            problem.detail(message)
        }
    }

    /// The response this problem is sent as. A status code that `http` does not
    /// accept becomes 500, in the status line and in the problem's `status` member
    /// alike, so that the two always agree.
    pub fn into_response_parts(self) -> (r: ProblemResponse)
        ensures
            r.status == spec_response_status(self.status),
            r.problem@ == spec_sent_problem(self@),
            r.problem.status == r.status,
            r.content_type@ == PROBLEM_CONTENT_TYPE@,
            r.status == (if 100 <= self.status <= 999 { self.status } else { 500 }),
            r.problem.problem_type == self.problem_type,
            r.problem.title == self.title,
            r.problem.detail == self.detail,
            r.problem.instance == self.instance,
            r.problem.extensions == self.extensions,
            r.content_type@ == "application/problem+json"@,
    {
        let status = response_status(self.status);
        let mut problem = self;
        problem.status = status;
        ProblemResponse { status, content_type: PROBLEM_CONTENT_TYPE, problem }
    }

    /// `Problem::new(400)`.
    pub fn bad_request() -> (p: Self)
        ensures
            p@ == spec_new_problem(400),
    {
        Self::new(400)
    }

    /// `Problem::new(401)`.
    pub fn unauthorized() -> (p: Self)
        ensures
            p@ == spec_new_problem(401),
    {
        Self::new(401)
    }

    /// `Problem::new(403)`.
    pub fn forbidden() -> (p: Self)
        ensures
            p@ == spec_new_problem(403),
    {
        Self::new(403)
    }

    /// `Problem::new(404)`.
    pub fn not_found() -> (p: Self)
        ensures
            p@ == spec_new_problem(404),
    {
        Self::new(404)
    }

    /// `Problem::new(405)`.
    pub fn method_not_allowed() -> (p: Self)
        ensures
            p@ == spec_new_problem(405),
    {
        Self::new(405)
    }

    /// `Problem::new(409)`.
    pub fn conflict() -> (p: Self)
        ensures
            p@ == spec_new_problem(409),
    {
        Self::new(409)
    }

    /// `Problem::new(422)`.
    pub fn unprocessable_entity() -> (p: Self)
        ensures
            p@ == spec_new_problem(422),
    {
        Self::new(422)
    }

    /// `Problem::new(429)`.
    pub fn too_many_requests() -> (p: Self)
        ensures
            p@ == spec_new_problem(429),
    {
        Self::new(429)
    }

    /// `Problem::new(500)`.
    pub fn internal_server_error() -> (p: Self)
        ensures
            p@ == spec_new_problem(500),
    {
        Self::new(500)
    }

    /// `Problem::new(501)`.
    pub fn not_implemented() -> (p: Self)
        ensures
            p@ == spec_new_problem(501),
    {
        Self::new(501)
    }

    /// `Problem::new(503)`.
    pub fn service_unavailable() -> (p: Self)
        ensures
            p@ == spec_new_problem(503),
    {
        Self::new(503)
    }
}

/// A masked variant's problem is sent without detail, so the variant's message never
/// reaches the client; an unmasked variant's problem is sent with its message as
/// detail. Either way the sent status member agrees with the status line.
pub proof fn lemma_variant_detail_sent(
    status: u16,
    title: Option<Seq<char>>,
    mask: bool,
    message: Seq<char>,
)
    ensures
        ({
            let sent = spec_sent_problem(spec_variant_problem(status, title, mask, message));
            &&& mask ==> sent.detail is None
            &&& !mask ==> sent.detail == Some(message)
            &&& sent.status == spec_response_status(status)
        }),
{
}

/// A fresh problem has exactly the given status, the default title that
/// `status_title` gives that status, and no other member.
pub proof fn lemma_new_problem_members(status: u16)
    ensures
        spec_new_problem(status).status == status,
        spec_new_problem(status).title == spec_status_title(status),
        spec_new_problem(status).problem_type is None,
        spec_new_problem(status).detail is None,
        spec_new_problem(status).instance is None,
        spec_new_problem(status).extensions.dom() == Set::<Seq<char>>::empty(),
{
}

/// Sending a problem changes nothing but its status: a status code from 100 to 999
/// stays, any other becomes 500; type, title, detail, instance and extension members
/// are sent as they are.
pub proof fn lemma_sent_problem_members(p: ProblemView)
    ensures
        spec_sent_problem(p).status == (if 100 <= p.status <= 999 { p.status } else { 500 }),
        spec_sent_problem(p).problem_type == p.problem_type,
        spec_sent_problem(p).title == p.title,
        spec_sent_problem(p).detail == p.detail,
        spec_sent_problem(p).instance == p.instance,
        spec_sent_problem(p).extensions == p.extensions,
{
}

/// A variant's problem has the variant's status; its custom title where it has one
/// and otherwise the default title of its status, whether or not it is masked; the
/// message as detail exactly when it is not masked; and no other member.
pub proof fn lemma_variant_problem_members(
    status: u16,
    title: Option<Seq<char>>,
    mask: bool,
    message: Seq<char>,
)
    ensures
        spec_variant_problem(status, title, mask, message).status == status,
        title matches Some(t) ==> spec_variant_problem(status, title, mask, message).title == t,
        title is None ==> spec_variant_problem(status, title, mask, message).title
            == spec_status_title(status),
        spec_variant_problem(status, title, true, message).title == spec_variant_problem(
            status,
            title,
            false,
            message,
        ).title,
        mask ==> spec_variant_problem(status, title, mask, message).detail is None,
        !mask ==> spec_variant_problem(status, title, mask, message).detail == Some(message),
        spec_variant_problem(status, title, mask, message).problem_type is None,
        spec_variant_problem(status, title, mask, message).instance is None,
        spec_variant_problem(status, title, mask, message).extensions.dom() == Set::<
            Seq<char>,
        >::empty(),
{
}

} // verus!
