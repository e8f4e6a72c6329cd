//! Wire-level responses: the structured error response of a rejection, and
//! the attribution header added to responses that went upstream.
use vstd::prelude::*;
use vstd::string::StringExecFns;
use crate::json::{json_quoted, needs_no_escape, quote};

verus! {

/// An error response, ready to be sent in place of the upstream's.
#[derive(Debug, PartialEq, Eq)]
pub struct ErrorResponse {
    pub status: u32,
    pub headers: Vec<(String, String)>,
    pub body: String,
}

/// A header list as pairs of texts.
pub open spec fn headers_view(h: Seq<(String, String)>) -> Seq<(Seq<char>, Seq<char>)> {
    h.map_values(|p: (String, String)| (p.0@, p.1@))
}

/// The headers of every error response.
pub open spec fn error_headers() -> Seq<(Seq<char>, Seq<char>)> {
    seq![("Content-Type"@, "application/json"@), ("Powered-By"@, "pdk"@)]
}

/// The body of an error response: `{"error": <message as a JSON string>}`.
pub open spec fn error_body(message: Seq<char>) -> Seq<char> {
    "{\"error\": "@ + json_quoted(message) + "}"@
}

/// The body of an error response whose message needs no escaping.
pub open spec fn plain_error_body(message: Seq<char>) -> Seq<char> {
    "{\"error\": \""@ + message + "\"}"@
}

/// The header added to every response that reached the upstream.
pub open spec fn attribution() -> (Seq<char>, Seq<char>) {
    ("Powered-by"@, "PDK"@)
}

fn header(name: &str, value: &str) -> (r: (String, String))
    ensures
        r.0@ == name@,
        r.1@ == value@,
{
    (name.to_owned(), value.to_owned())
}

/// Builds the error response of a rejection.
pub fn error_message(message: &str, status_code: u32) -> (r: ErrorResponse)
    ensures
        r.status == status_code,
        headers_view(r.headers@) == error_headers(),
        r.body@ == error_body(message@),
        needs_no_escape(message@) ==> r.body@ == plain_error_body(message@),
{
    let mut headers: Vec<(String, String)> = Vec::new();
    headers.push(header("Content-Type", "application/json"));
    headers.push(header("Powered-By", "pdk"));
    proof {
        assert(headers_view(headers@) =~= error_headers());
    }
    let quoted = quote(message);
    let body = "{\"error\": ".to_owned().concat(quoted.as_str()).concat("}");
    proof {
        if needs_no_escape(message@) {
            reveal_strlit("{\"error\": ");
            reveal_strlit("{\"error\": \"");
            reveal_strlit("}");
            reveal_strlit("\"}");
            assert(body@ =~= plain_error_body(message@));
        }
    }
    ErrorResponse { status: status_code, headers, body }
}

/// Adds the attribution header to the headers of a response that reached
/// the upstream, whatever headers the upstream set.
pub fn decorate_response(headers: &mut Vec<(String, String)>)
    ensures
        headers_view(final(headers)@) == headers_view(old(headers)@).push(attribution()),
{
    headers.push(header("Powered-by", "PDK"));
    proof {
        assert(headers_view(headers@) =~= headers_view(old(headers)@).push(attribution()));
    }
}

} // verus!
