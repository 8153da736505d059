//! The request/response pipeline: a caller-supplied description is turned
//! into a plan for one outbound request, and the raw pieces of one network
//! exchange are assembled into the structured response handed back.
use vstd::prelude::*;

use crate::method::{parsed_method, unsupported_method_message, Method};
use crate::status::{status_text, status_text_spec};
use crate::text::{header_value_text, header_value_text_spec, normalize_body, normalized_body_spec};

verus! {

/// One outbound request, validated and normalized: the recognised verb, the
/// target URL as supplied, the headers exactly as supplied, and the body
/// unless it was blank.
#[derive(Debug)]
pub struct RequestPlan {
    pub method: Method,
    pub url: String,
    pub headers: Vec<(String, String)>,
    pub body: Option<String>,
}

/// The structured result of one completed exchange: status code, status
/// text, the response headers as text, the body, and the elapsed time in
/// whole milliseconds.
#[derive(Debug)]
pub struct HttpResponse {
    pub status: u16,
    pub status_text: String,
    pub headers: Vec<(String, String)>,
    pub body: String,
    pub response_time: u64,
}

/// Validates and normalizes a request description into a plan.
///
/// A plan is produced exactly when the method string denotes a supported
/// verb in some ASCII letter case; it carries the URL and every header pair
/// through unchanged, and drops a blank body. Any other method string is
/// rejected with a message naming it, and nothing else is looked at.
pub fn prepare(method: &str, url: String, headers: Vec<(String, String)>, body: Option<String>)
    -> (r: Result<RequestPlan, String>)
    ensures
        match parsed_method(method@) {
            Some(m) => (r matches Ok(p)
                && p.method == m
                && p.url == url
                && p.headers == headers
                && p.body.deep_view() == normalized_body_spec(body.deep_view())),
            None => (r matches Err(e) && e@ == unsupported_method_message(method@)),
        },
{
    match crate::method::parse_method(method) {
        Ok(m) => Ok(RequestPlan { method: m, url, headers, body: normalize_body(body) }),
        Err(e) => Err(e),
    }
}

/// What the response body field holds: the body text where it could be
/// read, and a diagnostic naming the read failure where it could not.
pub open spec fn body_text_spec(outcome: Result<Seq<char>, Seq<char>>) -> Seq<char> {
    match outcome {
        Ok(t) => t,
        Err(e) => "Failed to read response body: "@ + e,
    }
}

/// Renders the body of a response, degrading a read failure into a
/// diagnostic string rather than failing the call.
pub fn body_text(outcome: Result<String, String>) -> (r: String)
    ensures
        match outcome {
            Ok(t) => r@ == body_text_spec(Ok(t@)),
            Err(e) => r@ == body_text_spec(Err(e@)),
        },
{
    match outcome {
        Ok(t) => t,
        Err(e) => {
            let mut r = String::from_str("Failed to read response body: ");
            r.append(e.as_str());
            r
        },
    }
}

/// The message a transport failure surfaces as; it wraps the cause.
pub open spec fn transport_failure_spec(cause: Seq<char>) -> Seq<char> {
    "Request failed: "@ + cause
}

/// Wraps the cause of a transport failure in the error message the call
/// fails with. The message is never empty, whatever the cause.
pub fn transport_failure_message(cause: &str) -> (r: String)
    ensures
        r@ == transport_failure_spec(cause@),
        r@.len() > 0,
{
    proof {
        reveal_strlit("Request failed: ");
    }
    let mut r = String::from_str("Request failed: ");
    r.append(cause);
    r
}

/// Assembles the structured response of one completed exchange from its raw
/// pieces: the status code as received, its canonical reason text (or
/// `"Unknown"`), each header key with its value rendered as text, the body
/// or a read-failure diagnostic, and the measured elapsed time.
pub fn finish(
    status: u16,
    raw_headers: Vec<(String, Vec<u8>)>,
    body_outcome: Result<String, String>,
    elapsed_ms: u64,
) -> (r: HttpResponse)
    ensures
        r.status == status,
        r.status_text@ == status_text_spec(status),
        r.headers@.len() == raw_headers@.len(),
        forall|i: int| 0 <= i < raw_headers@.len() ==> (#[trigger] r.headers@[i]).0
            == raw_headers@[i].0 && r.headers@[i].1@ == header_value_text_spec(raw_headers@[i].1@),
        (match body_outcome {
            Ok(t) => r.body@ == body_text_spec(Ok(t@)),
            Err(e) => r.body@ == body_text_spec(Err(e@)),
        }),
        r.response_time == elapsed_ms,
{
    let mut headers: Vec<(String, String)> = Vec::new();
    let n = raw_headers.len();
    let mut i: usize = 0;
    while i < n
        invariant
            n == raw_headers@.len(),
            i <= n,
            headers@.len() == i,
            forall|j: int| 0 <= j < i ==> (#[trigger] headers@[j]).0 == raw_headers@[j].0
                && headers@[j].1@ == header_value_text_spec(raw_headers@[j].1@),
        decreases n - i,
    {
        let key = raw_headers[i].0.clone();
        let value = header_value_text(&raw_headers[i].1);
        headers.push((key, value));
        i += 1;
    }
    HttpResponse {
        status,
        status_text: status_text(status),
        headers,
        body: body_text(body_outcome),
        response_time: elapsed_ms,
    }
}

} // verus!
