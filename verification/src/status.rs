//! The status line of a response: the canonical reason phrase of a status
//! code, with a fixed fallback for codes that have none.
use vstd::prelude::*;

verus! {

/// The canonical reason phrase of a status code, if the code has one.
/// The phrase is a fixed table keyed by the numeric code alone.
pub uninterp spec fn canonical_reason_of(code: u16) -> Option<Seq<char>>;

/// What the status text of a response is: the canonical reason phrase of
/// its code, or `"Unknown"` where the code has none.
pub open spec fn status_text_spec(code: u16) -> Seq<char> {
    match canonical_reason_of(code) {
        Some(s) => s,
        None => "Unknown"@,
    }
}

/// Relies on `http::StatusCode::canonical_reason` (the table behind
/// `reqwest::StatusCode`, which re-exports this type): the canonical reason
/// phrase is a fixed table keyed by the numeric code alone.
/// `http::StatusCode::from_u16` converts the code, rejecting everything
/// outside `100..=999`; such codes have no phrase in the table either.
#[verifier::external_body]
fn canonical_reason_lookup(code: u16) -> (r: Option<&'static str>)
    ensures
        match r {
            Some(s) => canonical_reason_of(code) == Some(s@),
            None => canonical_reason_of(code) is None,
        },
{
    match http::StatusCode::from_u16(code) {
        Ok(status) => status.canonical_reason(),
        Err(_) => None,
    }
}

/// Renders the status text of a response: the canonical reason phrase of
/// `code`, or `"Unknown"` where it has none.
pub fn status_text(code: u16) -> (r: String)
    ensures
        r@ == status_text_spec(code),
{
    match canonical_reason_lookup(code) {
        Some(s) => String::from_str(s),
        None => String::from_str("Unknown"),
    }
}

} // verus!
