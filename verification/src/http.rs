//! HTTP status codes as the client reports them.

use vstd::prelude::*;
use crate::config::opt_view;
use crate::text::{concat3, decimal, u64_to_decimal};

verus! {

/// The reason phrase that the `http` crate's table gives `code`, if any.
pub uninterp spec fn reason_phrase(code: u16) -> Option<Seq<char>>;

/// `http::StatusCode::canonical_reason` (through `reqwest::StatusCode`) for
/// a valid code: the phrase of the crate's status table. The contract names
/// the result as `reason_phrase` of the code and does not restate the table.
#[verifier::external_body]
fn canonical_reason(code: u16) -> (r: Option<String>)
    requires
        100 <= code <= 999,
    ensures
        opt_view(r) == reason_phrase(code),
{
    reqwest::StatusCode::from_u16(code).ok().and_then(|s| s.canonical_reason()).map(|p| p.to_string())
}

/// A 2xx status (what `StatusCode::is_success` answers).
pub open spec fn is_success(code: u16) -> bool {
    200 <= code <= 299
}

/// How a status code is written (`StatusCode`'s `Display`): the number, a
/// space, then the reason phrase or `<unknown status code>`.
pub open spec fn status_text_spec(code: u16) -> Seq<char> {
    decimal(code as nat) + " "@ + match reason_phrase(code) {
        Some(p) => p,
        None => "<unknown status code>"@,
    }
}

/// Writes a status code as `StatusCode`'s `Display` does, e.g. `404 Not Found`.
pub fn status_text(code: u16) -> (r: String)
    requires
        100 <= code <= 999,
    ensures
        r@ == status_text_spec(code),
{
    let n = u64_to_decimal(code as u64);
    match canonical_reason(code) {
        Some(p) => concat3(n.as_str(), " ", p.as_str()),
        None => concat3(n.as_str(), " ", "<unknown status code>"),
    }
}

} // verus!
