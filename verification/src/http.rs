//! What the crate needs to know about HTTP status codes.

use vstd::prelude::*;

verus! {

/// The status of an answer that names a resource the server does not have.
pub const NOT_FOUND: u16 = 404;

/// A status in the success class, 200 to 299.
pub open spec fn is_success_status(status: u16) -> bool {
    200 <= status < 300
}

/// Tells whether `status` is in the success class.
pub fn is_success(status: u16) -> (r: bool)
    ensures
        r == is_success_status(status),
{
    200 <= status && status < 300
}

/// How `reqwest::StatusCode` displays `status`: the number and the reason phrase
/// that the `http` crate's table holds for it, or what the crate says of a
/// number that is no status code.
pub uninterp spec fn status_display(status: u16) -> Seq<char>;

/// Converts `status` with `reqwest::StatusCode::from_u16` and formats the
/// outcome with its `Display`. The contract only names the text: it depends on
/// `status` alone.
#[verifier::external_body]
pub(crate) fn status_text(status: u16) -> (r: String)
    ensures
        r@ == status_display(status),
{
    match reqwest::StatusCode::from_u16(status) {
        Ok(code) => code.to_string(),
        Err(invalid) => invalid.to_string(),
    }
}

} // verus!
