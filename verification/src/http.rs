//! What the HTTP-shaped error types of the AWS runtime accept.

use aws_smithy_runtime_api::http::StatusCode;
use vstd::prelude::*;

verus! {

/// The numbers that are HTTP status codes: three decimal digits.
pub open spec fn is_status_code(value: u16) -> bool {
    100 <= value && value < 1000
}

/// Asks `aws_smithy_runtime_api::http::StatusCode::try_from` whether `value`
/// is a status code, and reads an accepted code back with `as_u16`.
///
/// Trusted: the contract restates the range test in that crate's source,
/// which accepts `100..1000` and keeps the number as it is.
#[verifier::external_body]
pub(crate) fn checked_status(value: u16) -> (code: Option<u16>)
    ensures
        is_status_code(value) ==> code == Some(value),
        !is_status_code(value) ==> code.is_none(),
{
    match StatusCode::try_from(value) {
        Ok(status) => Some(status.as_u16()),
        Err(_) => None,
    }
}

} // verus!
