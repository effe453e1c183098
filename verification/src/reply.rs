//! From what the transport delivered to the caller's typed result.
//!
//! The transport's payload is untyped. The caller tries to read it as the
//! operation's `Result<O, E>` and hands on what it found: `Some` with the
//! value, or `None` where the payload was of another type.

use crate::error::{ProtocolMismatch, RawResponse, SdkError};
use vstd::prelude::*;

verus! {

/// `out` is what the operation's own result `typed` becomes for the caller:
/// a success unchanged, an error as a service error around the same value
/// with the placeholder response.
pub open spec fn reconstructs<O, E, F>(typed: Result<O, E>, out: Result<O, SdkError<E, F>>) -> bool {
    match typed {
        Ok(value) => out == Ok::<O, SdkError<E, F>>(value),
        Err(error) => out matches Err(SdkError::ServiceError { source, raw }) && source == error
            && raw.is_placeholder(),
    }
}

/// `out` is the verdict on `reply`, the outcome of one round trip:
/// - the transport failed: a dispatch failure around that failure;
/// - the payload was not a `Result<O, E>`: a protocol mismatch, and nothing else;
/// - the payload was a `Result<O, E>`: what [`reconstructs`] says of it.
pub open spec fn answers<O, E, F>(
    reply: Result<Option<Result<O, E>>, F>,
    out: Result<Result<O, SdkError<E, F>>, ProtocolMismatch>,
) -> bool {
    match reply {
        Err(failure) => out == Ok::<Result<O, SdkError<E, F>>, ProtocolMismatch>(
            Err(SdkError::DispatchFailure(failure)),
        ),
        Ok(None) => out == Err::<Result<O, SdkError<E, F>>, ProtocolMismatch>(ProtocolMismatch),
        Ok(Some(typed)) => out matches Ok(result) && reconstructs(typed, result),
    }
}

/// Turns the operation's own result into the caller's.
pub fn reconstruct<O, E, F>(typed: Result<O, E>) -> (out: Result<O, SdkError<E, F>>)
    ensures
        reconstructs(typed, out),
{
    match typed {
        Ok(value) => Ok(value),
        Err(error) => Err(SdkError::ServiceError { source: error, raw: RawResponse::placeholder() }),
    }
}

/// Decides what one round trip yields.
///
/// `reply` is the transport's failure, or its payload read as `Result<O, E>`
/// (`None` where it was of another type). A mismatch is a defect of the
/// pairing of client and service, told apart from every [`SdkError`].
pub fn send_request<O, E, F>(reply: Result<Option<Result<O, E>>, F>) -> (out: Result<
    Result<O, SdkError<E, F>>,
    ProtocolMismatch,
>)
    ensures
        answers(reply, out),
{
    match reply {
        Err(failure) => Ok(Err(SdkError::DispatchFailure(failure))),
        Ok(None) => Err(ProtocolMismatch),
        Ok(Some(typed)) => Ok(reconstruct(typed)),
    }
}

} // verus!
