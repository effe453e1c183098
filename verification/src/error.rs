//! What a request can fail with.

use crate::http::{checked_status, is_status_code};
use vstd::prelude::*;

verus! {

/// The raw response that accompanies a service error: a status and a body.
///
/// Every value holds a valid HTTP status code.
#[derive(Debug, PartialEq, Eq)]
pub struct RawResponse {
    status: u16,
    body: Vec<u8>,
}

impl RawResponse {
    #[verifier::type_invariant]
    spec fn valid(&self) -> bool {
        is_status_code(self.status)
    }

    /// The status code, as a number.
    pub closed spec fn spec_status(&self) -> u16 {
        self.status
    }

    /// The bytes of the body.
    pub closed spec fn spec_body(&self) -> Seq<u8> {
        self.body@
    }

    /// The response stands in for a real one: status 500 and no body.
    pub open spec fn is_placeholder(&self) -> bool {
        self.spec_status() == 500 && self.spec_body() == Seq::<u8>::empty()
    }

    /// A response with the given status and body, if `status` is a status code.
    pub fn new(status: u16, body: Vec<u8>) -> (raw: Option<Self>)
        ensures
            raw is Some <==> is_status_code(status),
            raw matches Some(r) ==> r.spec_status() == status && r.spec_body() == body@,
    {
        match checked_status(status) {
            Some(code) => Some(RawResponse { status: code, body }),
            None => None,
        }
    }

    /// The response attached where the transport carries no HTTP response.
    pub fn placeholder() -> (raw: Self)
        ensures
            raw.is_placeholder(),
    {
        Self::new(500, Vec::new()).unwrap()
    }

    /// The status code.
    #[verifier::when_used_as_spec(spec_status)]
    pub fn status(&self) -> (status: u16)
        ensures
            status == self.spec_status(),
            is_status_code(status),
    {
        proof {
            use_type_invariant(self);
        }
        self.status
    }

    /// The body.
    pub fn body(&self) -> (body: &Vec<u8>)
        ensures
            body@ == self.spec_body(),
    {
        &self.body
    }
}

/// Why a request did not yield the operation's success value.
#[derive(Debug, PartialEq, Eq)]
pub enum SdkError<E, F> {
    /// The exchange with the service failed; `F` is the transport's error.
    DispatchFailure(F),
    /// The service answered with the operation's own error.
    ServiceError {
        /// The error that the service reported.
        source: E,
        /// The response that came with it.
        raw: RawResponse,
    },
}

/// The reply was not of the type that the operation returns.
#[derive(Debug, Clone, Copy, PartialEq, Eq, Structural)]
pub struct ProtocolMismatch;

} // verus!
