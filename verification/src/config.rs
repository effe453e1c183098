//! Client configuration.

use vstd::prelude::*;

verus! {

/// What a client is configured with: the address of the remote service.
///
/// The address type `A` is the transport's; the library hands it on unread.
#[derive(Debug, PartialEq, Eq)]
pub struct Config<A> {
    /// Where the service listens.
    pub endpoint_addr: A,
}

impl<A: Clone> Clone for Config<A> {
    /// A configuration for the same address.
    fn clone(&self) -> (copy: Self)
        ensures
            cloned(self.endpoint_addr, copy.endpoint_addr),
    {
        Config { endpoint_addr: self.endpoint_addr.clone() }
    }
}

} // verus!
