//! The client handle.

use crate::config::Config;
use crate::exchange::{Action, Exchange};
use std::sync::Arc;
use vstd::prelude::*;
use vstd::std_specs::convert::IntoSpec;

verus! {

/// A handle on a shared, immutable configuration.
#[derive(Debug)]
pub struct Client<A> {
    config: Arc<Config<A>>,
}

impl<A> View for Client<A> {
    type V = Config<A>;

    /// The configuration that this client was made from.
    closed spec fn view(&self) -> Config<A> {
        *self.config
    }
}

/// Another handle on what `shared` points to, by `Arc::clone`.
///
/// Trusted: `Arc::clone` is documented to give a pointer to the same
/// allocation, so the new handle reads the same value.
#[verifier::external_body]
fn share<T>(shared: &Arc<T>) -> (handle: Arc<T>)
    ensures
        *handle == **shared,
{
    Arc::clone(shared)
}

impl<A> Clone for Client<A> {
    /// Another handle on the same configuration.
    fn clone(&self) -> (copy: Self)
        ensures
            copy@ == self@,
    {
        Client { config: share(&self.config) }
    }
}

impl<A> Client<A> {
    /// How a round trip for `request` begins under `conf`: asked to connect
    /// to the configured address, with the request held for sending.
    pub open spec fn spec_send_request_io<R, P, F>(conf: Config<A>, request: R) -> (
        Exchange<A, R, P, F>,
        Action<A, R>,
    ) {
        (
            Exchange::Connecting { addr: conf.endpoint_addr, request },
            Action::Connect(conf.endpoint_addr),
        )
    }

    /// Makes a client that shares `conf`.
    pub fn from_conf(conf: Config<A>) -> (client: Self)
        ensures
            client@ == conf,
    {
        Client { config: Arc::new(conf) }
    }

    /// Converts `sdk_config` into a [`Config`] and makes a client from it:
    /// the client holds what the conversion gave, which is the conversion's
    /// stated result where it states one.
    pub fn new<S: Into<Config<A>>>(sdk_config: S) -> (client: Self)
        ensures
            call_ensures(<S as Into<Config<A>>>::into, (sdk_config,), client@),
            <S as IntoSpec<Config<A>>>::obeys_into_spec() ==> client@ == <S as IntoSpec<
                Config<A>,
            >>::into_spec(sdk_config),
    {
        Self::from_conf(sdk_config.into())
    }

    /// Begins the round trip for `request`: the exchange, and its first
    /// action. Both name the configured address; the client is left as it is.
    pub fn send_request_io<R, P, F>(&self, request: R) -> (start: (Exchange<A, R, P, F>, Action<A, R>))
        where A: Copy
        ensures
            start == Self::spec_send_request_io::<R, P, F>(self@, request),
    {
        let addr = self.config.endpoint_addr;
        (Exchange::Connecting { addr, request }, Action::Connect(addr))
    }

    /// The configuration behind this client.
    pub fn config(&self) -> (conf: &Config<A>)
        ensures
            *conf == self@,
    {
        &*self.config
    }
}

} // verus!
