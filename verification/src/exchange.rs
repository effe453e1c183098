//! One request's round trip, as decisions.
//!
//! An [`Exchange`] never touches a transport. It says what to do next
//! ([`Action`]) and is told what came of it ([`Event`]). The caller that owns
//! the transport performs the actions, in the order in which they are issued.

use vstd::prelude::*;

verus! {

/// What the transport is asked to do. `A` is its address type, `R` the request.
#[derive(Debug, PartialEq, Eq)]
pub enum Action<A, R> {
    /// Establish a connection to the address.
    Connect(A),
    /// Open one channel to the address over the connection.
    OpenChannel(A),
    /// Send the request over the channel.
    Send(R),
    /// Wait for one message on the channel.
    Receive,
}

/// What came of the last action. `P` is the transport's payload, `F` its error.
#[derive(Debug, PartialEq, Eq)]
pub enum Event<P, F> {
    /// The connection stands.
    Connected,
    /// The channel is open.
    ChannelOpened,
    /// The request has left.
    Sent,
    /// One message has arrived.
    Received(P),
    /// The action failed.
    Failed(F),
}

/// Where one round trip stands.
#[derive(Debug, PartialEq, Eq)]
pub enum Exchange<A, R, P, F> {
    /// Asked to connect; holds what the later actions need.
    Connecting { addr: A, request: R },
    /// Asked to open the channel.
    OpeningChannel { request: R },
    /// Asked to send.
    Sending,
    /// Asked to receive.
    Receiving,
    /// Over: the payload that arrived, or the failure that ended it.
    Done(Result<P, F>),
}

impl<A, R, P, F> Exchange<A, R, P, F> {
    /// The round trip is over.
    pub open spec fn is_done(self) -> bool {
        self is Done
    }

    /// `event` is what the pending action can end in.
    pub open spec fn awaits(self, event: Event<P, F>) -> bool {
        match (self, event) {
            (Exchange::Done(_), _) => false,
            (_, Event::Failed(_)) => true,
            (Exchange::Connecting { .. }, Event::Connected) => true,
            (Exchange::OpeningChannel { .. }, Event::ChannelOpened) => true,
            (Exchange::Sending, Event::Sent) => true,
            (Exchange::Receiving, Event::Received(_)) => true,
            _ => false,
        }
    }

    /// The exchange after `event`, and the action that it then asks for.
    ///
    /// An event that the exchange does not await changes nothing and asks for
    /// nothing. A failure ends the exchange wherever it stands. A success
    /// moves it one action on; the last one ends it with the payload.
    pub open spec fn spec_step(self, event: Event<P, F>) -> (Self, Option<Action<A, R>>) {
        if !self.awaits(event) {
            (self, None)
        } else if let Event::Failed(failure) = event {
            (Exchange::Done(Err(failure)), None)
        } else {
            match self {
                Exchange::Connecting { addr, request } => (
                    Exchange::OpeningChannel { request },
                    Some(Action::OpenChannel(addr)),
                ),
                Exchange::OpeningChannel { request } => (
                    Exchange::Sending,
                    Some(Action::Send(request)),
                ),
                Exchange::Sending => (Exchange::Receiving, Some(Action::Receive)),
                Exchange::Receiving => (Exchange::Done(Ok(event->Received_0)), None),
                Exchange::Done(_) => (self, None),
            }
        }
    }

    /// Takes the exchange one event on.
    pub fn step(self, event: Event<P, F>) -> (next: (Self, Option<Action<A, R>>))
        ensures
            next == self.spec_step(event),
    {
        match (self, event) {
            (Exchange::Done(result), _) => (Exchange::Done(result), None),
            (_, Event::Failed(failure)) => (Exchange::Done(Err(failure)), None),
            (Exchange::Connecting { addr, request }, Event::Connected) => (
                Exchange::OpeningChannel { request },
                Some(Action::OpenChannel(addr)),
            ),
            (Exchange::OpeningChannel { request }, Event::ChannelOpened) => (
                Exchange::Sending,
                Some(Action::Send(request)),
            ),
            (Exchange::Sending, Event::Sent) => (Exchange::Receiving, Some(Action::Receive)),
            (Exchange::Receiving, Event::Received(payload)) => (Exchange::Done(Ok(payload)), None),
            (state, _) => (state, None),
        }
    }

    /// What the round trip ended in, once it is over.
    pub fn into_result(self) -> (result: Option<Result<P, F>>)
        ensures
            result == match self {
                Exchange::Done(r) => Some(r),
                _ => None,
            },
    {
        match self {
            Exchange::Done(r) => Some(r),
            _ => None,
        }
    }
}

} // verus!
