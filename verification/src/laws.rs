//! What holds of every round trip.

use crate::client::Client;
use crate::config::Config;
use crate::error::{ProtocolMismatch, SdkError};
use crate::exchange::{Action, Event, Exchange};
use crate::reply::answers;
use vstd::prelude::*;

verus! {

/// The exchange after a whole sequence of events, taken in order.
pub open spec fn run<A, R, P, F>(start: Exchange<A, R, P, F>, events: Seq<Event<P, F>>) -> Exchange<
    A,
    R,
    P,
    F,
>
    decreases events.len(),
{
    if events.len() == 0 {
        start
    } else {
        run(start, events.drop_last()).spec_step(events.last()).0
    }
}

/// The action that the `k`-th event of a run leads to, if any.
pub open spec fn asked<A, R, P, F>(
    start: Exchange<A, R, P, F>,
    events: Seq<Event<P, F>>,
    k: int,
) -> Option<Action<A, R>> {
    run(start, events.take(k)).spec_step(events[k]).1
}

/// An action that names an address names `addr`.
pub open spec fn aims_at<A, R>(action: Option<Action<A, R>>, addr: A) -> bool {
    match action {
        Some(Action::Connect(a)) => a == addr,
        Some(Action::OpenChannel(a)) => a == addr,
        _ => true,
    }
}

/// No exchange that will still name an address holds another than `addr`.
pub open spec fn bound_to<A, R, P, F>(exchange: Exchange<A, R, P, F>, addr: A) -> bool {
    exchange matches Exchange::Connecting { addr: a, .. } ==> a == addr
}

/// Two exchanges after a shared sequence of events, each event marked with
/// whether it belongs to the first exchange, and handed to its own exchange
/// alone.
pub open spec fn run_both<A, R, P, F>(
    first: Exchange<A, R, P, F>,
    second: Exchange<A, R, P, F>,
    trace: Seq<(bool, Event<P, F>)>,
) -> (Exchange<A, R, P, F>, Exchange<A, R, P, F>)
    decreases trace.len(),
{
    if trace.len() == 0 {
        (first, second)
    } else {
        let before = run_both(first, second, trace.drop_last());
        if trace.last().0 {
            (before.0.spec_step(trace.last().1).0, before.1)
        } else {
            (before.0, before.1.spec_step(trace.last().1).0)
        }
    }
}

/// The events of `trace` that belong to one of the two exchanges, in order.
pub open spec fn events_of<P, F>(trace: Seq<(bool, Event<P, F>)>, of_first: bool) -> Seq<
    Event<P, F>,
>
    decreases trace.len(),
{
    if trace.len() == 0 {
        Seq::empty()
    } else if trace.last().0 == of_first {
        events_of(trace.drop_last(), of_first).push(trace.last().1)
    } else {
        events_of(trace.drop_last(), of_first)
    }
}

/// An exchange that is over stays as it is, whatever is reported to it.
pub proof fn lemma_done_is_final<A, R, P, F>(result: Result<P, F>, events: Seq<Event<P, F>>)
    ensures
        run(Exchange::<A, R, P, F>::Done(result), events) == Exchange::<A, R, P, F>::Done(result),
    decreases events.len(),
{
    if events.len() > 0 {
        lemma_done_is_final::<A, R, P, F>(result, events.drop_last());
    }
}

/// A run over two sequences of events, one after the other, is the run over
/// the second from where the first one ended.
pub proof fn lemma_run_concat<A, R, P, F>(
    start: Exchange<A, R, P, F>,
    head: Seq<Event<P, F>>,
    tail: Seq<Event<P, F>>,
)
    ensures
        run(start, head + tail) == run(run(start, head), tail),
    decreases tail.len(),
{
    if tail.len() == 0 {
        assert(head + tail =~= head);
    } else {
        lemma_run_concat(start, head, tail.drop_last());
        assert((head + tail).drop_last() =~= head + tail.drop_last());
        assert((head + tail).last() == tail.last());
    }
}

/// One round trip is one cycle: under `conf`, a request whose four actions
/// all succeed is connected to the configured address, given one channel to
/// that address, sent as it was handed in, and answered by the one payload
/// that arrives.
pub proof fn lemma_one_cycle<A, R, P, F>(conf: Config<A>, request: R, payload: P)
    ensures
        ({
            let start = Client::<A>::spec_send_request_io::<R, P, F>(conf, request);
            let events = seq![
                Event::<P, F>::Connected,
                Event::<P, F>::ChannelOpened,
                Event::<P, F>::Sent,
                Event::<P, F>::Received(payload),
            ];
            &&& start.1 == Action::<A, R>::Connect(conf.endpoint_addr)
            &&& asked(start.0, events, 0) == Some(Action::<A, R>::OpenChannel(conf.endpoint_addr))
            &&& asked(start.0, events, 1) == Some(Action::<A, R>::Send(request))
            &&& asked(start.0, events, 2) == Some(Action::<A, R>::Receive)
            &&& asked(start.0, events, 3) == None::<Action<A, R>>
            &&& run(start.0, events) == Exchange::<A, R, P, F>::Done(Ok(payload))
        }),
{
    let start = Client::<A>::spec_send_request_io::<R, P, F>(conf, request);
    let events = seq![
        Event::<P, F>::Connected,
        Event::<P, F>::ChannelOpened,
        Event::<P, F>::Sent,
        Event::<P, F>::Received(payload),
    ];
    let e0 = events.take(0);
    let e1 = events.take(1);
    let e2 = events.take(2);
    let e3 = events.take(3);
    assert(e1.drop_last() =~= e0);
    assert(e2.drop_last() =~= e1);
    assert(e3.drop_last() =~= e2);
    assert(events.drop_last() =~= e3);
    assert(run(start.0, e0) == start.0);
    assert(run(start.0, e1) == Exchange::<A, R, P, F>::OpeningChannel { request });
    assert(run(start.0, e2) == Exchange::<A, R, P, F>::Sending);
    assert(run(start.0, e3) == Exchange::<A, R, P, F>::Receiving);
}

/// A transport failure ends a round trip at once, whichever action it struck,
/// and the caller is given that very failure as a dispatch failure: never a
/// success, never a service error.
pub proof fn lemma_failure_is_dispatch_failure<A, R, P, F, O, E>(
    exchange: Exchange<A, R, P, F>,
    failure: F,
    later: Seq<Event<P, F>>,
    out: Result<Result<O, SdkError<E, F>>, ProtocolMismatch>,
)
    requires
        !exchange.is_done(),
        answers(Err::<Option<Result<O, E>>, F>(failure), out),
    ensures
        exchange.spec_step(Event::Failed(failure)) == (
            Exchange::<A, R, P, F>::Done(Err(failure)),
            None::<Action<A, R>>,
        ),
        run(exchange, seq![Event::<P, F>::Failed(failure)] + later) == Exchange::<
            A,
            R,
            P,
            F,
        >::Done(Err(failure)),
        out == Ok::<Result<O, SdkError<E, F>>, ProtocolMismatch>(
            Err(SdkError::DispatchFailure(failure)),
        ),
{
    let one = seq![Event::<P, F>::Failed(failure)];
    assert(one.drop_last() =~= Seq::<Event<P, F>>::empty());
    assert(run(exchange, one.drop_last()) == exchange);
    assert(run(exchange, one) == Exchange::<A, R, P, F>::Done(Err(failure)));
    lemma_run_concat(exchange, one, later);
    lemma_done_is_final::<A, R, P, F>(Err(failure), later);
}

/// The configured address is read, never changed: every round trip begun
/// under `conf` starts by connecting to `conf`'s address, and whatever is
/// reported to it, each later action that names an address names that one.
pub proof fn lemma_address_is_fixed<A, R, P, F>(
    conf: Config<A>,
    request: R,
    events: Seq<Event<P, F>>,
    k: int,
)
    requires
        0 <= k < events.len(),
    ensures
        Client::<A>::spec_send_request_io::<R, P, F>(conf, request).1 == Action::<A, R>::Connect(
            conf.endpoint_addr,
        ),
        aims_at(
            asked(Client::<A>::spec_send_request_io::<R, P, F>(conf, request).0, events, k),
            conf.endpoint_addr,
        ),
{
    let start = Client::<A>::spec_send_request_io::<R, P, F>(conf, request).0;
    lemma_run_keeps_address(start, conf.endpoint_addr, events.take(k));
}

/// A run keeps an exchange bound to its address.
pub proof fn lemma_run_keeps_address<A, R, P, F>(
    start: Exchange<A, R, P, F>,
    addr: A,
    events: Seq<Event<P, F>>,
)
    requires
        bound_to(start, addr),
    ensures
        bound_to(run(start, events), addr),
        forall|event: Event<P, F>| aims_at(#[trigger] run(start, events).spec_step(event).1, addr),
    decreases events.len(),
{
    if events.len() > 0 {
        lemma_run_keeps_address(start, addr, events.drop_last());
    }
}

/// Round trips do not interfere: where the events of two exchanges arrive
/// interleaved, each exchange ends where it would have ended had it been
/// given its own events alone.
pub proof fn lemma_exchanges_are_independent<A, R, P, F>(
    first: Exchange<A, R, P, F>,
    second: Exchange<A, R, P, F>,
    trace: Seq<(bool, Event<P, F>)>,
)
    ensures
        run_both(first, second, trace) == (
            run(first, events_of(trace, true)),
            run(second, events_of(trace, false)),
        ),
    decreases trace.len(),
{
    if trace.len() > 0 {
        lemma_exchanges_are_independent(first, second, trace.drop_last());
        let mine = events_of(trace.drop_last(), trace.last().0);
        assert(mine.push(trace.last().1).drop_last() =~= mine);
    }
}

} // verus!
