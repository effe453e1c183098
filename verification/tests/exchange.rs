use madsim_aws_sdk_s3::{Action, Client, Config, Event, Exchange};

type Addr = ([u8; 4], u16);
type Call = Exchange<Addr, &'static str, u32, &'static str>;

const ADDR: Addr = ([10, 0, 0, 1], 9000);

fn client() -> Client<Addr> {
    Client::from_conf(Config { endpoint_addr: ADDR })
}

fn begin(request: &'static str) -> Call {
    let (exchange, action): (Call, _) = client().send_request_io(request);
    assert_eq!(action, Action::Connect(ADDR));
    exchange
}

#[test]
fn round_trip_is_one_cycle() {
    let (exchange, action): (Call, _) = client().send_request_io("get");
    assert_eq!(action, Action::Connect(ADDR));
    assert_eq!(exchange, Exchange::Connecting { addr: ADDR, request: "get" });

    let (exchange, action) = exchange.step(Event::Connected);
    assert_eq!(action, Some(Action::OpenChannel(ADDR)));
    assert_eq!(exchange, Exchange::OpeningChannel { request: "get" });

    let (exchange, action) = exchange.step(Event::ChannelOpened);
    assert_eq!(action, Some(Action::Send("get")));
    assert_eq!(exchange, Exchange::Sending);

    let (exchange, action) = exchange.step(Event::Sent);
    assert_eq!(action, Some(Action::Receive));
    assert_eq!(exchange, Exchange::Receiving);

    let (exchange, action) = exchange.step(Event::Received(42));
    assert_eq!(action, None);
    assert_eq!(exchange, Exchange::Done(Ok(42)));
    assert_eq!(exchange.into_result(), Some(Ok(42)));
}

#[test]
fn failure_to_connect_ends_the_exchange() {
    let (exchange, action) = begin("get").step(Event::Failed("refused"));
    assert_eq!(action, None);
    assert_eq!(exchange.into_result(), Some(Err("refused")));
}

#[test]
fn failure_to_open_the_channel_ends_the_exchange() {
    let (exchange, _) = begin("get").step(Event::Connected);
    let (exchange, action) = exchange.step(Event::Failed("no channel"));
    assert_eq!(action, None);
    assert_eq!(exchange.into_result(), Some(Err("no channel")));
}

#[test]
fn failure_to_send_ends_the_exchange() {
    let (exchange, _) = begin("get").step(Event::Connected);
    let (exchange, _) = exchange.step(Event::ChannelOpened);
    let (exchange, action) = exchange.step(Event::Failed("peer gone"));
    assert_eq!(action, None);
    assert_eq!(exchange.into_result(), Some(Err("peer gone")));
}

#[test]
fn failure_to_receive_ends_the_exchange() {
    let (exchange, _) = begin("get").step(Event::Connected);
    let (exchange, _) = exchange.step(Event::ChannelOpened);
    let (exchange, _) = exchange.step(Event::Sent);
    let (exchange, action) = exchange.step(Event::Failed("closed"));
    assert_eq!(action, None);
    assert_eq!(exchange.into_result(), Some(Err("closed")));
}

#[test]
fn finished_exchange_ignores_events() {
    let (exchange, _) = begin("get").step(Event::Failed("refused"));
    let (exchange, action) = exchange.step(Event::Received(1));
    assert_eq!(action, None);
    let (exchange, action) = exchange.step(Event::Failed("again"));
    assert_eq!(action, None);
    assert_eq!(exchange.into_result(), Some(Err("refused")));
}

#[test]
fn event_out_of_turn_changes_nothing() {
    let (exchange, action) = begin("get").step(Event::Received(1));
    assert_eq!(action, None);
    assert_eq!(exchange, Exchange::Connecting { addr: ADDR, request: "get" });

    let (exchange, action) = exchange.step(Event::Sent);
    assert_eq!(action, None);
    assert_eq!(exchange, Exchange::Connecting { addr: ADDR, request: "get" });

    let (exchange, _) = exchange.step(Event::Connected);
    let (exchange, action) = exchange.step(Event::Connected);
    assert_eq!(action, None);
    assert_eq!(exchange, Exchange::OpeningChannel { request: "get" });
}

#[test]
fn unfinished_exchange_has_no_result() {
    assert_eq!(begin("get").into_result(), None);
    let (exchange, _) = begin("get").step(Event::Connected);
    assert_eq!(exchange.into_result(), None);
    let sending: Call = Exchange::Sending;
    assert_eq!(sending.into_result(), None);
    let receiving: Call = Exchange::Receiving;
    assert_eq!(receiving.into_result(), None);
}

#[test]
fn interleaved_calls_get_their_own_replies() {
    let shared = client();
    let (first, a1): (Call, _) = shared.send_request_io("first");
    let (second, a2): (Call, _) = shared.send_request_io("second");
    assert_eq!(a1, Action::Connect(ADDR));
    assert_eq!(a2, Action::Connect(ADDR));

    let (second, _) = second.step(Event::Connected);
    let (first, _) = first.step(Event::Connected);
    let (first, _) = first.step(Event::ChannelOpened);
    let (second, sent2) = second.step(Event::ChannelOpened);
    let (second, _) = second.step(Event::Sent);
    let (first, _) = first.step(Event::Sent);
    let (second, _) = second.step(Event::Received(2));
    let (first, _) = first.step(Event::Received(1));

    assert_eq!(sent2, Some(Action::Send("second")));
    assert_eq!(first.into_result(), Some(Ok(1)));
    assert_eq!(second.into_result(), Some(Ok(2)));
}

#[test]
fn failure_of_one_call_leaves_the_other() {
    let shared = client();
    let (first, _): (Call, _) = shared.send_request_io("first");
    let (second, _): (Call, _) = shared.send_request_io("second");

    let (first, _) = first.step(Event::Connected);
    let (second, _) = second.step(Event::Failed("refused"));
    let (first, _) = first.step(Event::ChannelOpened);
    let (first, _) = first.step(Event::Sent);
    let (first, _) = first.step(Event::Received(1));

    assert_eq!(first.into_result(), Some(Ok(1)));
    assert_eq!(second.into_result(), Some(Err("refused")));
}
