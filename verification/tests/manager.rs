use ws_client::event::{Command, Effect, NetworkEvent, Update};
use ws_client::manager::{
    on_close, on_decoded, on_error, on_message, on_open, open_ws, wired, Dropped, Payload, Slot,
    WS_URL,
};
use ws_client::state::{Model, NetworkState, WSClosure};

type Event = NetworkEvent<u32, u16, u8, String, i64>;
type TestModel = Model<u32, u16, u8>;

fn encode(request: String) -> Vec<u8> {
    request.into_bytes()
}

/// A codec for the tests: a response is eight bytes, big endian.
fn decode(bytes: Vec<u8>) -> Result<i64, String> {
    match <[u8; 8]>::try_from(bytes.as_slice()) {
        Ok(word) => Ok(i64::from_be_bytes(word)),
        Err(_) => Err(format!("{} bytes", bytes.len())),
    }
}

fn never_decode(_bytes: Vec<u8>) -> Result<i64, String> {
    panic!("the decoder must not run")
}

fn reduce(event: Event, model: &mut TestModel) -> Update<i64> {
    NetworkEvent::reducer(event, model, encode)
}

/// Opens a connection as a host does: publishes the transport, then wires
/// the slots in the order that the library gives, taking the callback of
/// each from `callback`.
fn open(ws: u32, callback: fn(Slot) -> WSClosure<u16, u8>) -> (Vec<Slot>, Vec<Event>) {
    let mut slots = Vec::new();
    let mut events = Vec::new();
    let (event, first) = open_ws(ws);
    events.push(event);
    let mut slot = Some(first);
    while let Some(current) = slot {
        slots.push(current);
        let (event, next) = wired(current, callback(current));
        events.push(event);
        slot = next;
    }
    (slots, events)
}

fn first_callbacks(slot: Slot) -> WSClosure<u16, u8> {
    match slot {
        Slot::Open => WSClosure::HandleV(1),
        Slot::Close => WSClosure::HandleV(2),
        Slot::Message => WSClosure::HandleM(300),
        Slot::Error => WSClosure::HandleV(4),
    }
}

fn second_callbacks(slot: Slot) -> WSClosure<u16, u8> {
    match slot {
        Slot::Open => WSClosure::HandleV(5),
        Slot::Close => WSClosure::HandleV(6),
        Slot::Message => WSClosure::HandleM(700),
        Slot::Error => WSClosure::HandleV(8),
    }
}

#[test]
fn endpoint_is_fixed() {
    assert_eq!(WS_URL, "ws://127.0.0.1:8080/ws/");
}

#[test]
fn open_starts_with_the_transport_and_the_open_slot() {
    let (event, first): (Event, Slot) = open_ws(10);
    assert_eq!(event, NetworkEvent::NewSocket(10));
    assert_eq!(first, Slot::Open);
}

#[test]
fn wired_publishes_the_callback_and_names_the_next_slot() {
    let step: (Event, Option<Slot>) = wired(Slot::Open, WSClosure::HandleV(1));
    assert_eq!(step, (NetworkEvent::NewClosure(WSClosure::HandleV(1)), Some(Slot::Close)));
    let step: (Event, Option<Slot>) = wired(Slot::Close, WSClosure::HandleV(2));
    assert_eq!(step, (NetworkEvent::NewClosure(WSClosure::HandleV(2)), Some(Slot::Message)));
    let step: (Event, Option<Slot>) = wired(Slot::Message, WSClosure::HandleM(300));
    assert_eq!(step, (NetworkEvent::NewClosure(WSClosure::HandleM(300)), Some(Slot::Error)));
    let step: (Event, Option<Slot>) = wired(Slot::Error, WSClosure::HandleV(4));
    assert_eq!(step, (NetworkEvent::NewClosure(WSClosure::HandleV(4)), None));
}

#[test]
fn open_publishes_transport_then_callbacks() {
    let (slots, events) = open(10, first_callbacks);
    assert_eq!(slots, vec![Slot::Open, Slot::Close, Slot::Message, Slot::Error]);
    assert_eq!(
        events,
        vec![
            NetworkEvent::NewSocket(10),
            NetworkEvent::NewClosure(WSClosure::HandleV(1)),
            NetworkEvent::NewClosure(WSClosure::HandleV(2)),
            NetworkEvent::NewClosure(WSClosure::HandleM(300)),
            NetworkEvent::NewClosure(WSClosure::HandleV(4)),
        ]
    );
}

#[test]
fn open_installs_transport_and_four_callbacks() {
    let mut model = TestModel::default();
    model.input_text = String::from("draft");
    let (_, events) = open(10, first_callbacks);
    let mut effects = Vec::new();
    for event in events {
        effects.push(reduce(event, &mut model).effect);
    }
    assert_eq!(
        effects,
        vec![Effect::Render, Effect::Skip, Effect::Skip, Effect::Skip, Effect::Skip]
    );
    assert_eq!(
        model.network,
        NetworkState {
            connected: false,
            socket: Some(10),
            closures: vec![
                WSClosure::HandleV(1),
                WSClosure::HandleV(2),
                WSClosure::HandleM(300),
                WSClosure::HandleV(4),
            ],
        }
    );
    assert_eq!(model.input_text, "draft");
    assert_eq!(model.msg_tx_cnt, 0);
}

#[test]
fn second_open_is_a_second_transport() {
    let mut model = TestModel::default();
    for event in open(10, first_callbacks).1 {
        reduce(event, &mut model);
    }
    for event in open(11, second_callbacks).1 {
        reduce(event, &mut model);
    }
    assert_eq!(model.network.socket, Some(11));
    assert_eq!(
        model.network.closures,
        vec![
            WSClosure::HandleV(1),
            WSClosure::HandleV(2),
            WSClosure::HandleM(300),
            WSClosure::HandleV(4),
            WSClosure::HandleV(5),
            WSClosure::HandleV(6),
            WSClosure::HandleM(700),
            WSClosure::HandleV(8),
        ]
    );
}

#[test]
fn open_callback_dispatches_connected() {
    let event: Event = on_open();
    assert_eq!(event, NetworkEvent::Connected);
}

#[test]
fn close_callback_dispatches_disconnected() {
    let event: Event = on_close();
    assert_eq!(event, NetworkEvent::Disconnected);
}

#[test]
fn error_callback_dispatches_disconnected() {
    let event: Event = on_error();
    assert_eq!(event, NetworkEvent::Disconnected);
}

#[test]
fn error_releases_the_connection_as_a_close_does() {
    let mut closed = TestModel::default();
    let mut failed = TestModel::default();
    for event in open(10, first_callbacks).1 {
        reduce(event.clone(), &mut closed);
        reduce(event, &mut failed);
    }
    reduce(on_open(), &mut closed);
    reduce(on_open(), &mut failed);
    let on_closed = reduce(on_close(), &mut closed);
    let on_failed = reduce(on_error(), &mut failed);
    assert_eq!(on_failed, on_closed);
    assert_eq!(failed, closed);
    assert_eq!(failed.network, NetworkState::default());
}

#[test]
fn message_that_is_not_binary_is_dropped() {
    let outcome: Result<Event, Dropped<String>> = on_message(Payload::Other, never_decode);
    assert_eq!(outcome, Err(Dropped::NotBinary));
}

#[test]
fn message_that_does_not_decode_is_dropped() {
    let outcome: Result<Event, Dropped<String>> = on_message(Payload::Binary(vec![1, 2, 3]), decode);
    assert_eq!(outcome, Err(Dropped::Undecodable(String::from("3 bytes"))));
}

#[test]
fn empty_message_goes_to_the_codec() {
    let outcome: Result<Event, Dropped<String>> = on_message(Payload::Binary(vec![]), decode);
    assert_eq!(outcome, Err(Dropped::Undecodable(String::from("0 bytes"))));
}

#[test]
fn message_that_decodes_is_dispatched() {
    let outcome: Result<Event, Dropped<String>> =
        on_message(Payload::Binary(vec![0, 0, 0, 0, 0, 0, 1, 2]), decode);
    assert_eq!(outcome, Ok(NetworkEvent::MessageReceived(258)));
}

#[test]
fn decoded_response_becomes_an_event() {
    let outcome: Result<Event, Dropped<String>> = on_decoded(Ok(-3));
    assert_eq!(outcome, Ok(NetworkEvent::MessageReceived(-3)));
}

#[test]
fn codec_error_becomes_the_reason() {
    let outcome: Result<Event, Dropped<String>> = on_decoded(Err(String::from("truncated")));
    assert_eq!(outcome, Err(Dropped::Undecodable(String::from("truncated"))));
}

#[test]
fn connection_lifecycle() {
    let mut model = TestModel::default();

    let update = reduce(NetworkEvent::NewSocket(21), &mut model);
    assert_eq!(update.effect, Effect::Render);
    assert_eq!(
        model.network,
        NetworkState { connected: false, socket: Some(21), closures: vec![] }
    );

    let update = reduce(on_open(), &mut model);
    assert_eq!(update.effect, Effect::Render);
    assert_eq!(
        model.network,
        NetworkState { connected: true, socket: Some(21), closures: vec![] }
    );

    let before = model.clone();
    let malformed: Result<Event, Dropped<String>> = on_message(Payload::Binary(vec![9]), decode);
    assert_eq!(malformed, Err(Dropped::Undecodable(String::from("1 bytes"))));
    let not_binary: Result<Event, Dropped<String>> = on_message(Payload::Other, decode);
    assert_eq!(not_binary, Err(Dropped::NotBinary));
    assert_eq!(model, before);

    let update = reduce(on_close(), &mut model);
    assert_eq!(update, Update { effect: Effect::Render, command: Command::Nothing });
    assert_eq!(model.network, NetworkState { connected: false, socket: None, closures: vec![] });
}

#[test]
fn decode_failure_leaves_the_connection() {
    let mut model = TestModel::default();
    for event in open(10, first_callbacks).1 {
        reduce(event, &mut model);
    }
    reduce(NetworkEvent::Connected, &mut model);
    let before = model.clone();
    for bytes in [vec![], vec![255], vec![0; 7], vec![0; 9]] {
        let outcome: Result<Event, Dropped<String>> = on_message(Payload::Binary(bytes), decode);
        match outcome {
            Ok(event) => {
                reduce(event, &mut model);
                panic!("a malformed message was dispatched");
            }
            Err(reason) => assert!(matches!(reason, Dropped::Undecodable(_))),
        }
    }
    assert!(model.network.connected);
    assert_eq!(model.network.socket, Some(10));
    assert_eq!(model, before);
}

#[test]
fn received_message_reaches_the_application() {
    let mut model = TestModel::default();
    let outcome: Result<Event, Dropped<String>> =
        on_message(Payload::Binary(vec![255; 8]), decode);
    let event = match outcome {
        Ok(event) => event,
        Err(_) => panic!("eight bytes decode"),
    };
    let update = reduce(event, &mut model);
    assert_eq!(update.command, Command::Forward(-1));
    assert_eq!(model, TestModel::default());
}
