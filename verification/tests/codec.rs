use prost::{DecodeError, Message};
use ws_client::event::{Command, Effect, NetworkEvent, Update};
use ws_client::manager::{on_message, Dropped, Payload};
use ws_client::state::Model;

type Event = NetworkEvent<u32, u16, u8, String, String>;
type TestModel = Model<u32, u16, u8>;

fn encode(request: String) -> Vec<u8> {
    request.encode_to_vec()
}

fn decode(bytes: Vec<u8>) -> Result<String, DecodeError> {
    String::decode(bytes.as_slice())
}

fn transmitted(update: Update<String>) -> Vec<u8> {
    match update.command {
        Command::Transmit(bytes) => bytes,
        _ => panic!("nothing was transmitted"),
    }
}

#[test]
fn request_is_encoded_by_the_codec() {
    let mut model = TestModel::default();
    NetworkEvent::reducer(Event::NewSocket(1), &mut model, encode);
    let update = NetworkEvent::reducer(Event::SendRequest(String::from("hi")), &mut model, encode);
    assert_eq!(update.effect, Effect::Render);
    assert_eq!(transmitted(update), vec![10, 2, 104, 105]);
}

#[test]
fn frame_survives_the_round_trip() {
    for text in ["", "hi", "a longer frame, with \u{e9} in it"] {
        let mut model = TestModel::default();
        NetworkEvent::reducer(Event::NewSocket(1), &mut model, encode);
        let update =
            NetworkEvent::reducer(Event::SendRequest(String::from(text)), &mut model, encode);
        let bytes = transmitted(update);
        let outcome: Result<Event, Dropped<DecodeError>> =
            on_message(Payload::Binary(bytes), decode);
        assert_eq!(outcome, Ok(NetworkEvent::MessageReceived(String::from(text))));
    }
}

#[test]
fn truncated_frame_is_dropped() {
    let outcome: Result<Event, Dropped<DecodeError>> =
        on_message(Payload::Binary(vec![10, 5, 104, 105]), decode);
    match outcome {
        Err(Dropped::Undecodable(error)) => assert_eq!(Err(error), decode(vec![10, 5, 104, 105])),
        _ => panic!("a truncated frame was accepted"),
    }
}

#[test]
fn frame_that_is_not_text_is_dropped() {
    let outcome: Result<Event, Dropped<DecodeError>> =
        on_message(Payload::Binary(vec![10, 1, 255]), decode);
    assert!(matches!(outcome, Err(Dropped::Undecodable(_))));
}
