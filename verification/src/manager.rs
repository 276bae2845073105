//! The connection manager: what a new connection publishes, and what each of
//! its four callbacks turns into.
//!
//! Creating the transport, switching it to binary delivery and registering the
//! callbacks is the host's work, and so is dispatching. What is published,
//! and in which order the callbacks are wired, is decided here: the host
//! starts with `open_ws`, registers the callback of the slot it is given,
//! hands it to `wired`, and goes on until no slot is left.

use vstd::prelude::*;
use crate::event::NetworkEvent;
use crate::state::WSClosure;

verus! {

/// The address that every connection is opened to.
pub const WS_URL: &'static str = "ws://127.0.0.1:8080/ws/";

/// What a message event carried.
#[derive(Clone, Debug, PartialEq, Eq)]
pub enum Payload {
    /// A binary buffer, with its bytes.
    Binary(Vec<u8>),
    /// Anything else.
    Other,
}

/// Why an inbound message was dropped without an event.
#[derive(Clone, Debug, PartialEq, Eq)]
pub enum Dropped<E> {
    /// The payload was not a binary buffer.
    NotBinary,
    /// The codec rejected the bytes, with this error.
    Undecodable(E),
}

/// The four callbacks of a transport, one for each of its lifecycle events.
#[derive(Clone, Copy, Debug, PartialEq, Eq)]
pub enum Slot {
    Open,
    Close,
    Message,
    Error,
}

impl Slot {
    /// The slot that is wired after this one: open, close, message, error,
    /// and none after the last.
    pub open spec fn following(self) -> Option<Slot> {
        match self {
            Slot::Open => Some(Slot::Close),
            Slot::Close => Some(Slot::Message),
            Slot::Message => Some(Slot::Error),
            Slot::Error => None,
        }
    }
}

/// What a new transport starts with: the event that publishes it, and the
/// first slot to wire.
pub open spec fn opening<S, M, V, Q, F>(ws: S) -> (NetworkEvent<S, M, V, Q, F>, Slot) {
    (NetworkEvent::NewSocket(ws), Slot::Open)
}

/// What follows the registration of a callback on `slot`: the event that
/// publishes the callback, and the slot to wire next.
pub open spec fn wiring<S, M, V, Q, F>(slot: Slot, cb: WSClosure<M, V>) -> (
    NetworkEvent<S, M, V, Q, F>,
    Option<Slot>,
) {
    (NetworkEvent::NewClosure(cb), slot.following())
}

/// Every event that a newly opened connection publishes, in order: the
/// transport first, then the open, close, message and error callbacks.
pub open spec fn open_events<S, M, V, Q, F>(
    ws: S,
    on_open: V,
    on_close: V,
    on_message: M,
    on_error: V,
) -> Seq<NetworkEvent<S, M, V, Q, F>> {
    seq![
        opening::<S, M, V, Q, F>(ws).0,
        wiring::<S, M, V, Q, F>(Slot::Open, WSClosure::HandleV(on_open)).0,
        wiring::<S, M, V, Q, F>(Slot::Close, WSClosure::HandleV(on_close)).0,
        wiring::<S, M, V, Q, F>(Slot::Message, WSClosure::HandleM(on_message)).0,
        wiring::<S, M, V, Q, F>(Slot::Error, WSClosure::HandleV(on_error)).0,
    ]
}

/// Starts a connection on the transport `ws`, which the host has created:
/// gives the event that publishes it, and the first slot to wire.
///
/// The transport is published before any callback exists, so that the state
/// holds it before a callback can fire. Every call stands for a transport of
/// its own; nothing is deduplicated.
pub fn open_ws<S, M, V, Q, F>(ws: S) -> (start: (NetworkEvent<S, M, V, Q, F>, Slot))
    ensures
        start == opening::<S, M, V, Q, F>(ws),
{
    (NetworkEvent::NewSocket(ws), Slot::Open)
}

/// Goes on after the host has registered the callback `cb` on `slot`: gives
/// the event that publishes the callback, and the slot to wire next, if one
/// is left.
pub fn wired<S, M, V, Q, F>(slot: Slot, cb: WSClosure<M, V>) -> (step: (
    NetworkEvent<S, M, V, Q, F>,
    Option<Slot>,
))
    ensures
        step == wiring::<S, M, V, Q, F>(slot, cb),
{
    let next = match slot {
        Slot::Open => Some(Slot::Close),
        Slot::Close => Some(Slot::Message),
        Slot::Message => Some(Slot::Error),
        Slot::Error => None,
    };
    (NetworkEvent::new_closure(cb), next)
}

/// The event that the open callback dispatches.
pub fn on_open<S, M, V, Q, F>() -> (event: NetworkEvent<S, M, V, Q, F>)
    ensures
        event == NetworkEvent::<S, M, V, Q, F>::Connected,
{
    NetworkEvent::Connected
}

/// The event that the close callback dispatches.
pub fn on_close<S, M, V, Q, F>() -> (event: NetworkEvent<S, M, V, Q, F>)
    ensures
        event == NetworkEvent::<S, M, V, Q, F>::Disconnected,
{
    NetworkEvent::Disconnected
}

/// The event that the error callback dispatches: an error is handled as a
/// close, and carries no detail.
pub fn on_error<S, M, V, Q, F>() -> (event: NetworkEvent<S, M, V, Q, F>)
    ensures
        event == NetworkEvent::<S, M, V, Q, F>::Disconnected,
{
    on_close()
}

/// What becomes of a payload once the codec has been asked: a response is
/// dispatched, a rejection is dropped.
pub open spec fn decoded_event<S, M, V, Q, F, E>(decoded: Result<F, E>) -> Result<
    NetworkEvent<S, M, V, Q, F>,
    Dropped<E>,
> {
    match decoded {
        Ok(frame) => Ok(NetworkEvent::MessageReceived(frame)),
        Err(error) => Err(Dropped::Undecodable(error)),
    }
}

/// Turns the codec's answer into the event to dispatch, or into the reason
/// for dropping the message.
pub fn on_decoded<S, M, V, Q, F, E>(decoded: Result<F, E>) -> (outcome: Result<
    NetworkEvent<S, M, V, Q, F>,
    Dropped<E>,
>)
    ensures
        outcome == decoded_event::<S, M, V, Q, F, E>(decoded),
{
    match decoded {
        Ok(frame) => Ok(NetworkEvent::MessageReceived(frame)),
        Err(error) => Err(Dropped::Undecodable(error)),
    }
}

/// The message callback: from the payload of a message event to the event to
/// dispatch, or to the reason for dropping the message.
///
/// A payload that is no binary buffer is dropped and the codec is not asked.
/// Bytes go to `decode`: a response that it returns is dispatched, an error
/// that it returns is the reason for dropping the message.
/// Nothing here reads or writes the connection state, so a dropped message
/// leaves it as it was.
pub fn on_message<S, M, V, Q, F, E, D: FnOnce(Vec<u8>) -> Result<F, E>>(
    payload: Payload,
    decode: D,
) -> (outcome: Result<NetworkEvent<S, M, V, Q, F>, Dropped<E>>)
    requires
        payload matches Payload::Binary(bytes) ==> decode.requires((bytes,)),
    ensures
        payload is Other ==> outcome == Err::<NetworkEvent<S, M, V, Q, F>, Dropped<E>>(
            Dropped::NotBinary,
        ),
        payload matches Payload::Binary(bytes) ==> match outcome {
            Ok(event) => event matches NetworkEvent::MessageReceived(frame) && decode.ensures(
                (bytes,),
                Ok(frame),
            ),
            Err(reason) => reason matches Dropped::Undecodable(error) && decode.ensures(
                (bytes,),
                Err(error),
            ),
        },
{
    match payload {
        Payload::Other => Err(Dropped::NotBinary),
        Payload::Binary(bytes) => {
            let decoded = decode(bytes);
            on_decoded(decoded)
        },
    }
}

} // verus!
