//! Network events and the reducer that applies them.

use vstd::prelude::*;
use crate::state::{Model, ModelView, NetworkView, WSClosure};

verus! {

/// What the host is to do about rendering once an event has been reduced.
#[derive(Clone, Copy, Debug, PartialEq, Eq)]
pub enum Effect {
    /// Render again.
    Render,
    /// Do nothing.
    Skip,
}

/// Work that the reducer hands to the host, since the reducer itself touches
/// neither the transport nor the rest of the application. The effect that
/// comes with a command holds once the host has carried the command out.
#[derive(Clone, Debug, PartialEq, Eq)]
pub enum Command<F> {
    /// Nothing to do.
    Nothing,
    /// Send these bytes over the transport that the state holds, and call
    /// `request_sent` once they are sent. A send that fails is fatal: there
    /// is no event to report it with, and the model stays as it was.
    Transmit(Vec<u8>),
    /// Hand this response to the application's own reducer, which interprets
    /// it and decides on rendering.
    Forward(F),
}

/// The reducer's answer to one event.
#[derive(Clone, Debug, PartialEq, Eq)]
pub struct Update<F> {
    pub effect: Effect,
    pub command: Command<F>,
}

/// Every network event that the reducer handles.
///
/// `S` is the handle of a transport, `M` and `V` are the handles of the two
/// kinds of callback, `Q` is a request frame and `F` a decoded response frame.
#[derive(Clone, Debug, PartialEq, Eq)]
pub enum NetworkEvent<S, M, V, Q, F> {
    /// The transport has opened.
    Connected,
    /// The transport has closed, or has failed.
    Disconnected,
    /// A transport was created.
    NewSocket(S),
    /// A callback was created for the current transport.
    NewClosure(WSClosure<M, V>),
    /// The application asks to send a request.
    SendRequest(Q),
    /// A response arrived and was decoded.
    MessageReceived(F),
}

impl<S, M, V, Q, F> NetworkEvent<S, M, V, Q, F> {
    /// The model after this event, given the model before it.
    ///
    /// A request changes nothing by itself: what a request that was sent
    /// changes is `ModelView::sent`, and `request_sent` applies it.
    pub open spec fn step(self, pre: ModelView<S, M, V>) -> ModelView<S, M, V> {
        match self {
            NetworkEvent::Connected => ModelView {
                network: NetworkView { connected: true, ..pre.network },
                ..pre
            },
            NetworkEvent::Disconnected => ModelView { network: NetworkView::idle(), ..pre },
            NetworkEvent::NewSocket(ws) => ModelView {
                network: NetworkView { socket: Some(ws), ..pre.network },
                ..pre
            },
            NetworkEvent::NewClosure(cb) => ModelView {
                network: NetworkView { closures: pre.network.closures.push(cb), ..pre.network },
                ..pre
            },
            NetworkEvent::SendRequest(_) => pre,
            NetworkEvent::MessageReceived(_) => pre,
        }
    }

    /// What this event asks of the renderer, given the model before it.
    pub open spec fn effect(self, pre: ModelView<S, M, V>) -> Effect {
        match self {
            NetworkEvent::Connected => Effect::Render,
            NetworkEvent::Disconnected => Effect::Render,
            NetworkEvent::NewSocket(_) => Effect::Render,
            NetworkEvent::NewClosure(_) => Effect::Skip,
            NetworkEvent::SendRequest(_) => if pre.network.socket is Some {
                Effect::Render
            } else {
                Effect::Skip
            },
            NetworkEvent::MessageReceived(_) => Effect::Skip,
        }
    }

    /// Whether this event, on that model, has a request encoded and handed to
    /// the host for sending.
    pub open spec fn transmits(self, pre: ModelView<S, M, V>) -> bool {
        self is SendRequest && pre.network.socket is Some
    }

    /// Applies one event to the model and says what the host is to do.
    ///
    /// A request is encoded, with `encode`, only where the state holds a
    /// transport; the bytes come back in `Command::Transmit`. Nothing is
    /// counted and nothing is cleared yet: that is for `request_sent`, once
    /// the host has sent the bytes. Without a transport the request is dropped.
    /// A decoded response comes back in `Command::Forward`. Neither changes
    /// the model.
    pub fn reducer<E: FnOnce(Q) -> Vec<u8>>(
        event: Self,
        model: &mut Model<S, M, V>,
        encode: E,
    ) -> (update: Update<F>)
        requires
            event.transmits(old(model)@) ==> encode.requires((event->SendRequest_0,)),
        ensures
            final(model)@ == event.step(old(model)@),
            update.effect == event.effect(old(model)@),
            event.transmits(old(model)@) ==> update.command is Transmit && encode.ensures(
                (event->SendRequest_0,),
                update.command->Transmit_0,
            ),
            event matches NetworkEvent::MessageReceived(frame) ==> update.command
                == Command::Forward(frame),
            !event.transmits(old(model)@) && !(event is MessageReceived) ==> update.command
                == Command::<F>::Nothing,
    {
        match event {
            NetworkEvent::Connected => {
                model.network.connected = true;
                Update { effect: Effect::Render, command: Command::Nothing }
            },
            NetworkEvent::Disconnected => {
                model.network.connected = false;
                model.network.socket = None;
                model.network.closures.clear();
                Update { effect: Effect::Render, command: Command::Nothing }
            },
            NetworkEvent::NewSocket(ws) => {
                model.network.socket = Some(ws);
                Update { effect: Effect::Render, command: Command::Nothing }
            },
            NetworkEvent::NewClosure(cb) => {
                model.network.closures.push(cb);
                Update { effect: Effect::Skip, command: Command::Nothing }
            },
            NetworkEvent::SendRequest(req) => {
                if model.network.socket.is_none() {
                    return Update { effect: Effect::Skip, command: Command::Nothing };
                }
                let bytes = encode(req);
                Update { effect: Effect::Render, command: Command::Transmit(bytes) }
            },
            NetworkEvent::MessageReceived(frame) => {
                Update { effect: Effect::Skip, command: Command::Forward(frame) }
            },
        }
    }

    /// The event that registers a callback with the state.
    pub fn new_closure(cb: WSClosure<M, V>) -> (event: Self)
        ensures
            event == NetworkEvent::<S, M, V, Q, F>::NewClosure(cb),
    {
        NetworkEvent::NewClosure(cb)
    }
}

/// Completes a request whose bytes the host has sent: counts it, clears the
/// pending input, and asks for a render.
///
/// The host calls this after the send of a `Command::Transmit` has
/// succeeded, and not at all where the send failed.
pub fn request_sent<S, M, V>(model: &mut Model<S, M, V>) -> (effect: Effect)
    requires
        old(model).msg_tx_cnt < u64::MAX,
    ensures
        final(model)@ == old(model)@.sent(),
        effect == Effect::Render,
{
    model.input_text = String::new();
    model.msg_tx_cnt = model.msg_tx_cnt + 1;
    Effect::Render
}

/// The model after a sequence of events, applied first to last.
pub open spec fn run<S, M, V, Q, F>(
    events: Seq<NetworkEvent<S, M, V, Q, F>>,
    pre: ModelView<S, M, V>,
) -> ModelView<S, M, V>
    decreases events.len(),
{
    if events.len() == 0 {
        pre
    } else {
        events.last().step(run(events.drop_last(), pre))
    }
}

} // verus!
