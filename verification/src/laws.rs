//! What holds of the reducer on every model and every event.
//!
//! The laws speak of `NetworkEvent::step` and `NetworkEvent::effect`, which
//! `NetworkEvent::reducer` is proved to follow, of `ModelView::sent`, which
//! `request_sent` is proved to follow, and of `opening` and `wiring`, which
//! `open_ws` and `wired` are proved to follow.

use vstd::prelude::*;
use crate::event::{run, Effect, NetworkEvent};
use crate::manager::{open_events, opening, Slot};
use crate::state::{ModelView, NetworkView, Status, WSClosure};

verus! {

/// A disconnect on a connection that is already idle leaves the model as it
/// was, and asks for a render.
pub proof fn disconnect_when_idle<S, M, V, Q, F>(pre: ModelView<S, M, V>)
    requires
        pre.network == NetworkView::<S, M, V>::idle(),
    ensures
        NetworkEvent::<S, M, V, Q, F>::Disconnected.step(pre) == pre,
        NetworkEvent::<S, M, V, Q, F>::Disconnected.effect(pre) == Effect::Render,
{
}

/// A disconnect always ends in the idle connection, whatever it started
/// from, so a second disconnect changes nothing more. It touches nothing but
/// the connection.
pub proof fn disconnect_is_idempotent<S, M, V, Q, F>(pre: ModelView<S, M, V>)
    ensures
        ({
            let once = NetworkEvent::<S, M, V, Q, F>::Disconnected.step(pre);
            &&& once.network == NetworkView::<S, M, V>::idle()
            &&& once.input_text == pre.input_text
            &&& once.msg_tx_cnt == pre.msg_tx_cnt
            &&& NetworkEvent::<S, M, V, Q, F>::Disconnected.step(once) == once
        }),
{
}

/// A request on a model without a transport changes nothing, neither the
/// connection nor the count of requests sent, and asks for no render.
pub proof fn send_without_transport<S, M, V, Q, F>(pre: ModelView<S, M, V>, request: Q)
    requires
        pre.network.socket is None,
    ensures
        NetworkEvent::<S, M, V, Q, F>::SendRequest(request).step(pre) == pre,
        NetworkEvent::<S, M, V, Q, F>::SendRequest(request).effect(pre) == Effect::Skip,
        !NetworkEvent::<S, M, V, Q, F>::SendRequest(request).transmits(pre),
{
}

/// A request on a model with a transport is handed to the host and asks for a
/// render, and changes nothing before it is sent. Once it is sent, the count
/// of requests sent has risen by exactly one, the pending input is cleared,
/// and the connection is as it was.
pub proof fn send_with_transport<S, M, V, Q, F>(pre: ModelView<S, M, V>, request: Q)
    requires
        pre.network.socket is Some,
    ensures
        NetworkEvent::<S, M, V, Q, F>::SendRequest(request).transmits(pre),
        NetworkEvent::<S, M, V, Q, F>::SendRequest(request).effect(pre) == Effect::Render,
        NetworkEvent::<S, M, V, Q, F>::SendRequest(request).step(pre) == pre,
        ({
            let post = NetworkEvent::<S, M, V, Q, F>::SendRequest(request).step(pre).sent();
            &&& post.msg_tx_cnt == pre.msg_tx_cnt + 1
            &&& post.input_text == Seq::<char>::empty()
            &&& post.network == pre.network
        }),
{
}

/// A request asks for no render exactly when the model holds no transport,
/// whatever the connected flag says, and it is handed to the host exactly
/// when the model holds one.
pub proof fn send_skips_exactly_without_transport<S, M, V, Q, F>(
    pre: ModelView<S, M, V>,
    request: Q,
)
    ensures
        NetworkEvent::<S, M, V, Q, F>::SendRequest(request).effect(pre) == Effect::Skip
            <==> pre.network.socket is None,
        NetworkEvent::<S, M, V, Q, F>::SendRequest(request).effect(pre) == Effect::Render
            <==> pre.network.socket is Some,
        NetworkEvent::<S, M, V, Q, F>::SendRequest(request).transmits(pre)
            <==> pre.network.socket is Some,
{
}

/// A new callback is appended to the callbacks, after those already there.
/// Nothing else changes, and no render is asked for.
pub proof fn new_closure_only_appends<S, M, V, Q, F>(
    pre: ModelView<S, M, V>,
    cb: WSClosure<M, V>,
)
    ensures
        ({
            let post = NetworkEvent::<S, M, V, Q, F>::NewClosure(cb).step(pre);
            &&& post.network.connected == pre.network.connected
            &&& post.network.socket == pre.network.socket
            &&& post.network.closures == pre.network.closures.push(cb)
            &&& post.input_text == pre.input_text
            &&& post.msg_tx_cnt == pre.msg_tx_cnt
        }),
        NetworkEvent::<S, M, V, Q, F>::NewClosure(cb).effect(pre) == Effect::Skip,
{
}

/// A decoded response changes nothing in the model.
pub proof fn message_leaves_model<S, M, V, Q, F>(pre: ModelView<S, M, V>, frame: F)
    ensures
        NetworkEvent::<S, M, V, Q, F>::MessageReceived(frame).step(pre) == pre,
{
}

/// The transport and the callbacks are released by a disconnect and by
/// nothing else, and a disconnect releases both and drops the connected flag
/// with them.
pub proof fn released_only_by_disconnect<S, M, V, Q, F>(
    pre: ModelView<S, M, V>,
    event: NetworkEvent<S, M, V, Q, F>,
)
    ensures
        ({
            let post = event.step(pre);
            &&& event is Disconnected ==> post.network == NetworkView::<S, M, V>::idle()
            &&& !(event is Disconnected) ==> {
                &&& pre.network.socket is Some ==> post.network.socket is Some
                &&& pre.network.closures.is_prefix_of(post.network.closures)
                &&& pre.network.connected ==> post.network.connected
            }
        }),
{
}

/// The connected flag is raised by the open event and by nothing else.
pub proof fn connected_only_by_open<S, M, V, Q, F>(
    pre: ModelView<S, M, V>,
    event: NetworkEvent<S, M, V, Q, F>,
)
    ensures
        event is Connected ==> event.step(pre).network.connected,
        !pre.network.connected && event.step(pre).network.connected ==> event is Connected,
{
}

/// No event moves the count of requests sent or the pending input: a request
/// is counted, and the input cleared, only once it has been sent.
pub proof fn count_moves_only_when_sent<S, M, V, Q, F>(
    pre: ModelView<S, M, V>,
    event: NetworkEvent<S, M, V, Q, F>,
)
    ensures
        event.step(pre).msg_tx_cnt == pre.msg_tx_cnt,
        event.step(pre).input_text == pre.input_text,
        pre.sent().msg_tx_cnt == pre.msg_tx_cnt + 1,
{
}

/// The connection status moves as the state machine says: the open event
/// leads to `Connected`, a disconnect to `Disconnected`, a new transport
/// leads from `Disconnected` to `Connecting`, and no other event moves it.
pub proof fn status_follows_machine<S, M, V, Q, F>(
    pre: ModelView<S, M, V>,
    event: NetworkEvent<S, M, V, Q, F>,
)
    ensures
        event.step(pre).network.status() == match event {
            NetworkEvent::Connected => Status::Connected,
            NetworkEvent::Disconnected => Status::Disconnected,
            NetworkEvent::NewSocket(_) => if pre.network.status() == Status::Disconnected {
                Status::Connecting
            } else {
                pre.network.status()
            },
            _ => pre.network.status(),
        },
{
}

/// A connection wires each of its four slots once, in the order open, close,
/// message, error, starting from the slot that `opening` names.
pub proof fn slots_are_wired_once_in_order<S, M, V, Q, F>(ws: S)
    ensures
        opening::<S, M, V, Q, F>(ws).1 == Slot::Open,
        Slot::Open.following() == Some(Slot::Close),
        Slot::Close.following() == Some(Slot::Message),
        Slot::Message.following() == Some(Slot::Error),
        Slot::Error.following() == None::<Slot>,
{
}

/// Opening a connection installs its transport and appends its four
/// callbacks, open, close, message and error, in that order. The connected
/// flag, the pending input and the count of requests sent stay as they were.
pub proof fn open_installs_connection<S, M, V, Q, F>(
    pre: ModelView<S, M, V>,
    ws: S,
    on_open: V,
    on_close: V,
    on_message: M,
    on_error: V,
)
    ensures
        run(open_events::<S, M, V, Q, F>(ws, on_open, on_close, on_message, on_error), pre)
            == (ModelView {
            network: NetworkView {
                connected: pre.network.connected,
                socket: Some(ws),
                closures: pre.network.closures + seq![
                    WSClosure::HandleV(on_open),
                    WSClosure::HandleV(on_close),
                    WSClosure::HandleM(on_message),
                    WSClosure::HandleV(on_error),
                ],
            },
            input_text: pre.input_text,
            msg_tx_cnt: pre.msg_tx_cnt,
        }),
{
    let events = open_events::<S, M, V, Q, F>(ws, on_open, on_close, on_message, on_error);
    reveal_with_fuel(run, 6);
    assert(run(events, pre).network.closures == pre.network.closures + seq![
        WSClosure::HandleV(on_open),
        WSClosure::HandleV(on_close),
        WSClosure::HandleM(on_message),
        WSClosure::HandleV(on_error),
    ]);
}

/// The callbacks that `events` publish after their last disconnect, oldest
/// first: the callbacks of the connection that is current once they have all
/// been applied.
pub open spec fn generation<S, M, V, Q, F>(events: Seq<NetworkEvent<S, M, V, Q, F>>) -> Seq<
    WSClosure<M, V>,
>
    decreases events.len(),
{
    if events.len() == 0 {
        Seq::empty()
    } else {
        match events.last() {
            NetworkEvent::Disconnected => Seq::empty(),
            NetworkEvent::NewClosure(cb) => generation(events.drop_last()).push(cb),
            _ => generation(events.drop_last()),
        }
    }
}

/// Whether a disconnect is among `events`.
pub open spec fn disconnects<S, M, V, Q, F>(events: Seq<NetworkEvent<S, M, V, Q, F>>) -> bool {
    exists|i: int| 0 <= i < events.len() && events[i] is Disconnected
}

/// The state holds every callback published since the last disconnect, in
/// the order of publication, and none from before it: after a disconnect
/// exactly the callbacks published since, and without one the callbacks it
/// started with, followed by those published.
pub proof fn state_owns_current_generation<S, M, V, Q, F>(
    pre: ModelView<S, M, V>,
    events: Seq<NetworkEvent<S, M, V, Q, F>>,
)
    ensures
        disconnects(events) ==> run(events, pre).network.closures == generation(events),
        !disconnects(events) ==> run(events, pre).network.closures == pre.network.closures
            + generation(events),
    decreases events.len(),
{
    if events.len() > 0 {
        let earlier = events.drop_last();
        state_owns_current_generation(pre, earlier);
        if disconnects(earlier) {
            let i = choose|i: int| 0 <= i < earlier.len() && earlier[i] is Disconnected;
            assert(events[i] is Disconnected);
        }
        if events.last() is Disconnected {
            assert(events[events.len() - 1] is Disconnected);
        } else if disconnects(events) {
            let i = choose|i: int| 0 <= i < events.len() && events[i] is Disconnected;
            assert(earlier[i] is Disconnected);
        }
    }
}

} // verus!
