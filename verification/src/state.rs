//! The connection state and the part of the application model that the
//! reducer reads and writes.

use vstd::prelude::*;

verus! {

/// A callback registered on a transport, by the kind of argument it takes.
///
/// `M` is the handle of a callback that takes a message event, `V` the handle
/// of a callback that takes a plain value (open, close and error).
#[derive(Clone, Debug, PartialEq, Eq)]
pub enum WSClosure<M, V> {
    HandleM(M),
    HandleV(V),
}

/// Where a connection stands, as far as its state shows it.
#[derive(Clone, Copy, Debug, PartialEq, Eq)]
pub enum Status {
    /// No transport, and not connected.
    Disconnected,
    /// A transport exists, and its open event has not arrived.
    Connecting,
    /// The open event has arrived, and no close or error event since.
    Connected,
}

/// The state of one connection.
///
/// The state owns the transport and every callback registered on it, so that
/// a disconnect releases them together. A transport that is present need not
/// be live: it is held from the moment it is created.
#[derive(Clone, Debug, PartialEq, Eq)]
pub struct NetworkState<S, M, V> {
    pub connected: bool,
    pub socket: Option<S>,
    pub closures: Vec<WSClosure<M, V>>,
}

/// What a `NetworkState` holds, with the callbacks as a sequence.
pub struct NetworkView<S, M, V> {
    pub connected: bool,
    pub socket: Option<S>,
    pub closures: Seq<WSClosure<M, V>>,
}

impl<S, M, V> NetworkView<S, M, V> {
    /// The state of an application that has not opened a connection, and of
    /// one whose connection was torn down.
    pub open spec fn idle() -> Self {
        NetworkView { connected: false, socket: None, closures: Seq::empty() }
    }

    /// The connection status that the state shows.
    pub open spec fn status(self) -> Status {
        if self.connected {
            Status::Connected
        } else if self.socket is Some {
            Status::Connecting
        } else {
            Status::Disconnected
        }
    }
}

impl<S, M, V> View for NetworkState<S, M, V> {
    type V = NetworkView<S, M, V>;

    open spec fn view(&self) -> NetworkView<S, M, V> {
        NetworkView { connected: self.connected, socket: self.socket, closures: self.closures@ }
    }
}

impl<S, M, V> NetworkState<S, M, V> {
    /// The connection status that the state shows.
    pub fn status(&self) -> (status: Status)
        ensures
            status == self@.status(),
    {
        if self.connected {
            Status::Connected
        } else if self.socket.is_some() {
            Status::Connecting
        } else {
            Status::Disconnected
        }
    }
}

impl<S, M, V> Default for NetworkState<S, M, V> {
    /// The state at application start: not connected, no transport, no
    /// callbacks.
    fn default() -> (state: Self)
        ensures
            state@ == NetworkView::<S, M, V>::idle(),
    {
        NetworkState { connected: false, socket: None, closures: Vec::new() }
    }
}

/// The part of the application model that network events touch.
#[derive(Clone, Debug, PartialEq, Eq)]
pub struct Model<S, M, V> {
    pub network: NetworkState<S, M, V>,
    /// The pending input, cleared once a request has been sent.
    pub input_text: String,
    /// How many requests have been sent.
    pub msg_tx_cnt: u64,
}

/// What a `Model` holds.
pub struct ModelView<S, M, V> {
    pub network: NetworkView<S, M, V>,
    pub input_text: Seq<char>,
    pub msg_tx_cnt: nat,
}

impl<S, M, V> ModelView<S, M, V> {
    /// The model of an application that has just started.
    pub open spec fn initial() -> Self {
        ModelView { network: NetworkView::idle(), input_text: Seq::empty(), msg_tx_cnt: 0 }
    }

    /// The model once a request has been sent: one more request counted, the
    /// pending input cleared, the connection as it was.
    pub open spec fn sent(self) -> Self {
        ModelView {
            network: self.network,
            input_text: Seq::empty(),
            msg_tx_cnt: self.msg_tx_cnt + 1,
        }
    }
}

impl<S, M, V> View for Model<S, M, V> {
    type V = ModelView<S, M, V>;

    open spec fn view(&self) -> ModelView<S, M, V> {
        ModelView {
            network: self.network@,
            input_text: self.input_text@,
            msg_tx_cnt: self.msg_tx_cnt as nat,
        }
    }
}

impl<S, M, V> Default for Model<S, M, V> {
    /// The model at application start.
    fn default() -> (model: Self)
        ensures
            model@ == ModelView::<S, M, V>::initial(),
    {
        Model { network: NetworkState::default(), input_text: String::new(), msg_tx_cnt: 0 }
    }
}

} // verus!
