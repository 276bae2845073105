//! A verified protocol handler for one persistent, message-oriented connection.
//!
//! The crate holds the decisions of a WebSocket-style client and none of its
//! input or output: the connection state and the reducer that moves it from
//! event to event, the events a freshly opened connection publishes, and the
//! handling of an inbound message. Sockets, callbacks and frames are type
//! parameters, so that the host decides what stands behind a handle and which
//! codec turns frames into bytes.

pub mod event;
pub mod laws;
pub mod manager;
pub mod state;
