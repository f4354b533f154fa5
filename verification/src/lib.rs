//! Peer communication core of the Reflection photo-album viewer.
//!
//! The crate holds the decisions of the controller/display link: the message
//! catalog and its codec, length-prefixed framing, the receive and send halves
//! of a session, service discovery choices, and the server and client life
//! cycles. Sockets, threads and channels are driven by the embedding program,
//! which feeds events to the state machines here and performs the actions
//! they answer with.

pub mod client;
pub mod discovery;
pub mod error;
pub mod frame;
pub mod message;
pub mod pages;
pub mod payload;
pub mod server;
pub mod session;
