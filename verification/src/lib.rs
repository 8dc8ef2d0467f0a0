//! Typed, full-duplex WebSocket channels for an HTTP host, and the routing of
//! named packets between such a channel and registered handlers.
//!
//! The crate holds the decisions of the protocol layer as verified functions on
//! plain values: whether a request is a valid upgrade, what the upgrade response
//! carries, how a connection moves through its lifecycle, what a pump does with
//! each outcome, how packets are framed and which handlers receive them. Reading
//! and writing the connection itself is left to the host.

pub mod channel;
pub mod driver;
pub mod envelope;
pub mod handshake;
pub mod message;
pub mod packet;
pub mod prelude;
pub mod pump;
pub mod registry;
pub mod text;

pub use crate::channel::{Channel, MessageStream};
pub use crate::envelope::Envelope;
pub use crate::handshake::{HandshakeRequest, Header, HyperSocket, UpgradeResponse};
pub use crate::message::{CloseFrame, FrameError, IoFault, IoFaultKind, Message};
pub use crate::registry::{Delivery, PacketRegistry};
