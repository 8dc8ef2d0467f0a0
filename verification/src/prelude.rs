//! The traits of packets and of their handlers.

use vstd::prelude::*;

verus! {

/// A packet that travels from the client to the server: a value that is read
/// from an encoded payload.
pub trait C2SPacket<'a>: Sized {
    /// Whether reading `payload` may give `packet`: `Some` with a packet that
    /// the payload encodes, `None` where it encodes none. A type that says
    /// nothing of its encoding allows every outcome.
    open spec fn reads(payload: Seq<u8>, packet: Option<Self>) -> bool {
        true
    }

    /// Reads a packet from its encoded payload; `None` where the payload does
    /// not encode one.
    fn from_payload(payload: &'a [u8]) -> (packet: Option<Self>)
        ensures
            Self::reads(payload@, packet),
    ;
}

/// A packet that travels from the server to the client: a value that is
/// written as an encoded payload.
pub trait S2CPacket {
    /// The encoded payload of this packet.
    fn to_payload(&self) -> Vec<u8>;
}

/// A handler of packets of the type `P`.
pub trait C2SEventHandler<'a, P> where Self: Send + Sync + 'a {
    /// Whether the handler may be given `packet`. A handler takes every
    /// packet, unless it says otherwise.
    open spec fn accepts(&self, packet: P) -> bool {
        true
    }

    /// Handles one packet.
    fn handle(&self, packet: P)
        requires
            self.accepts(packet),
    ;
}

impl<'a, F, P> C2SEventHandler<'a, P> for F where F: Fn(P) + Send + Sync + 'a {
    open spec fn accepts(&self, packet: P) -> bool {
        call_requires(*self, (packet,))
    }

    #[inline(always)]
    fn handle(&self, packet: P) {
        self(packet);
    }
}

} // verus!
