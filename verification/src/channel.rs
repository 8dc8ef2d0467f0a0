//! The two modes in which a validated request is answered.
//!
//! In channel mode one callback gets the whole duplex stream and reads and
//! writes as it likes. In stream mode a transform gets the inbound messages and
//! returns the outbound ones, which a pump writes. Either way the choice is
//! made when the response is produced: the request is joined with the handler,
//! and the host takes both once it has sent the upgrade response.
//!
//! What a handler is (a callback on the stream, a transform of sequences) is
//! the host's affair, since it is the host that makes the stream; the types
//! here hold a handler of any type `F`.

use vstd::prelude::*;
use crate::handshake::{Header, HyperSocket, UpgradeResponse};

verus! {

/// A validated request, answered in channel mode by `handler`.
pub struct Channel<F> {
    ws: HyperSocket,
    handler: F,
}

/// A validated request, answered in stream mode by `handler`.
pub struct MessageStream<F> {
    ws: HyperSocket,
    handler: F,
}

impl HyperSocket {
    /// Answers the request in channel mode: `handler` will get the duplex
    /// stream.
    pub fn channel<F>(self, handler: F) -> (channel: Channel<F>)
        ensures
            channel.spec_socket() == self,
            channel.spec_handler() == handler,
    {
        Channel { ws: self, handler }
    }

    /// Answers the request in stream mode: `stream` will get the inbound
    /// messages and return the outbound ones.
    pub fn stream<F>(self, stream: F) -> (messages: MessageStream<F>)
        ensures
            messages.spec_socket() == self,
            messages.spec_handler() == stream,
    {
        MessageStream { ws: self, handler: stream }
    }
}

impl<F> Channel<F> {
    /// The validated request.
    pub closed spec fn spec_socket(&self) -> HyperSocket {
        self.ws
    }

    /// The handler.
    pub closed spec fn spec_handler(&self) -> F {
        self.handler
    }

    /// The response that accepts the upgrade, which is that of the request.
    pub fn upgrade_response(&self) -> (response: UpgradeResponse)
        ensures
            response.headers@.map_values(|h: Header| h@) == seq![
                ("Sec-Websocket-Version"@, "13"@),
                ("Sec-WebSocket-Accept"@, self.spec_socket().spec_key()),
            ],
            response.protocol@ == "websocket"@,
    {
        self.ws.upgrade_response()
    }

    /// Hands out the request and the handler, for the host to run the handler
    /// on the stream that it makes.
    pub fn into_parts(self) -> (parts: (HyperSocket, F))
        ensures
            parts.0 == self.spec_socket(),
            parts.1 == self.spec_handler(),
    {
        (self.ws, self.handler)
    }
}

impl<F> MessageStream<F> {
    /// The validated request.
    pub closed spec fn spec_socket(&self) -> HyperSocket {
        self.ws
    }

    /// The handler.
    pub closed spec fn spec_handler(&self) -> F {
        self.handler
    }

    /// The response that accepts the upgrade, which is that of the request.
    pub fn upgrade_response(&self) -> (response: UpgradeResponse)
        ensures
            response.headers@.map_values(|h: Header| h@) == seq![
                ("Sec-Websocket-Version"@, "13"@),
                ("Sec-WebSocket-Accept"@, self.spec_socket().spec_key()),
            ],
            response.protocol@ == "websocket"@,
    {
        self.ws.upgrade_response()
    }

    /// Hands out the request and the handler, for the host to run the pump on
    /// what the handler returns.
    pub fn into_parts(self) -> (parts: (HyperSocket, F))
        ensures
            parts.0 == self.spec_socket(),
            parts.1 == self.spec_handler(),
    {
        (self.ws, self.handler)
    }
}

} // verus!
