use hypersocket::{Channel, HandshakeRequest, Header, HyperSocket, MessageStream};
use tungstenite::protocol::WebSocketConfig;

fn validated() -> HyperSocket {
    let mut req = HandshakeRequest::new();
    req.add("Connection", "Upgrade");
    req.add("Upgrade", "websocket");
    req.add("Sec-WebSocket-Version", "13");
    req.add("Sec-WebSocket-Key", "dGhlIHNhbXBsZSBub25jZQ==");
    HyperSocket::from_request(&req).expect("a valid upgrade")
}

fn accept_headers() -> Vec<Header> {
    vec![
        Header { name: "Sec-Websocket-Version".to_string(), value: "13".to_string() },
        Header {
            name: "Sec-WebSocket-Accept".to_string(),
            value: "s3pPLMBiTxaQ9kYGzzhZRbK+xOo=".to_string(),
        },
    ]
}

#[test]
fn channel_keeps_the_request_and_the_handler() {
    let mut config = WebSocketConfig::default();
    config.max_frame_size = Some(4096);
    let channel: Channel<&str> = validated().config(config).channel("handler");
    let response = channel.upgrade_response();
    assert_eq!(response.headers, accept_headers());
    assert_eq!(response.protocol, "websocket");
    let (ws, handler) = channel.into_parts();
    assert_eq!(handler, "handler");
    assert_eq!(ws.key(), "s3pPLMBiTxaQ9kYGzzhZRbK+xOo=");
    assert_eq!(ws.socket_config().max_frame_size, Some(4096));
}

#[test]
fn stream_keeps_the_request_and_the_handler() {
    let messages: MessageStream<Box<dyn Fn(u8) -> u8>> = validated().stream(Box::new(|x| x + 1));
    let response = messages.upgrade_response();
    assert_eq!(response.headers, accept_headers());
    assert_eq!(response.protocol, "websocket");
    let (ws, transform) = messages.into_parts();
    assert_eq!(transform(41), 42);
    assert_eq!(ws.key(), "s3pPLMBiTxaQ9kYGzzhZRbK+xOo=");
}
