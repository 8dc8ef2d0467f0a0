//! The upgrade handshake: which requests are valid upgrades, the accept key that
//! answers one, and what the upgrade response carries.

use vstd::prelude::*;
use vstd::utf8::encode_utf8;
use crate::text::{
    eq_ignore_ascii_case,
    lists_token,
    str_eq,
    str_eq_ignore_ascii_case,
    value_lists_token,
};
use tungstenite::handshake::derive_accept_key;
use tungstenite::protocol::WebSocketConfig;

verus! {

/// The configuration of a connection, `tungstenite::protocol::WebSocketConfig`.
/// A value of it is carried to the place where the connection is made; nothing
/// here looks inside.
#[verifier::external_type_specification]
#[verifier::external_body]
pub struct ExWebSocketConfig(WebSocketConfig);

/// The accept key that answers the request key `request_key`: what
/// `tungstenite::handshake::derive_accept_key` returns for these bytes.
pub uninterp spec fn accept_key_of(request_key: Seq<u8>) -> Seq<char>;

/// `tungstenite::handshake::derive_accept_key` hashes the request key followed
/// by the protocol's fixed GUID and encodes the digest in base 64. The result
/// depends on the bytes of the request key alone, which is all that is claimed.
pub assume_specification[ tungstenite::handshake::derive_accept_key ](request_key: &[u8]) -> (key:
    String)
    ensures
        key@ == accept_key_of(request_key@),
;

/// `WebSocketConfig::default()` returns the configuration that a connection has
/// when none is set. Nothing is claimed of it.
pub assume_specification[ <WebSocketConfig as core::default::Default>::default ]() -> (config:
    WebSocketConfig)
;

/// One header of a request or of a response.
#[derive(Clone, Debug, PartialEq, Eq)]
pub struct Header {
    pub name: String,
    pub value: String,
}

impl View for Header {
    type V = (Seq<char>, Seq<char>);

    open spec fn view(&self) -> (Seq<char>, Seq<char>) {
        (self.name@, self.value@)
    }
}

/// The headers of one connection attempt, in the order in which they came.
#[derive(Clone, Debug, PartialEq, Eq)]
pub struct HandshakeRequest {
    pub headers: Vec<Header>,
}

impl View for HandshakeRequest {
    type V = Seq<(Seq<char>, Seq<char>)>;

    open spec fn view(&self) -> Seq<(Seq<char>, Seq<char>)> {
        self.headers@.map_values(|h: Header| h@)
    }
}

/// The value of the first header of `headers` whose name is `name`, without
/// regard to ASCII case.
pub open spec fn first_value(headers: Seq<(Seq<char>, Seq<char>)>, name: Seq<char>) -> Option<
    Seq<char>,
>
    decreases headers.len(),
{
    if headers.len() == 0 {
        None
    } else if eq_ignore_ascii_case(headers[0].0, name) {
        Some(headers[0].1)
    } else {
        first_value(headers.drop_first(), name)
    }
}

/// Whether some header of `headers` with the name `name` lists `token` among
/// its comma-separated items.
pub open spec fn some_value_lists(
    headers: Seq<(Seq<char>, Seq<char>)>,
    name: Seq<char>,
    token: Seq<char>,
) -> bool {
    exists|i: int|
        0 <= i < headers.len() && eq_ignore_ascii_case((#[trigger] headers[i]).0, name)
            && lists_token(headers[i].1, token)
}

/// A `Connection` header lists `upgrade`.
pub open spec fn asks_for_upgrade(headers: Seq<(Seq<char>, Seq<char>)>) -> bool {
    some_value_lists(headers, "Connection"@, "upgrade"@)
}

/// An `Upgrade` header lists `websocket`.
pub open spec fn names_websocket(headers: Seq<(Seq<char>, Seq<char>)>) -> bool {
    some_value_lists(headers, "Upgrade"@, "websocket"@)
}

/// `Sec-WebSocket-Version` is `13`.
pub open spec fn has_version_13(headers: Seq<(Seq<char>, Seq<char>)>) -> bool {
    first_value(headers, "Sec-WebSocket-Version"@) == Some("13"@)
}

/// `Sec-WebSocket-Key` is present.
pub open spec fn has_request_key(headers: Seq<(Seq<char>, Seq<char>)>) -> bool {
    first_value(headers, "Sec-WebSocket-Key"@) is Some
}

/// The four conditions under which a request is a valid upgrade.
pub open spec fn is_valid_upgrade(headers: Seq<(Seq<char>, Seq<char>)>) -> bool {
    &&& asks_for_upgrade(headers)
    &&& names_websocket(headers)
    &&& has_version_13(headers)
    &&& has_request_key(headers)
}

/// The accept key that validation computes for `headers`, or `None` where the
/// request is not a valid upgrade.
pub open spec fn accept_key_for(headers: Seq<(Seq<char>, Seq<char>)>) -> Option<Seq<char>> {
    if is_valid_upgrade(headers) {
        Some(accept_key_of(encode_utf8(first_value(headers, "Sec-WebSocket-Key"@).unwrap())))
    } else {
        None
    }
}

impl HandshakeRequest {
    /// A request without headers.
    pub fn new() -> (req: Self)
        ensures
            req@ == Seq::<(Seq<char>, Seq<char>)>::empty(),
    {
        HandshakeRequest { headers: Vec::new() }
    }

    /// Adds a header behind those that the request holds.
    pub fn add(&mut self, name: &str, value: &str)
        ensures
            final(self)@ == old(self)@.push((name@, value@)),
    {
        let header = Header { name: name.to_owned(), value: value.to_owned() };
        self.headers.push(header);
    }

    /// The value of the first header with the name `name`.
    pub fn get_one(&self, name: &str) -> (value: Option<&str>)
        ensures
            (match value {
                Some(v) => first_value(self@, name@) == Some(v@),
                None => first_value(self@, name@) is None,
            }),
    {
        let mut i: usize = 0;
        assert(self@.skip(0) =~= self@);
        while i < self.headers.len()
            invariant
                i <= self.headers.len(),
                first_value(self@, name@) == first_value(self@.skip(i as int), name@),
            decreases self.headers.len() - i,
        {
            if str_eq_ignore_ascii_case(self.headers[i].name.as_str(), name) {
                return Some(self.headers[i].value.as_str());
            }
            assert(self@.skip(i as int).drop_first() =~= self@.skip(i + 1));
            i += 1;
        }
        None
    }

    /// Whether some header with the name `name` lists `token` among its
    /// comma-separated items.
    pub fn some_value_lists(&self, name: &str, token: &str) -> (r: bool)
        ensures
            r == some_value_lists(self@, name@, token@),
    {
        let mut i: usize = 0;
        while i < self.headers.len()
            invariant
                i <= self.headers.len(),
                forall|k: int|
                    0 <= k < i ==> !(eq_ignore_ascii_case((#[trigger] self@[k]).0, name@)
                        && lists_token(self@[k].1, token@)),
            decreases self.headers.len() - i,
        {
            assert(self@[i as int] == self.headers@[i as int]@);
            if str_eq_ignore_ascii_case(self.headers[i].name.as_str(), name) && value_lists_token(
                self.headers[i].value.as_str(),
                token,
            ) {
                return true;
            }
            i += 1;
        }
        false
    }
}

/// A request that passed validation: the accept key that answers it, and the
/// configuration that its connection will have.
pub struct HyperSocket {
    config: WebSocketConfig,
    key: String,
}

/// What the upgrade response carries: its headers, and the protocol that the
/// host switches the connection to once the response is sent.
#[derive(Clone, Debug, PartialEq, Eq)]
pub struct UpgradeResponse {
    pub headers: Vec<Header>,
    pub protocol: String,
}

impl HyperSocket {
    /// The accept key.
    pub closed spec fn spec_key(&self) -> Seq<char> {
        self.key@
    }

    /// The configuration.
    pub closed spec fn spec_config(&self) -> WebSocketConfig {
        self.config
    }

    /// A validated request with the accept key `key` and the default
    /// configuration.
    pub fn new(key: String) -> (ws: Self)
        ensures
            ws.spec_key() == key@,
    {
        Self { config: WebSocketConfig::default(), key }
    }

    /// Replaces the configuration.
    pub fn config(self, config: WebSocketConfig) -> (ws: Self)
        ensures
            ws.spec_key() == self.spec_key(),
            ws.spec_config() == config,
    {
        Self { config, key: self.key }
    }

    /// The accept key.
    pub fn key(&self) -> (key: &str)
        ensures
            key@ == self.spec_key(),
    {
        self.key.as_str()
    }

    /// The configuration.
    pub fn socket_config(&self) -> (config: &WebSocketConfig)
        ensures
            *config == self.spec_config(),
    {
        &self.config
    }

    /// Validates an upgrade request. The result is `Some` exactly when the
    /// request is a valid upgrade, and then holds the accept key derived from
    /// its `Sec-WebSocket-Key`. `None` says that the request is not for this
    /// layer: the host passes it on.
    pub fn from_request(req: &HandshakeRequest) -> (ws: Option<Self>)
        ensures
            (match ws {
                Some(ws) => accept_key_for(req@) == Some(ws.spec_key()),
                None => accept_key_for(req@) is None,
            }),
    {
        let is_upgrade = req.some_value_lists("Connection", "upgrade");
        let is_ws = req.some_value_lists("Upgrade", "websocket");
        let is_13 = match req.get_one("Sec-WebSocket-Version") {
            Some(v) => str_eq(v, "13"),
            None => false,
        };
        match req.get_one("Sec-WebSocket-Key") {
            Some(k) => {
                let key = derive_accept_key(k.as_bytes());
                if is_upgrade && is_ws && is_13 {
                    Some(HyperSocket::new(key))
                } else {
                    None
                }
            },
            None => None,
        }
    }

    /// The response that accepts the upgrade: the protocol version, the accept
    /// key, and the switch to the `websocket` protocol.
    pub fn upgrade_response(&self) -> (response: UpgradeResponse)
        ensures
            response.headers@.map_values(|h: Header| h@) == seq![
                ("Sec-Websocket-Version"@, "13"@),
                ("Sec-WebSocket-Accept"@, self.spec_key()),
            ],
            response.protocol@ == "websocket"@,
    {
        let mut headers: Vec<Header> = Vec::new();
        headers.push(Header { name: "Sec-Websocket-Version".to_owned(), value: "13".to_owned() });
        headers.push(Header { name: "Sec-WebSocket-Accept".to_owned(), value: self.key.clone() });
        assert(headers@.map_values(|h: Header| h@) =~= seq![
            ("Sec-Websocket-Version"@, "13"@),
            ("Sec-WebSocket-Accept"@, self.spec_key()),
        ]);
        UpgradeResponse { headers, protocol: "websocket".to_owned() }
    }
}

/// The accept key depends on the request key alone: two valid upgrade requests
/// with the same `Sec-WebSocket-Key` get the same accept key.
pub proof fn lemma_accept_key_determined_by_request_key(
    a: Seq<(Seq<char>, Seq<char>)>,
    b: Seq<(Seq<char>, Seq<char>)>,
)
    requires
        is_valid_upgrade(a),
        is_valid_upgrade(b),
        first_value(a, "Sec-WebSocket-Key"@) == first_value(b, "Sec-WebSocket-Key"@),
    ensures
        accept_key_for(a) is Some,
        accept_key_for(a) == accept_key_for(b),
{
}

/// A request that misses any one of the four conditions is not a valid upgrade:
/// validation yields no accept key for it.
pub proof fn lemma_missing_condition_is_not_applicable(headers: Seq<(Seq<char>, Seq<char>)>)
    requires
        !asks_for_upgrade(headers) || !names_websocket(headers) || !has_version_13(headers)
            || !has_request_key(headers),
    ensures
        accept_key_for(headers) is None,
{
}

} // verus!
