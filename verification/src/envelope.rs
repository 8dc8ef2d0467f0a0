//! The envelope that carries a packet inside a binary message.
//!
//! An envelope is the packet's name and its encoded payload. On the wire it is
//! the length of the name's UTF-8 encoding as eight bytes, least significant
//! first, then the name in UTF-8, then the payload to the end of the message.

use vstd::prelude::*;
use vstd::bytes::{
    lemma_auto_spec_u64_to_from_le_bytes,
    spec_u64_from_le_bytes,
    spec_u64_to_le_bytes,
    u64_from_le_bytes,
    u64_to_le_bytes,
};
use vstd::slice::slice_subrange;
use vstd::string::StringSliceAdditionalSpecFns;
use vstd::utf8::{
    decode_utf8,
    encode_utf8,
    encode_utf8_decode_utf8,
    encode_utf8_valid_utf8,
    valid_utf8,
};
use crate::message::Message;

verus! {

/// The name of a packet and its encoded payload.
#[derive(Clone, Debug, PartialEq, Eq)]
pub struct Envelope {
    pub name: String,
    pub payload: Vec<u8>,
}

impl View for Envelope {
    type V = (Seq<char>, Seq<u8>);

    open spec fn view(&self) -> (Seq<char>, Seq<u8>) {
        (self.name@, self.payload@)
    }
}

/// The bytes of the envelope with the name `name` and the payload `payload`.
pub open spec fn envelope_bytes(name: Seq<char>, payload: Seq<u8>) -> Seq<u8> {
    spec_u64_to_le_bytes(encode_utf8(name).len() as u64) + encode_utf8(name) + payload
}

/// The envelope that `bytes` holds, or `None` where they hold none: where they
/// are too short for the length, or for the name that the length announces, or
/// where the name is not UTF-8.
pub open spec fn parse_envelope(bytes: Seq<u8>) -> Option<(Seq<char>, Seq<u8>)> {
    if bytes.len() < 8 {
        None
    } else {
        let n = spec_u64_from_le_bytes(bytes.subrange(0, 8)) as int;
        if n > bytes.len() - 8 {
            None
        } else if !valid_utf8(bytes.subrange(8, 8 + n)) {
            None
        } else {
            Some((decode_utf8(bytes.subrange(8, 8 + n)), bytes.subrange(8 + n, bytes.len() as int)))
        }
    }
}

/// The envelope that a message carries: only a binary message carries one.
pub open spec fn envelope_of(message: Message) -> Option<(Seq<char>, Seq<u8>)> {
    match message {
        Message::Binary(bytes) => parse_envelope(bytes@),
        _ => None,
    }
}

/// `std::str::from_utf8` returns the string slice that the bytes encode where
/// they are valid UTF-8, and an error where they are not.
#[verifier::external_body]
fn utf8_to_str(bytes: &[u8]) -> (text: Option<&str>)
    ensures
        text is Some == valid_utf8(bytes@),
        text matches Some(s) ==> s.spec_bytes() == bytes@,
{
    std::str::from_utf8(bytes).ok()
}

/// Appends `bytes` to `out`.
fn append_bytes(out: &mut Vec<u8>, bytes: &[u8])
    ensures
        final(out)@ == old(out)@ + bytes@,
{
    let mut i: usize = 0;
    while i < bytes.len()
        invariant
            i <= bytes.len(),
            out@ == old(out)@ + bytes@.take(i as int),
        decreases bytes.len() - i,
    {
        out.push(bytes[i]);
        i += 1;
    }
}

/// The bytes of the envelope with the name `name` and the payload `payload`.
/// They hold exactly this envelope.
pub fn encode_envelope(name: &str, payload: &[u8]) -> (bytes: Vec<u8>)
    ensures
        bytes@ == envelope_bytes(name@, payload@),
        parse_envelope(bytes@) == Some((name@, payload@)),
{
    let name_bytes = name.as_bytes();
    let n = name_bytes.len();
    proof {
        lemma_envelope_round_trip(name@, payload@);
    }
    let mut bytes = u64_to_le_bytes(n as u64);
    append_bytes(&mut bytes, name_bytes);
    append_bytes(&mut bytes, payload);
    bytes
}

impl Envelope {
    /// The bytes of this envelope.
    pub fn encode(&self) -> (bytes: Vec<u8>)
        ensures
            bytes@ == envelope_bytes(self.name@, self.payload@),
            parse_envelope(bytes@) == Some(self@),
    {
        encode_envelope(self.name.as_str(), self.payload.as_slice())
    }

    /// The envelope that `bytes` hold. The result is `None` exactly where they
    /// hold none.
    pub fn decode(bytes: &[u8]) -> (envelope: Option<Envelope>)
        ensures
            (match envelope {
                Some(e) => parse_envelope(bytes@) == Some(e@),
                None => parse_envelope(bytes@) is None,
            }),
    {
        let len = bytes.len();
        if len < 8 {
            return None;
        }
        let n = u64_from_le_bytes(slice_subrange(bytes, 0, 8));
        if n > (len - 8) as u64 {
            return None;
        }
        let end: usize = 8 + n as usize;
        match utf8_to_str(slice_subrange(bytes, 8, end)) {
            None => None,
            Some(name) => {
                proof {
                    encode_utf8_decode_utf8(name@);
                }
                let mut payload: Vec<u8> = Vec::new();
                append_bytes(&mut payload, slice_subrange(bytes, end, len));
                Some(Envelope { name: name.to_owned(), payload })
            },
        }
    }

    /// The binary message that carries this envelope.
    pub fn into_message(self) -> (message: Message)
        ensures
            message matches Message::Binary(bytes) && bytes@ == envelope_bytes(
                self.name@,
                self.payload@,
            ),
            envelope_of(message) == Some(self@),
    {
        Message::Binary(self.encode())
    }

    /// The envelope that `message` carries. The result is `None` exactly where
    /// it carries none: where it is not binary, or its bytes hold no envelope.
    pub fn from_message(message: &Message) -> (envelope: Option<Envelope>)
        ensures
            (match envelope {
                Some(e) => envelope_of(*message) == Some(e@),
                None => envelope_of(*message) is None,
            }),
    {
        match message {
            Message::Binary(bytes) => Envelope::decode(bytes.as_slice()),
            _ => None,
        }
    }
}

/// An envelope comes back from its bytes as it went in: the name and the
/// payload that are read from the bytes of an envelope are those that it was
/// made of. The name must be one whose length in bytes fits in 64 bits, as
/// that of every string in memory does.
pub proof fn lemma_envelope_round_trip(name: Seq<char>, payload: Seq<u8>)
    requires
        encode_utf8(name).len() <= u64::MAX,
    ensures
        parse_envelope(envelope_bytes(name, payload)) == Some((name, payload)),
{
    let name_bytes = encode_utf8(name);
    let n = name_bytes.len() as u64;
    let bytes = envelope_bytes(name, payload);
    lemma_auto_spec_u64_to_from_le_bytes();
    encode_utf8_valid_utf8(name);
    encode_utf8_decode_utf8(name);
    assert(bytes.subrange(0, 8) =~= spec_u64_to_le_bytes(n));
    assert(bytes.subrange(8, 8 + n) =~= name_bytes);
}

} // verus!
