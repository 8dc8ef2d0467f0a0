//! The registry of packet handlers, and the way of a packet in and out.
//!
//! Handlers are registered under the name of the packet that they take. Several
//! may stand under one name; they are kept, and later invoked, in the order in
//! which they were registered. A packet that arrives comes as an envelope: the
//! handlers under its name each get its payload, and each reports whether it
//! could read it. A packet that leaves is put into an envelope under its name.
//!
//! The registry holds the handlers as values of one type `H`, a callable from
//! an envelope to a `Delivery`. What a handler does with a payload is its own
//! affair; `deliver` is the body of a handler that reads a packet of one type
//! and passes it on.

use vstd::prelude::*;
use crate::envelope::{encode_envelope, envelope_bytes, envelope_of, Envelope};
use crate::message::Message;
use crate::prelude::{C2SEventHandler, C2SPacket, S2CPacket};
use crate::text::str_eq;

verus! {

/// What became of a payload that was offered to one handler.
#[derive(Clone, Copy, Debug, PartialEq, Eq, Structural)]
pub enum Delivery {
    /// The payload was read, and the handler got the packet.
    Delivered,
    /// The payload could not be read as the packet that the handler takes.
    DecodeFailed,
}

/// One handler, and the name under which it was registered.
pub struct Registration<H> {
    pub name: String,
    pub handler: H,
}

/// The handlers of all packets, in the order of their registration.
pub struct PacketRegistry<H> {
    entries: Vec<Registration<H>>,
}

/// The handlers among `entries` that stand under `name`, in the order in which
/// they stand in `entries`.
pub open spec fn handlers_of<H>(entries: Seq<(Seq<char>, H)>, name: Seq<char>) -> Seq<H>
    decreases entries.len(),
{
    if entries.len() == 0 {
        Seq::empty()
    } else if entries.last().0 == name {
        handlers_of(entries.drop_last(), name).push(entries.last().1)
    } else {
        handlers_of(entries.drop_last(), name)
    }
}

/// The registrations `entries` after each of `more` was added, in order.
pub open spec fn with_all<H>(entries: Seq<(Seq<char>, H)>, more: Seq<(Seq<char>, H)>) -> Seq<
    (Seq<char>, H),
>
    decreases more.len(),
{
    if more.len() == 0 {
        entries
    } else {
        with_all(entries.push(more[0]), more.drop_first())
    }
}

impl<H> View for PacketRegistry<H> {
    type V = Seq<(Seq<char>, H)>;

    closed spec fn view(&self) -> Seq<(Seq<char>, H)> {
        self.entries@.map_values(|r: Registration<H>| (r.name@, r.handler))
    }
}

impl<H> PacketRegistry<H> {
    /// A registry without handlers.
    pub fn new() -> (registry: Self)
        ensures
            registry@ == Seq::<(Seq<char>, H)>::empty(),
    {
        PacketRegistry { entries: Vec::new() }
    }

    /// Registers `handler` under `name`, behind every handler registered
    /// before. Nothing that was registered is lost or moved.
    pub fn on(&mut self, name: &str, handler: H)
        ensures
            final(self)@ == old(self)@.push((name@, handler)),
    {
        self.entries.push(Registration { name: name.to_owned(), handler });
    }

    /// The number of registrations, under all names.
    pub fn len(&self) -> (n: usize)
        ensures
            n == self@.len(),
    {
        self.entries.len()
    }

    /// The handlers registered under `name`, in the order of their
    /// registration; none where the name is unknown.
    pub fn handlers(&self, name: &str) -> (found: Vec<&H>)
        ensures
            found@.len() == handlers_of(self@, name@).len(),
            forall|i: int|
                0 <= i < found@.len() ==> *(#[trigger] found@[i]) == handlers_of(
                    self@,
                    name@,
                )[i],
    {
        let mut found: Vec<&H> = Vec::new();
        let mut i: usize = 0;
        while i < self.entries.len()
            invariant
                i <= self.entries.len(),
                found@.len() == handlers_of(self@.take(i as int), name@).len(),
                forall|k: int|
                    0 <= k < found@.len() ==> *(#[trigger] found@[k]) == handlers_of(
                        self@.take(i as int),
                        name@,
                    )[k],
            decreases self.entries.len() - i,
        {
            let entry = &self.entries[i];
            assert(self@.take(i + 1).drop_last() =~= self@.take(i as int));
            if str_eq(entry.name.as_str(), name) {
                found.push(&entry.handler);
            }
            i += 1;
        }
        assert(self@.take(self@.len() as int) =~= self@);
        found
    }
}

/// Offers `envelope` to each of `handlers`, in order, and returns what each
/// made of it, in the same order.
pub fn invoke_all<H>(handlers: &Vec<&H>, envelope: &Envelope) -> (reports: Vec<Delivery>) where
    H: Fn(&Envelope) -> Delivery,

    requires
        forall|i: int| 0 <= i < handlers@.len() ==> call_requires(*handlers@[i], (envelope,)),
    ensures
        reports@.len() == handlers@.len(),
        forall|i: int|
            0 <= i < handlers@.len() ==> call_ensures(
                *handlers@[i],
                (envelope,),
                #[trigger] reports@[i],
            ),
{
    let mut reports: Vec<Delivery> = Vec::new();
    let mut i: usize = 0;
    while i < handlers.len()
        invariant
            i <= handlers.len(),
            reports@.len() == i,
            forall|k: int| 0 <= k < handlers@.len() ==> call_requires(*handlers@[k], (envelope,)),
            forall|k: int|
                0 <= k < i ==> call_ensures(*handlers@[k], (envelope,), #[trigger] reports@[k]),
        decreases handlers.len() - i,
    {
        let handler = handlers[i];
        let report = handler(envelope);
        reports.push(report);
        i += 1;
    }
    reports
}

impl<H: Fn(&Envelope) -> Delivery> PacketRegistry<H> {
    /// Hands `envelope` to every handler registered under its name, in the
    /// order of their registration, and returns what each made of it. An
    /// envelope under a name that has no handler reaches nobody, which is no
    /// error: the result is empty. A handler that cannot read the payload
    /// reports so, and the others are invoked all the same.
    pub fn dispatch(&self, envelope: &Envelope) -> (reports: Vec<Delivery>)
        requires
            forall|i: int|
                0 <= i < handlers_of(self@, envelope.name@).len() ==> call_requires(
                    #[trigger] handlers_of(self@, envelope.name@)[i],
                    (envelope,),
                ),
        ensures
            reports@.len() == handlers_of(self@, envelope.name@).len(),
            forall|i: int|
                0 <= i < reports@.len() ==> call_ensures(
                    handlers_of(self@, envelope.name@)[i],
                    (envelope,),
                    #[trigger] reports@[i],
                ),
    {
        let handlers = self.handlers(envelope.name.as_str());
        invoke_all(&handlers, envelope)
    }
}

/// Gives `handler` the packet that was read from a payload, where one was
/// read, and reports which of the two it was.
pub fn deliver_decoded<'a, P, H>(handler: &H, decoded: Option<P>) -> (report: Delivery) where
    H: C2SEventHandler<'a, P>,

    requires
        decoded matches Some(packet) ==> handler.accepts(packet),
    ensures
        report == (match decoded {
            Some(_) => Delivery::Delivered,
            None => Delivery::DecodeFailed,
        }),
{
    match decoded {
        Some(packet) => {
            handler.handle(packet);
            Delivery::Delivered
        },
        None => Delivery::DecodeFailed,
    }
}

/// Reads a packet of the type `P` from `payload` and gives it to `handler`.
/// Whether the payload can be read is for `P` to say; the handler gets the
/// packet exactly where it can. The report is that of one reading of exactly
/// this payload: `Delivered` where the reading gave a packet, `DecodeFailed`
/// where it gave none.
pub fn deliver<'a, P, H>(handler: &H, payload: &'a [u8]) -> (report: Delivery) where
    P: C2SPacket<'a>,
    H: C2SEventHandler<'a, P>,

    requires
        forall|packet: P| handler.accepts(packet),
    ensures
        exists|decoded: Option<P>|
            #[trigger] P::reads(payload@, decoded) && report == (match decoded {
                Some(_) => Delivery::Delivered,
                None => Delivery::DecodeFailed,
            }),
{
    let decoded = P::from_payload(payload);
    let ghost read = decoded;
    let report = deliver_decoded(handler, decoded);
    assert(P::reads(payload@, read));
    report
}

/// The message that carries `payload` under `name`: a binary message whose
/// envelope holds exactly this name and this payload.
pub fn emit_payload(name: &str, payload: &[u8]) -> (message: Message)
    ensures
        message matches Message::Binary(bytes) && bytes@ == envelope_bytes(name@, payload@),
        envelope_of(message) == Some((name@, payload@)),
{
    Message::Binary(encode_envelope(name, payload))
}

/// The message that carries `packet` under `name`. The payload is what the
/// packet encodes itself as; the envelope of the message holds it under
/// exactly this name.
pub fn emit<P: S2CPacket>(name: &str, packet: &P) -> (message: Message)
    ensures
        envelope_of(message) matches Some(envelope) && envelope.0 == name@,
{
    let payload = packet.to_payload();
    emit_payload(name, payload.as_slice())
}

/// A registration adds its handler behind those that stand under the same
/// name, and leaves the handlers under every other name as they are.
pub proof fn lemma_on_appends<H>(entries: Seq<(Seq<char>, H)>, name: Seq<char>, handler: H)
    ensures
        handlers_of(entries.push((name, handler)), name) == handlers_of(entries, name).push(
            handler,
        ),
        forall|other: Seq<char>|
            other != name ==> #[trigger] handlers_of(entries.push((name, handler)), other)
                == handlers_of(entries, other),
{
    assert(entries.push((name, handler)).drop_last() =~= entries);
}

/// Two handlers registered under the same name both stand under it, in the
/// order of their registration, behind those that stood there before: both get
/// an envelope that arrives under the name, the first before the second.
pub proof fn lemma_two_handlers_in_order<H>(
    entries: Seq<(Seq<char>, H)>,
    name: Seq<char>,
    first: H,
    second: H,
)
    ensures
        handlers_of(entries.push((name, first)).push((name, second)), name) == handlers_of(
            entries,
            name,
        ).push(first).push(second),
{
    lemma_on_appends(entries, name, first);
    lemma_on_appends(entries.push((name, first)), name, second);
}

/// A name under which nothing was registered has no handlers: an envelope
/// under it reaches nobody.
pub proof fn lemma_unknown_name_has_no_handlers<H>(entries: Seq<(Seq<char>, H)>, name: Seq<char>)
    requires
        forall|i: int| 0 <= i < entries.len() ==> (#[trigger] entries[i]).0 != name,
    ensures
        handlers_of(entries, name) == Seq::<H>::empty(),
    decreases entries.len(),
{
    if entries.len() > 0 {
        lemma_unknown_name_has_no_handlers(entries.drop_last(), name);
    }
}

/// No registration is lost: after any number of registrations the registry
/// holds as many more entries as there were registrations, and under every
/// name the handlers that stood there before, followed by those that were
/// added under it, in order.
pub proof fn lemma_no_registration_is_lost<H>(
    entries: Seq<(Seq<char>, H)>,
    more: Seq<(Seq<char>, H)>,
    name: Seq<char>,
)
    ensures
        with_all(entries, more) == entries + more,
        with_all(entries, more).len() == entries.len() + more.len(),
        handlers_of(with_all(entries, more), name) == handlers_of(entries, name) + handlers_of(
            more,
            name,
        ),
    decreases more.len(),
{
    if more.len() == 0 {
        assert(handlers_of(entries, name) + handlers_of(more, name) =~= handlers_of(
            entries,
            name,
        ));
    } else {
        let head = more[0];
        let tail = more.drop_first();
        lemma_no_registration_is_lost(entries.push(head), tail, name);
        lemma_handlers_of_concat(entries, more, name);
    }
}

/// The handlers under a name in one list of registrations followed by another
/// are those of the first followed by those of the second.
pub proof fn lemma_handlers_of_concat<H>(
    a: Seq<(Seq<char>, H)>,
    b: Seq<(Seq<char>, H)>,
    name: Seq<char>,
)
    ensures
        handlers_of(a + b, name) == handlers_of(a, name) + handlers_of(b, name),
    decreases b.len(),
{
    if b.len() == 0 {
    } else {
        lemma_handlers_of_concat(a, b.drop_last(), name);
        assert((a + b).drop_last() =~= a + b.drop_last());
        if b.last().0 == name {
            assert(handlers_of(a, name) + handlers_of(b.drop_last(), name).push(b.last().1)
                =~= (handlers_of(a, name) + handlers_of(b.drop_last(), name)).push(b.last().1));
        }
    }
}

} // verus!
