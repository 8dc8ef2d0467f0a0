use hypersocket::envelope::Envelope;
use hypersocket::message::Message;
use hypersocket::prelude::{C2SEventHandler, C2SPacket, S2CPacket};
use hypersocket::registry::{
    deliver, deliver_decoded, emit, emit_payload, invoke_all, Delivery, PacketRegistry,
};
use std::sync::{Arc, Mutex};

type Handler = Box<dyn Fn(&Envelope) -> Delivery + Send + Sync>;
type Log = Arc<Mutex<Vec<String>>>;

#[derive(Debug, PartialEq)]
struct Join {
    username: String,
}

impl<'a> C2SPacket<'a> for Join {
    fn from_payload(payload: &'a [u8]) -> Option<Self> {
        let text = std::str::from_utf8(payload).ok()?;
        let username = text.strip_prefix("username=")?;
        Some(Join { username: username.to_string() })
    }
}

#[derive(Debug, PartialEq)]
struct Line {
    text: String,
}

impl S2CPacket for Line {
    fn to_payload(&self) -> Vec<u8> {
        format!("text={}", self.text).into_bytes()
    }
}

fn envelope(name: &str, payload: &[u8]) -> Envelope {
    Envelope { name: name.to_string(), payload: payload.to_vec() }
}

fn recorder(log: &Log, tag: &str) -> Handler {
    let log = log.clone();
    let tag = tag.to_string();
    Box::new(move |e: &Envelope| {
        let log = log.clone();
        let tag = tag.clone();
        deliver(
            &move |join: Join| log.lock().unwrap().push(format!("{}:{}", tag, join.username)),
            &e.payload,
        )
    })
}

#[test]
fn handlers_are_invoked_in_registration_order() {
    let log: Log = Arc::new(Mutex::new(Vec::new()));
    let mut registry: PacketRegistry<Handler> = PacketRegistry::new();
    registry.on("join", recorder(&log, "first"));
    registry.on("leave", recorder(&log, "other"));
    registry.on("join", recorder(&log, "second"));
    let reports = registry.dispatch(&envelope("join", b"username=ann"));
    assert_eq!(reports, vec![Delivery::Delivered, Delivery::Delivered]);
    assert_eq!(*log.lock().unwrap(), vec!["first:ann".to_string(), "second:ann".to_string()]);
}

#[test]
fn an_unregistered_name_reaches_nobody() {
    let log: Log = Arc::new(Mutex::new(Vec::new()));
    let mut registry: PacketRegistry<Handler> = PacketRegistry::new();
    assert_eq!(registry.dispatch(&envelope("join", b"username=ann")), vec![]);
    registry.on("join", recorder(&log, "first"));
    assert_eq!(registry.dispatch(&envelope("Join", b"username=ann")), vec![]);
    assert_eq!(registry.dispatch(&envelope("", b"username=ann")), vec![]);
    assert_eq!(*log.lock().unwrap(), Vec::<String>::new());
    assert_eq!(registry.len(), 1);
}

#[test]
fn a_payload_that_cannot_be_read_does_not_stop_the_others() {
    let log: Log = Arc::new(Mutex::new(Vec::new()));
    let mut registry: PacketRegistry<Handler> = PacketRegistry::new();
    registry.on("join", recorder(&log, "first"));
    registry.on("join", Box::new(|_: &Envelope| Delivery::DecodeFailed));
    registry.on("join", recorder(&log, "third"));
    let reports = registry.dispatch(&envelope("join", b"username=bob"));
    assert_eq!(reports, vec![Delivery::Delivered, Delivery::DecodeFailed, Delivery::Delivered]);
    assert_eq!(*log.lock().unwrap(), vec!["first:bob".to_string(), "third:bob".to_string()]);
    let reports = registry.dispatch(&envelope("join", b"nonsense"));
    assert_eq!(reports, vec![Delivery::DecodeFailed; 3]);
    assert_eq!(log.lock().unwrap().len(), 2);
}

#[test]
fn every_registration_counts() {
    let mut registry: PacketRegistry<u32> = PacketRegistry::new();
    assert_eq!(registry.len(), 0);
    let names = ["join", "message", "join", "leave", "join"];
    for (i, name) in names.iter().enumerate() {
        registry.on(name, i as u32);
        assert_eq!(registry.len(), i + 1);
    }
    assert_eq!(registry.handlers("join"), vec![&0, &2, &4]);
    assert_eq!(registry.handlers("message"), vec![&1]);
    assert_eq!(registry.handlers("leave"), vec![&3]);
    assert_eq!(registry.handlers("other"), Vec::<&u32>::new());
}

#[test]
fn registrations_behind_a_lock_are_all_kept() {
    let registry: Arc<Mutex<PacketRegistry<usize>>> = Arc::new(Mutex::new(PacketRegistry::new()));
    for caller in 0..4 {
        let registry = registry.clone();
        for i in 0..25 {
            registry.lock().unwrap().on(if i % 2 == 0 { "even" } else { "odd" }, caller * 25 + i);
        }
    }
    let registry = registry.lock().unwrap();
    assert_eq!(registry.len(), 100);
    assert_eq!(registry.handlers("even").len(), 52);
    assert_eq!(registry.handlers("odd").len(), 48);
}

#[test]
fn invoke_all_reports_in_order() {
    let yes = |_: &Envelope| Delivery::Delivered;
    let no = |_: &Envelope| Delivery::DecodeFailed;
    let handlers: Vec<Handler> = vec![Box::new(no), Box::new(yes), Box::new(no)];
    let refs: Vec<&Handler> = handlers.iter().collect();
    assert_eq!(
        invoke_all(&refs, &envelope("x", b"")),
        vec![Delivery::DecodeFailed, Delivery::Delivered, Delivery::DecodeFailed]
    );
    assert_eq!(invoke_all(&Vec::<&Handler>::new(), &envelope("x", b"")), vec![]);
}

#[test]
fn deliver_gives_the_handler_the_packet() {
    let seen: Arc<Mutex<Vec<Join>>> = Arc::new(Mutex::new(Vec::new()));
    let sink = seen.clone();
    let handler = move |join: Join| sink.lock().unwrap().push(join);
    assert_eq!(deliver(&handler, b"username=ann"), Delivery::Delivered);
    assert_eq!(deliver(&handler, b"user=ann"), Delivery::DecodeFailed);
    assert_eq!(deliver_decoded(&handler, Some(Join { username: "bob".to_string() })), Delivery::Delivered);
    assert_eq!(deliver_decoded(&handler, None), Delivery::DecodeFailed);
    assert_eq!(
        *seen.lock().unwrap(),
        vec![Join { username: "ann".to_string() }, Join { username: "bob".to_string() }]
    );
}

struct Counter {
    joins: Mutex<usize>,
}

impl<'a> C2SEventHandler<'a, Join> for Counter {
    fn handle(&self, _packet: Join) {
        *self.joins.lock().unwrap() += 1;
    }
}

#[test]
fn a_handler_may_be_any_type_with_the_trait() {
    let counter = Counter { joins: Mutex::new(0) };
    assert_eq!(deliver(&counter, b"username=ann"), Delivery::Delivered);
    assert_eq!(deliver(&counter, b""), Delivery::DecodeFailed);
    assert_eq!(deliver(&counter, b"username="), Delivery::Delivered);
    assert_eq!(*counter.joins.lock().unwrap(), 2);
}

#[test]
fn emit_round_trips_name_and_payload() {
    let message = emit_payload("message", b"text=Hello, world!");
    assert_eq!(
        Envelope::from_message(&message),
        Some(envelope("message", b"text=Hello, world!"))
    );
    let message = emit("message", &Line { text: "Hello, world!".to_string() });
    assert_eq!(
        message,
        Message::Binary([&[7u8, 0, 0, 0, 0, 0, 0, 0][..], b"message", b"text=Hello, world!"].concat())
    );
    assert_eq!(
        Envelope::from_message(&message),
        Some(envelope("message", b"text=Hello, world!"))
    );
}

#[test]
fn an_emitted_packet_reaches_the_handlers_of_its_name() {
    let log: Log = Arc::new(Mutex::new(Vec::new()));
    let mut registry: PacketRegistry<Handler> = PacketRegistry::new();
    registry.on("join", recorder(&log, "a"));
    registry.on("join", recorder(&log, "b"));
    let message = emit_payload("join", b"username=cy");
    let arrived = Envelope::from_message(&message).expect("an envelope");
    assert_eq!(registry.dispatch(&arrived), vec![Delivery::Delivered, Delivery::Delivered]);
    assert_eq!(*log.lock().unwrap(), vec!["a:cy".to_string(), "b:cy".to_string()]);
}
