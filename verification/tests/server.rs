use hypersocket::prelude::{C2SEventHandler, C2SPacket, S2CPacket};
use hypersocket::registry::{deliver, emit};
use hypersocket::{Delivery, Envelope, Message, PacketRegistry};
use std::sync::Mutex;

type Handler = Box<dyn Fn(&Envelope) -> Delivery + Send + Sync>;

struct HyperSocketServer {
    handlers: Mutex<PacketRegistry<Handler>>,
}

impl HyperSocketServer {
    fn init() -> Self {
        Self { handlers: Mutex::new(PacketRegistry::new()) }
    }

    fn __on<H, P>(&self, name: &str, handler: H)
    where
        H: for<'a> C2SEventHandler<'a, P> + 'static,
        P: for<'a> C2SPacket<'a> + 'static,
    {
        let erased: Handler = Box::new(move |e: &Envelope| deliver::<P, H>(&handler, &e.payload));
        self.handlers.lock().unwrap().on(name, erased);
    }

    fn __emit<P>(&self, name: &str, packet: P) -> Message
    where
        P: S2CPacket,
    {
        emit(name, &packet)
    }
}

fn field(payload: &[u8], key: &str) -> Option<String> {
    let value: serde_json::Value = serde_json::from_slice(payload).ok()?;
    Some(value.get(key)?.as_str()?.to_string())
}

fn object(key: &str, value: &str) -> Vec<u8> {
    let mut map = serde_json::Map::new();
    map.insert(key.to_string(), serde_json::Value::String(value.to_string()));
    serde_json::to_vec(&serde_json::Value::Object(map)).unwrap()
}

#[test]
fn example() {
    #[allow(non_camel_case_types)]
    #[derive(Debug)]
    struct Join_C2S {
        username: String,
    }
    impl<'a> C2SPacket<'a> for Join_C2S {
        fn from_payload(payload: &'a [u8]) -> Option<Self> {
            Some(Join_C2S { username: field(payload, "username")? })
        }
    }
    impl HyperSocketServer {
        fn on_join<H>(&self, handler: H)
        where
            H: for<'a> C2SEventHandler<'a, Join_C2S> + 'static,
        {
            self.__on::<H, Join_C2S>("join", handler);
        }
    }

    #[allow(non_camel_case_types)]
    #[derive(Debug)]
    struct Message_C2S {
        text: String,
    }
    impl<'a> C2SPacket<'a> for Message_C2S {
        fn from_payload(payload: &'a [u8]) -> Option<Self> {
            Some(Message_C2S { text: field(payload, "text")? })
        }
    }
    impl HyperSocketServer {
        fn on_message(&self, handler: impl for<'a> C2SEventHandler<'a, Message_C2S> + 'static) {
            self.__on("message", handler);
        }
    }

    #[allow(non_camel_case_types)]
    #[derive(Debug)]
    struct Leave_C2S {
        username: String,
    }
    impl<'a> C2SPacket<'a> for Leave_C2S {
        fn from_payload(payload: &'a [u8]) -> Option<Self> {
            Some(Leave_C2S { username: field(payload, "username")? })
        }
    }
    impl HyperSocketServer {
        fn on_leave<H>(&self, handler: H)
        where
            H: for<'a> C2SEventHandler<'a, Leave_C2S> + 'static,
        {
            self.__on::<H, Leave_C2S>("leave", handler);
        }
    }

    #[allow(non_camel_case_types)]
    #[derive(Debug)]
    struct Message_S2C {
        text: String,
    }
    impl S2CPacket for Message_S2C {
        fn to_payload(&self) -> Vec<u8> {
            object("text", &self.text)
        }
    }
    impl HyperSocketServer {
        fn emit_message(&self, message: Message_S2C) -> Message {
            self.__emit("message", message)
        }
    }

    let hss = HyperSocketServer::init();

    fn on_message(event: Message_C2S) {
        println!("Received message: {}", event.text);
    }

    fn on_join(event: Join_C2S) {
        println!("Received join: {}", event.username);
    }

    fn on_leave(event: Leave_C2S) {
        println!("Received leave: {}", event.username);
    }

    hss.on_message(on_message);
    hss.on_join(on_join);
    hss.on_leave(on_leave);

    let sent = hss.emit_message(Message_S2C { text: "Hello, world!".to_string() });

    assert_eq!(hss.handlers.lock().unwrap().len(), 3);
    let arrived = Envelope::from_message(&sent).expect("an envelope");
    assert_eq!(arrived.name, "message");
    assert_eq!(field(&arrived.payload, "text"), Some("Hello, world!".to_string()));
    let reports = hss.handlers.lock().unwrap().dispatch(&arrived);
    assert_eq!(reports, vec![Delivery::Delivered]);
    let reports = hss.handlers.lock().unwrap().dispatch(&Envelope {
        name: "join".to_string(),
        payload: object("user", "ann"),
    });
    assert_eq!(reports, vec![Delivery::DecodeFailed]);
}
