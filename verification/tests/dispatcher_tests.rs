use std::cell::Cell;

use my_socket_io::handshake::{compile_connect_payload, compile_negotiate_response};
use my_socket_io::middleware::{get_socket_id, handle_get_request, handle_post_request};
use my_socket_io::my_socket_io::MySocketIo;
use my_socket_io::my_socket_io_connection::{MySocketIoConnection, WebSocketRef};
use my_socket_io::my_socket_io_message::MySocketIoTextMessage;
use my_socket_io::namespaces::SocketIoNameSpaces;
use my_socket_io::process_connect::process_connect;
use my_socket_io::process_disconnect::process_disconnect;
use my_socket_io::socket_io_list::SocketIoList;
use my_socket_io::socket_io_settings::SocketIoSettings;
use my_socket_io::web_socket_callbacks::{
    callback_message, connected, disconnected, get_nsp, on_message, OnMessageAction,
    WebSocketConnectOutcome,
};

struct ChatHandler {
    nsp: String,
    calls: Cell<u32>,
    reply: Option<String>,
}

impl MySocketIo for ChatHandler {
    fn on(&self, _event_id: &str, _message: &str) -> Option<String> {
        self.calls.set(self.calls.get() + 1);
        self.reply.clone()
    }

    fn get_nsp(&self) -> &str {
        self.nsp.as_str()
    }
}

fn chat_namespace(reply: Option<&str>) -> SocketIoNameSpaces<ChatHandler> {
    let mut namespaces = SocketIoNameSpaces::new();
    namespaces.add(ChatHandler {
        nsp: "/chat".to_string(),
        calls: Cell::new(0),
        reply: reply.map(|s| s.to_string()),
    });
    namespaces
}

fn assert_hex_id(id: &str) {
    assert_eq!(id.len(), 8);
    assert!(id.chars().all(|c| c.is_ascii_hexdigit() && !c.is_ascii_uppercase()));
}

#[test]
fn test_get_nsp_defaults_to_root() {
    assert_eq!(get_nsp(&None), "/");
    assert_eq!(get_nsp(&Some("/admin".to_string())), "/admin");
}

#[test]
fn test_namespace_registry() {
    let namespaces = chat_namespace(None);
    assert!(namespaces.has_nsp("/chat"));
    assert!(!namespaces.has_nsp("/"));
    assert!(namespaces.get("/chat").is_some());
    assert!(namespaces.get("/other").is_none());
}

#[test]
fn test_dispatch_unregistered_namespace_is_silent() {
    let namespaces = chat_namespace(Some("[\"done\"]"));
    let mut session = MySocketIoConnection::new("s1".to_string(), None, 0);
    session.add_web_socket(WebSocketRef { id: 9 });

    let msg = MySocketIoTextMessage {
        nsp: Some("/other".to_string()),
        data: "[\"ev\",1]".to_string(),
        id: Some("5".to_string()),
    };
    let r = callback_message(&namespaces, &session, msg, "ev", "1");
    assert!(r.is_none());
    assert_eq!(namespaces.get("/chat").unwrap().calls.get(), 0, "no handler may run");
}

#[test]
fn test_dispatch_registered_namespace_acks_once() {
    let namespaces = chat_namespace(Some("[\"done\"]"));
    let mut session = MySocketIoConnection::new("s1".to_string(), None, 0);
    session.add_web_socket(WebSocketRef { id: 9 });

    let msg = MySocketIoTextMessage {
        nsp: Some("/chat".to_string()),
        data: "[\"ev\",1]".to_string(),
        id: Some("5".to_string()),
    };
    let frame = callback_message(&namespaces, &session, msg, "ev", "1").expect("one ack");
    assert_eq!(frame.web_socket_id, 9);
    assert_eq!(frame.text, "43/chat,5[\"done\"]");
    assert_eq!(namespaces.get("/chat").unwrap().calls.get(), 1, "handler runs exactly once");
}

#[test]
fn test_dispatch_handler_without_ack_sends_nothing() {
    let namespaces = chat_namespace(None);
    let mut session = MySocketIoConnection::new("s1".to_string(), None, 0);
    session.add_web_socket(WebSocketRef { id: 9 });

    let msg = MySocketIoTextMessage {
        nsp: Some("/chat".to_string()),
        data: "[\"ev\",1]".to_string(),
        id: None,
    };
    assert!(callback_message(&namespaces, &session, msg, "ev", "1").is_none());
    assert_eq!(namespaces.get("/chat").unwrap().calls.get(), 1);
}

#[test]
fn test_dispatch_without_transport_drops_ack() {
    let namespaces = chat_namespace(Some("[\"done\"]"));
    let session = MySocketIoConnection::new("s1".to_string(), None, 0);
    let msg = MySocketIoTextMessage {
        nsp: Some("/chat".to_string()),
        data: "[\"ev\",1]".to_string(),
        id: Some("5".to_string()),
    };
    assert!(callback_message(&namespaces, &session, msg, "ev", "1").is_none());
}

#[test]
fn test_on_message_ping_probe() {
    let mut list = SocketIoList::new();
    let namespaces = chat_namespace(None);
    let r = on_message(&mut list, &namespaces, 1, "2probe", 0);
    match r {
        OnMessageAction::Reply(f) => {
            assert_eq!(f.web_socket_id, 1);
            assert_eq!(f.text, "3probe");
        }
        _ => panic!("the ping probe must be answered"),
    }
}

#[test]
fn test_on_message_upgrade_unknown_socket() {
    let mut list = SocketIoList::new();
    let namespaces = chat_namespace(None);
    let r = on_message(&mut list, &namespaces, 1, "5", 0);
    match r {
        OnMessageAction::ReplyAndDisconnect(f) => {
            assert_eq!(f.web_socket_id, 1);
            assert_eq!(f.text, "SocketIo not found");
        }
        _ => panic!("an unknown socket's upgrade must be answered and closed"),
    }
}

#[test]
fn test_on_message_upgrade_known_socket() {
    let mut list = SocketIoList::new();
    let namespaces = chat_namespace(None);
    let settings = SocketIoSettings::default();
    let outcome = connected(&mut list, &settings, WebSocketRef { id: 10 }, None, 5);
    let sid = match outcome {
        WebSocketConnectOutcome::NewSession { socket_io, .. } => socket_io.id,
        _ => panic!("expected a new session"),
    };

    let r = on_message(&mut list, &namespaces, 10, "5", 42);
    assert!(matches!(r, OnMessageAction::Ignore));

    let session = list.get_by_socket_io_id(sid.as_str()).unwrap();
    assert!(session.upgraded_to_websocket);
    assert_eq!(session.last_incoming_moment, 42, "inbound activity must be recorded");
}

#[test]
fn test_on_message_event_frame_dispatches() {
    let mut list = SocketIoList::new();
    let namespaces = chat_namespace(None);
    let settings = SocketIoSettings::default();
    connected(&mut list, &settings, WebSocketRef { id: 10 }, None, 5);

    let r = on_message(&mut list, &namespaces, 10, "42/chat,7[\"ev\",1]", 6);
    match r {
        OnMessageAction::DispatchEvent { socket_io, message } => {
            assert_eq!(socket_io.last_incoming_moment, 6);
            assert_eq!(message.nsp.as_deref(), Some("/chat"));
            assert_eq!(message.id.as_deref(), Some("7"));
            assert_eq!(message.data, "[\"ev\",1]");
        }
        _ => panic!("an event frame on a bound socket must be dispatched"),
    }
}

#[test]
fn test_on_message_event_frame_unbound_socket_ignored() {
    let mut list = SocketIoList::new();
    let namespaces = chat_namespace(None);
    let r = on_message(&mut list, &namespaces, 10, "42[\"ev\",1]", 6);
    assert!(matches!(r, OnMessageAction::Ignore));
}

#[test]
fn test_on_message_access_request_granted() {
    let mut list = SocketIoList::new();
    let namespaces = chat_namespace(None);
    let settings = SocketIoSettings::default();
    let sid = match connected(&mut list, &settings, WebSocketRef { id: 10 }, None, 5) {
        WebSocketConnectOutcome::NewSession { socket_io, .. } => socket_io.id,
        _ => panic!("expected a new session"),
    };

    let r = on_message(&mut list, &namespaces, 10, "40/chat,", 6);
    match r {
        OnMessageAction::Reply(f) => {
            assert_eq!(f.web_socket_id, 10);
            assert_eq!(f.text, format!("40/chat,{}", sid));
        }
        _ => panic!("a registered namespace's access request must be granted"),
    }
}

#[test]
fn test_on_message_access_request_unregistered_ignored() {
    let mut list = SocketIoList::new();
    let namespaces = chat_namespace(None);
    let settings = SocketIoSettings::default();
    connected(&mut list, &settings, WebSocketRef { id: 10 }, None, 5);

    let r = on_message(&mut list, &namespaces, 10, "40/other,", 6);
    assert!(matches!(r, OnMessageAction::Ignore));
}

#[test]
fn test_on_message_other_frames_ignored() {
    let mut list = SocketIoList::new();
    let namespaces = chat_namespace(None);
    let settings = SocketIoSettings::default();
    connected(&mut list, &settings, WebSocketRef { id: 10 }, None, 5);

    assert!(matches!(on_message(&mut list, &namespaces, 10, "2", 6), OnMessageAction::Ignore));
    assert!(matches!(on_message(&mut list, &namespaces, 10, "41", 7), OnMessageAction::Ignore));
    assert!(matches!(on_message(&mut list, &namespaces, 10, "zzz", 8), OnMessageAction::Ignore));
    assert!(matches!(
        on_message(&mut list, &namespaces, 10, "42/broken", 9),
        OnMessageAction::Ignore
    ));
}

#[test]
fn test_connected_new_session_starts_handshake() {
    let mut list = SocketIoList::new();
    let settings = SocketIoSettings::default();
    match connected(&mut list, &settings, WebSocketRef { id: 10 }, None, 5) {
        WebSocketConnectOutcome::NewSession { socket_io, response } => {
            assert_hex_id(socket_io.id.as_str());
            assert_eq!(socket_io.get_web_socket(), Some(WebSocketRef { id: 10 }));
            assert_eq!(
                response,
                format!(
                    "0{{\"sid\":\"{}\",\"upgrades\":[\"websocket\"],\"pingInterval\":6000,\"pingTimeout\":2000}}",
                    socket_io.id
                )
            );
            assert!(list.get_by_web_socket_id(10).is_some());
        }
        _ => panic!("a handshake without sid must create a session"),
    }
}

#[test]
fn test_connected_reconnect_assigns_socket() {
    let mut list = SocketIoList::new();
    let settings = SocketIoSettings::default();
    let (session, _) = process_connect(&mut list, &settings, None, 0);

    match connected(&mut list, &settings, WebSocketRef { id: 31 }, Some(session.id.as_str()), 1) {
        WebSocketConnectOutcome::Assigned { socket_io, evicted } => {
            assert_eq!(socket_io.id, session.id);
            assert_eq!(evicted, None);
        }
        _ => panic!("a known sid must be assigned"),
    }
    match connected(&mut list, &settings, WebSocketRef { id: 32 }, Some(session.id.as_str()), 2) {
        WebSocketConnectOutcome::Assigned { evicted, .. } => {
            assert_eq!(evicted, Some(WebSocketRef { id: 31 }));
        }
        _ => panic!("a known sid must be assigned"),
    }
    assert!(list.get_by_web_socket_id(31).is_none());
    assert!(list.get_by_web_socket_id(32).is_some());
}

#[test]
fn test_connected_unknown_sid() {
    let mut list = SocketIoList::new();
    let settings = SocketIoSettings::default();
    match connected(&mut list, &settings, WebSocketRef { id: 10 }, Some("deadbeef"), 5) {
        WebSocketConnectOutcome::UnknownSession { response } => {
            assert_eq!(response, "Socket.IO with id deadbeef is not found");
        }
        _ => panic!("an unknown sid must be reported"),
    }
}

#[test]
fn test_disconnected_runs_once() {
    let mut list = SocketIoList::new();
    let settings = SocketIoSettings::default();
    let sid = match connected(&mut list, &settings, WebSocketRef { id: 10 }, None, 5) {
        WebSocketConnectOutcome::NewSession { socket_io, .. } => socket_io.id,
        _ => panic!("expected a new session"),
    };

    let removed = disconnected(&mut list, 10).expect("the bound session is torn down");
    assert_eq!(removed.socket_io.id, sid);
    assert!(!removed.socket_io.connected);
    assert_eq!(removed.detached, Some(WebSocketRef { id: 10 }));

    assert!(disconnected(&mut list, 10).is_none(), "no second teardown");
    assert!(list.get_by_socket_io_id(sid.as_str()).is_none());
}

#[test]
fn test_process_connect_registers_session() {
    let mut list = SocketIoList::new();
    let settings = SocketIoSettings::default();
    let (session, response) = process_connect(&mut list, &settings, None, 9);
    assert_hex_id(session.id.as_str());
    assert_eq!(session.created, 9);
    assert!(response.starts_with("0{\"sid\":\""));
    assert!(list.get_by_socket_io_id(session.id.as_str()).is_some());
}

#[test]
fn test_process_disconnect_is_noop_on_absent_id() {
    let mut list = SocketIoList::new();
    let settings = SocketIoSettings::default();
    let (session, _) = process_connect(&mut list, &settings, None, 9);
    assert!(process_disconnect(&mut list, session.id.as_str()).is_some());
    assert!(process_disconnect(&mut list, session.id.as_str()).is_none());
}

#[test]
fn test_handshake_payloads() {
    let settings = SocketIoSettings::default();
    assert_eq!(
        compile_negotiate_response("abc12345", &settings),
        "0{\"sid\":\"abc12345\",\"upgrades\":[\"websocket\"],\"pingInterval\":6000,\"pingTimeout\":2000}"
    );
    assert_eq!(compile_connect_payload("abc12345"), "40{\"sid\":\"abc12345\"}");
}

#[test]
fn test_handle_get_request() {
    let mut list = SocketIoList::new();
    let settings = SocketIoSettings::default();

    let (none_session, body) = handle_get_request(&mut list, &settings, Some("abc12345"), 0);
    assert!(none_session.is_none());
    assert_eq!(body, "40{\"sid\":\"abc12345\"}");
    assert!(list.get_by_socket_io_id("abc12345").is_none(), "a GET with sid creates nothing");

    let (session, body) = handle_get_request(&mut list, &settings, None, 3);
    let session = session.expect("a GET without sid runs the connect orchestration");
    assert!(body.starts_with("0{\"sid\":\""));
    assert!(session.get_web_socket().is_none());
    assert!(list.get_by_socket_io_id(session.id.as_str()).is_some());
}

#[test]
fn test_handle_post_request() {
    assert_eq!(handle_post_request(), "ok");
}

#[test]
fn test_get_socket_id_increments() {
    let mut counter: i64 = 0;
    assert_eq!(get_socket_id(&mut counter), 1);
    assert_eq!(get_socket_id(&mut counter), 2);
    assert_eq!(counter, 2);
}
