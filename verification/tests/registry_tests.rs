use my_socket_io::my_socket_io_connection::{MySocketIoConnection, WebSocketRef};
use my_socket_io::my_socket_io_message::MySocketIoMessage;
use my_socket_io::socket_io_settings::SocketIoSettings;
use my_socket_io::socket_io_list::SocketIoList;
use my_socket_io::socket_io_liveness_loop::{liveness_step, LivenessStep};
use my_socket_io::text::u64_to_dec_string;

#[test]
fn test_create_then_lookup() {
    let mut list = SocketIoList::new();
    let session = MySocketIoConnection::new("s1".to_string(), None, 0);
    list.add_socket_io(session);

    let found = list.get_by_socket_io_id("s1").expect("session must be found by its id");
    assert_eq!(found.id, "s1");
    assert!(found.connected);
    assert!(list.get_by_socket_io_id("zz").is_none());
}

#[test]
fn test_assign_web_socket_twice_evicts_first() {
    let mut list = SocketIoList::new();
    list.add_socket_io(MySocketIoConnection::new("s1".to_string(), None, 0));

    let t1 = WebSocketRef { id: 11 };
    let t2 = WebSocketRef { id: 12 };

    let first = list.assign_web_socket_to_socket_io("s1", t1).expect("known id");
    assert_eq!(first.evicted, None);
    assert_eq!(list.get_by_web_socket_id(11).expect("t1 attached").id, "s1");

    let second = list.assign_web_socket_to_socket_io("s1", t2).expect("known id");
    assert_eq!(second.evicted, Some(t1));

    assert!(list.get_by_web_socket_id(11).is_none());
    assert_eq!(list.get_by_web_socket_id(12).expect("t2 attached").id, "s1");
}

#[test]
fn test_assign_unknown_id_is_none() {
    let mut list = SocketIoList::new();
    assert!(list.assign_web_socket_to_socket_io("nope", WebSocketRef { id: 5 }).is_none());
}

#[test]
fn test_remove_is_idempotent() {
    let mut list = SocketIoList::new();
    list.add_socket_io(MySocketIoConnection::new("s1".to_string(), Some(WebSocketRef { id: 3 }), 0));

    let removed = list.remove("s1").expect("first remove returns the session");
    assert_eq!(removed.socket_io.id, "s1");
    assert!(!removed.socket_io.connected);
    assert_eq!(removed.detached, Some(WebSocketRef { id: 3 }));

    assert!(list.remove("s1").is_none(), "second remove must be a no-op");
    assert!(list.get_by_socket_io_id("s1").is_none());
    assert!(list.get_by_web_socket_id(3).is_none());
}

#[test]
fn test_session_upgrade_and_disconnect() {
    let mut c = MySocketIoConnection::new("s9".to_string(), None, 10);
    assert!(!c.in_web_socket_model());
    assert!(c.is_connected());

    let had_long_poll = c.upgrade_to_websocket();
    assert!(!had_long_poll);
    assert!(c.in_web_socket_model());
    assert!(c.upgraded_to_websocket);

    let evicted = c.add_web_socket(WebSocketRef { id: 21 });
    assert_eq!(evicted, None);
    assert!(c.has_web_socket(21));
    let evicted = c.add_web_socket(WebSocketRef { id: 22 });
    assert_eq!(evicted, Some(WebSocketRef { id: 21 }));
    assert!(!c.has_web_socket(21));

    let detached = c.disconnect();
    assert_eq!(detached, Some(WebSocketRef { id: 22 }));
    assert!(!c.is_connected());
    assert_eq!(c.get_web_socket(), None);
    assert_eq!(c.disconnect(), None);
}

#[test]
fn test_send_message_needs_transport() {
    let c = MySocketIoConnection::new("s9".to_string(), None, 10);
    assert!(c.send_message(&MySocketIoMessage::Ping).is_none());

    let mut c = c;
    c.add_web_socket(WebSocketRef { id: 7 });
    let frame = c.send_message(&MySocketIoMessage::Ping).expect("transport attached");
    assert_eq!(frame.web_socket_id, 7);
    assert_eq!(frame.text, "2");
}

#[test]
fn test_update_incoming_activity() {
    let mut c = MySocketIoConnection::new("s9".to_string(), None, 10);
    assert_eq!(c.last_incoming_moment, 10);
    c.update_incoming_activity(99);
    assert_eq!(c.last_incoming_moment, 99);
}

#[test]
fn test_liveness_timeout_boundaries() {
    // last inbound frame at 1000, inactivity bound 2000: the deadline is 3000.
    let idle = MySocketIoConnection::new("s1".to_string(), None, 1000);
    assert_eq!(liveness_step(&idle, 2999, 2000), LivenessStep::Idle);
    assert_eq!(liveness_step(&idle, 3000, 2000), LivenessStep::Exit);

    let ws = MySocketIoConnection::new("s2".to_string(), Some(WebSocketRef { id: 1 }), 1000);
    assert_eq!(liveness_step(&ws, 1000, 2000), LivenessStep::Ping);
    assert_eq!(liveness_step(&ws, 2999, 2000), LivenessStep::Ping);
    assert_eq!(liveness_step(&ws, 3000, 2000), LivenessStep::Exit);

    let mut gone = MySocketIoConnection::new("s3".to_string(), None, 1000);
    gone.disconnect();
    assert_eq!(liveness_step(&gone, 1000, 2000), LivenessStep::Exit);
}

#[test]
fn test_liveness_exit_within_one_interval() {
    // With checks every 500ms, the loop exits at the first check after the
    // 2000ms inactivity bound elapses, not before.
    let c = MySocketIoConnection::new("s1".to_string(), Some(WebSocketRef { id: 1 }), 1000);
    let mut t: u64 = 1100;
    let mut exited_at = None;
    while exited_at.is_none() && t < 10_000 {
        if liveness_step(&c, t, 2000) == LivenessStep::Exit {
            exited_at = Some(t);
        } else {
            t += 500;
        }
    }
    let exited_at = exited_at.expect("the loop must exit");
    assert!(exited_at >= 3000, "exited before the deadline");
    assert!(exited_at < 3500, "exited more than one interval past the deadline");
}

#[test]
fn test_settings_defaults_and_setters() {
    let mut settings = SocketIoSettings::default();
    assert_eq!(settings.get_ping_interval(), 6000);
    assert_eq!(settings.get_ping_timeout(), 2000);
    settings.set_ping_interval(1234);
    settings.set_ping_timeout(77);
    assert_eq!(settings.get_ping_interval(), 1234);
    assert_eq!(settings.get_ping_timeout(), 77);
}

#[test]
fn test_u64_to_dec_string() {
    assert_eq!(u64_to_dec_string(0), "0");
    assert_eq!(u64_to_dec_string(7), "7");
    assert_eq!(u64_to_dec_string(6000), "6000");
    assert_eq!(u64_to_dec_string(u64::MAX), "18446744073709551615");
}
