use vstd::prelude::*;

use crate::handshake::{
    engine_io_ping_probe_payload, engine_io_pong_probe_payload, engine_io_upgrade_payload,
    negotiate_payload,
};
use crate::my_socket_io::MySocketIo;
use crate::my_socket_io_connection::{MySocketIoConnection, OutgoingFrame, WebSocketRef};
use crate::my_socket_io_message::{
    opt_str_view, MySocketIoMessage, MySocketIoTextMessage,
};
use crate::namespaces::{find_nsp, SocketIoNameSpaces};
use crate::process_connect::process_connect;
use crate::process_disconnect::process_disconnect;
use crate::socket_io_list::{
    add_session, assign_session, disconnected_session, find_by_sid, find_by_ws,
    lemma_find_by_sid_at, lemma_find_by_ws_at, lemma_find_by_ws_spec, touch_session,
    upgrade_session, ws_attached, RemoveOutcome, SocketIoList,
};
use crate::socket_io_settings::SocketIoSettings;
use crate::text::str_eq;
use crate::wire_format::{decode_message, encode_message, MessageView, PayloadView};

verus! {

// The protocol state machine entry points the transport layer drives.  The
// embedding owns the sockets themselves: each entry point mutates the
// registry and hands back what must be sent, closed or dispatched.

/// The namespace an event addresses: its own, or "/" when it names none.
pub open spec fn nsp_or_default(nsp: Option<Seq<char>>) -> Seq<char> {
    match nsp {
        Some(n) => n,
        None => "/"@,
    }
}

pub fn get_nsp(value: &Option<String>) -> (r: &str)
    ensures
        r@ == nsp_or_default(opt_str_view(*value)),
{
    match value {
        Some(nsp) => nsp.as_str(),
        None => "/",
    }
}

/// What the transport layer must do after handing in one inbound frame.
pub enum OnMessageAction {
    /// Nothing: the frame was consumed (or dropped) entirely.
    Ignore,
    /// Send this frame.
    Reply(OutgoingFrame),
    /// Send this frame, then close the web socket it names.
    ReplyAndDisconnect(OutgoingFrame),
    /// A decoded event for namespace dispatch: split the payload's JSON
    /// array into event name and event data, then run `callback_message`.
    DispatchEvent { socket_io: MySocketIoConnection, message: MySocketIoTextMessage },
}

/// What the transport layer must do after a web socket connected.
pub enum WebSocketConnectOutcome {
    /// A brand-new direct-transport session: send `response` on the socket,
    /// notify the application, start the liveness loop.
    NewSession { socket_io: MySocketIoConnection, response: String },
    /// The socket was attached to the reconnecting session: notify and close
    /// `evicted` if present, start the liveness loop.
    Assigned { socket_io: MySocketIoConnection, evicted: Option<WebSocketRef> },
    /// The handshake named an unknown session id: send `response`, nothing
    /// more (no session is created).
    UnknownSession { response: String },
}

/// Entry point for a newly connected web socket, with the session id its
/// handshake query carried, if any.
pub fn connected(
    socket_io_list: &mut SocketIoList,
    settings: &SocketIoSettings,
    web_socket: WebSocketRef,
    sid: Option<&str>,
    now: u64,
) -> (r: WebSocketConnectOutcome)
    requires
        old(socket_io_list).wf(),
    ensures
        final(socket_io_list).wf(),
        match sid {
            None => (r matches WebSocketConnectOutcome::NewSession { socket_io, response }
                && final(socket_io_list).sockets@ == add_session(
                old(socket_io_list).sockets@,
                socket_io,
            ) && socket_io.web_socket == Some(web_socket) && socket_io.connected
                && socket_io.last_incoming_moment == now && response@ == negotiate_payload(
                socket_io.id@,
                settings.ping_interval as int,
                settings.ping_timeout as int,
            )),
            Some(s) => match find_by_sid(old(socket_io_list).sockets@, s@) {
                Some(i) => {
                    &&& final(socket_io_list).sockets@ == assign_session(
                        old(socket_io_list).sockets@,
                        i,
                        web_socket,
                    )
                    &&& (r matches WebSocketConnectOutcome::Assigned { socket_io, evicted }
                        && socket_io == final(socket_io_list).sockets@[i] && evicted == old(
                        socket_io_list,
                    ).sockets@[i].web_socket)
                },
                None => {
                    &&& *final(socket_io_list) == *old(socket_io_list)
                    &&& (r matches WebSocketConnectOutcome::UnknownSession { response }
                        && response@ == "Socket.IO with id "@ + s@ + " is not found"@)
                },
            },
        },
{
    match sid {
        None => {
            let (socket_io, response) = process_connect(
                socket_io_list,
                settings,
                Some(web_socket),
                now,
            );
            WebSocketConnectOutcome::NewSession { socket_io, response }
        },
        Some(s) => match socket_io_list.assign_web_socket_to_socket_io(s, web_socket) {
            Some(outcome) => WebSocketConnectOutcome::Assigned {
                socket_io: outcome.socket_io,
                evicted: outcome.evicted,
            },
            None => {
                let mut response = String::from_str("Socket.IO with id ");
                response.append(s);
                response.append(" is not found");
                WebSocketConnectOutcome::UnknownSession { response }
            },
        },
    }
}

/// Entry point for a web socket that disconnected: tear down the session it
/// was carrying, if any.  The embedding notifies the application exactly when
/// a session is returned.
pub fn disconnected(socket_io_list: &mut SocketIoList, web_socket_id: i64) -> (r: Option<
    RemoveOutcome,
>)
    requires
        old(socket_io_list).wf(),
    ensures
        final(socket_io_list).wf(),
        match find_by_ws(old(socket_io_list).sockets@, web_socket_id) {
            Some(i) => {
                &&& final(socket_io_list).sockets@ == old(socket_io_list).sockets@.remove(i)
                &&& (r matches Some(o) && o.socket_io == disconnected_session(
                    old(socket_io_list).sockets@[i],
                ) && o.detached == old(socket_io_list).sockets@[i].web_socket)
            },
            None => *final(socket_io_list) == *old(socket_io_list) && r is None,
        },
{
    match socket_io_list.get_by_web_socket_id(web_socket_id) {
        Some(socket_io) => {
            proof {
                let s = socket_io_list.sockets@;
                let i = find_by_ws(s, web_socket_id)->0;
                lemma_find_by_ws_spec(s, web_socket_id);
                assert forall|j: int| 0 <= j < i implies s[j].id@ != s[i].id@ by {
                    assert(old(socket_io_list).wf());
                }
                lemma_find_by_sid_at(s, s[i].id@, i);
            }
            process_disconnect(socket_io_list, socket_io.id.as_str())
        },
        None => None,
    }
}

/// Entry point for one inbound text frame on a web socket.  Records the
/// session's activity, answers the ping probe, applies the upgrade
/// confirmation (or reports an unknown socket), and decodes everything else:
/// a `Message` goes to namespace dispatch, a `Connect` (access request) for a
/// registered namespace is answered with a `GrantAccess` carrying the session
/// id, and every other frame — including a malformed one — is dropped.
pub fn on_message<T: MySocketIo>(
    socket_io_list: &mut SocketIoList,
    registered_sockets: &SocketIoNameSpaces<T>,
    web_socket_id: i64,
    value: &str,
    now: u64,
) -> (r: OnMessageAction)
    requires
        old(socket_io_list).wf(),
    ensures
        final(socket_io_list).wf(),
        ({
            let s0 = old(socket_io_list).sockets@;
            let s1 = touch_session(s0, web_socket_id, now);
            let bound = find_by_ws(s0, web_socket_id);
            if value@ == "2probe"@ {
                &&& final(socket_io_list).sockets@ == s1
                &&& (r matches OnMessageAction::Reply(f) && f.web_socket_id == web_socket_id
                    && f.text@ == "3probe"@)
            } else if value@ == "5"@ {
                match bound {
                    Some(i) => {
                        &&& final(socket_io_list).sockets@ == upgrade_session(s1, i)
                        &&& r is Ignore
                    },
                    None => {
                        &&& final(socket_io_list).sockets@ == s1
                        &&& (r matches OnMessageAction::ReplyAndDisconnect(f) && f.web_socket_id
                            == web_socket_id && f.text@ == "SocketIo not found"@)
                    },
                }
            } else {
                &&& final(socket_io_list).sockets@ == s1
                &&& match decode_message(value@) {
                    Ok(Some(MessageView::Message(p))) => match bound {
                        Some(i) => r matches OnMessageAction::DispatchEvent { socket_io, message }
                            && socket_io == s1[i] && message@ == p,
                        None => r is Ignore,
                    },
                    Ok(Some(MessageView::Connect(nsp))) => match bound {
                        Some(i) => if find_nsp(registered_sockets.items@, nsp_or_default(nsp))
                            is Some {
                            match s1[i].web_socket {
                                Some(w) => r matches OnMessageAction::Reply(f) && f.web_socket_id
                                    == w.id && f.text@ == encode_message(
                                    MessageView::GrantAccess { nsp, sid: s1[i].id@ },
                                ),
                                None => r is Ignore,
                            }
                        } else {
                            r is Ignore
                        },
                        None => r is Ignore,
                    },
                    _ => r is Ignore,
                }
            }
        }),
{
    let bound = socket_io_list.update_incoming_activity_by_web_socket(web_socket_id, now);
    if str_eq(value, engine_io_ping_probe_payload()) {
        return OnMessageAction::Reply(
            OutgoingFrame {
                web_socket_id,
                text: String::from_str(engine_io_pong_probe_payload()),
            },
        );
    }
    if str_eq(value, engine_io_upgrade_payload()) {
        proof {
            let s0 = old(socket_io_list).sockets@;
            let s1 = socket_io_list.sockets@;
            match find_by_ws(s0, web_socket_id) {
                Some(i) => {
                    lemma_find_by_ws_spec(s0, web_socket_id);
                    assert(ws_attached(s1[i], web_socket_id));
                    assert forall|j: int| 0 <= j < i implies !ws_attached(
                        s1[j],
                        web_socket_id,
                    ) by {
                        assert(s1[j] == s0[j]);
                    }
                    lemma_find_by_ws_at(s1, web_socket_id, i);
                },
                None => {
                    assert(s1 == s0);
                },
            }
        }
        match socket_io_list.upgrade_by_web_socket(web_socket_id) {
            Some(_had_long_poll) => {
                return OnMessageAction::Ignore;
            },
            None => {
                return OnMessageAction::ReplyAndDisconnect(
                    OutgoingFrame {
                        web_socket_id,
                        text: String::from_str("SocketIo not found"),
                    },
                );
            },
        }
    }
    match MySocketIoMessage::parse(value) {
        Ok(Some(MySocketIoMessage::Message(message))) => match bound {
            Some(socket_io) => OnMessageAction::DispatchEvent { socket_io, message },
            None => OnMessageAction::Ignore,
        },
        Ok(Some(MySocketIoMessage::Connect(nsp))) => match bound {
            Some(socket_io) => {
                let nsp_str = get_nsp(&nsp);
                if registered_sockets.has_nsp(nsp_str) {
                    let sid = socket_io.id.clone();
                    let granted = MySocketIoMessage::GrantAccess { nsp, sid };
                    match socket_io.send_message(&granted) {
                        Some(f) => OnMessageAction::Reply(f),
                        None => OnMessageAction::Ignore,
                    }
                } else {
                    OnMessageAction::Ignore
                }
            },
            None => OnMessageAction::Ignore,
        },
        _ => OnMessageAction::Ignore,
    }
}

/// Wrap a namespace handler's acknowledgement payload in an `Ack` packet
/// reusing the event's own namespace and ack id; nothing is sent when the
/// handler returned nothing.
pub fn build_event_ack(nsp: Option<String>, id: Option<String>, ack_data: Option<String>) -> (r:
    Option<MySocketIoMessage>)
    ensures
        match ack_data {
            Some(d) => r matches Some(m) && m@ == MessageView::Ack(
                PayloadView { nsp: opt_str_view(nsp), id: opt_str_view(id), data: d@ },
            ),
            None => r is None,
        },
{
    match ack_data {
        Some(data) => Some(MySocketIoMessage::Ack(MySocketIoTextMessage { nsp, data, id })),
        None => None,
    }
}

/// Namespace dispatch for one decoded `Message` payload whose JSON array the
/// embedding has split into event name and event data.  With no handler
/// registered for the payload's namespace (default "/") the event is dropped
/// silently — no handler runs, nothing is sent.  Otherwise the handler runs
/// once, and an acknowledgement it returns is wrapped in an `Ack` frame with
/// the original namespace and ack id, addressed to the session's current web
/// socket.
pub fn callback_message<T: MySocketIo>(
    registered_sockets: &SocketIoNameSpaces<T>,
    socket_io: &MySocketIoConnection,
    msg: MySocketIoTextMessage,
    event_id: &str,
    event_data: &str,
) -> (r: Option<OutgoingFrame>)
    ensures
        find_nsp(registered_sockets.items@, nsp_or_default(msg@.nsp)) is None ==> r is None,
        socket_io.web_socket is None ==> r is None,
        match r {
            Some(f) => {
                &&& find_nsp(registered_sockets.items@, nsp_or_default(msg@.nsp)) is Some
                &&& (socket_io.web_socket matches Some(w) && f.web_socket_id == w.id)
                &&& exists|ack: Seq<char>|
                    f.text@ == encode_message(
                        MessageView::Ack(PayloadView { nsp: msg@.nsp, id: msg@.id, data: ack }),
                    )
            },
            None => true,
        },
{
    let found = registered_sockets.get(get_nsp(&msg.nsp));
    match found {
        Some(socket) => {
            let ack_data = socket.on(event_id, event_data);
            let MySocketIoTextMessage { nsp, data: _, id } = msg;
            match build_event_ack(nsp, id, ack_data) {
                Some(ack_contract) => socket_io.send_message(&ack_contract),
                None => None,
            }
        },
        None => None,
    }
}

} // verus!
