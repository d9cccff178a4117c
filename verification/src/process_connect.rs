use vstd::prelude::*;

use crate::handshake::{compile_negotiate_response, negotiate_payload};
use crate::my_socket_io_connection::{MySocketIoConnection, WebSocketRef};
use crate::socket_io_list::{add_session, SocketIoList};
use crate::socket_io_settings::SocketIoSettings;

verus! {

pub open spec fn is_lower_hex_char(c: char) -> bool {
    (48 <= c as u32 <= 57) || (97 <= c as u32 <= 102)
}

/// Relies on `uuid::Uuid::new_v4` and its `Display` impl: a fresh random
/// UUID rendered in the hyphenated form — 36 ASCII characters, lowercase
/// hexadecimal digits except for the '-' at positions 8, 13, 18 and 23.
#[verifier::external_body]
fn new_uuid_string() -> (r: String)
    ensures
        r@.len() == 36,
        forall|i: int|
            0 <= i < 36 && i != 8 && i != 13 && i != 18 && i != 23 ==> is_lower_hex_char(
                #[trigger] r@[i],
            ),
{
    uuid::Uuid::new_v4().to_string()
}

/// A fresh short session id: the first eight hexadecimal characters of a
/// random UUID (the first hyphen sits at position 8, so these are the UUID's
/// leading hex digits).
fn generate_session_id() -> (r: String)
    ensures
        r@.len() == 8,
        forall|i: int| 0 <= i < 8 ==> is_lower_hex_char(#[trigger] r@[i]),
{
    let u = new_uuid_string();
    u.as_str().substring_char(0, 8).to_owned()
}

/// Connect orchestration: generate a fresh session id, build the negotiate
/// (open-packet) response, construct the session — pre-attached to
/// `web_socket` when the caller already holds one — and register it.
///
/// The embedding invokes the application's connected callback around this
/// call; the session is registered regardless of that callback's result, so
/// a caller needing strict rejection must disconnect explicitly.
pub fn process_connect(
    socket_io_list: &mut SocketIoList,
    settings: &SocketIoSettings,
    web_socket: Option<WebSocketRef>,
    now: u64,
) -> (r: (MySocketIoConnection, String))
    requires
        old(socket_io_list).wf(),
    ensures
        final(socket_io_list).wf(),
        final(socket_io_list).sockets@ == add_session(old(socket_io_list).sockets@, r.0),
        r.0.id@.len() == 8,
        forall|i: int| 0 <= i < 8 ==> is_lower_hex_char(#[trigger] r.0.id@[i]),
        r.0.created == now,
        r.0.last_incoming_moment == now,
        r.0.web_socket == web_socket,
        r.0.connected,
        !r.0.upgraded_to_websocket,
        !r.0.long_pooling,
        r.0.web_socket_model == web_socket.is_some(),
        r.1@ == negotiate_payload(
            r.0.id@,
            settings.ping_interval as int,
            settings.ping_timeout as int,
        ),
{
    let sid = generate_session_id();
    let response = compile_negotiate_response(sid.as_str(), settings);
    let socket_io = MySocketIoConnection::new(sid, web_socket, now);
    let out = socket_io.snapshot();
    socket_io_list.add_socket_io(socket_io);
    (out, response)
}

} // verus!
