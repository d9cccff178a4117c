use vstd::prelude::*;

use crate::handshake::{compile_connect_payload, connect_payload, negotiate_payload};
use crate::my_socket_io_connection::MySocketIoConnection;
use crate::process_connect::process_connect;
use crate::socket_io_list::{add_session, SocketIoList};
use crate::socket_io_settings::SocketIoSettings;

verus! {

// What the HTTP entry points compute; routing, headers and the web socket
// upgrade handshake stay with the embedding's router.

/// The body of the reply to a polling GET.  With a session id in the query
/// the reply is the connect acknowledgement for that id; without one, the
/// connect orchestration runs and the reply is the negotiate response for the
/// fresh session, which is also returned (with no transport attached yet).
pub fn handle_get_request(
    socket_io_list: &mut SocketIoList,
    settings: &SocketIoSettings,
    sid: Option<&str>,
    now: u64,
) -> (r: (Option<MySocketIoConnection>, String))
    requires
        old(socket_io_list).wf(),
    ensures
        final(socket_io_list).wf(),
        match sid {
            Some(s) => *final(socket_io_list) == *old(socket_io_list) && r.0 is None && r.1@
                == connect_payload(s@),
            None => r.0 matches Some(socket_io) && final(socket_io_list).sockets@ == add_session(
                old(socket_io_list).sockets@,
                socket_io,
            ) && socket_io.web_socket is None && socket_io.connected && r.1@ == negotiate_payload(
                socket_io.id@,
                settings.ping_interval as int,
                settings.ping_timeout as int,
            ),
        },
{
    match sid {
        Some(s) => (None, compile_connect_payload(s)),
        None => {
            let (socket_io, response) = process_connect(socket_io_list, settings, None, now);
            (Some(socket_io), response)
        },
    }
}

/// The body of the reply to a polling POST: a bare acknowledgement of
/// receipt.
pub fn handle_post_request() -> (r: String)
    ensures
        r@ == "ok"@,
{
    String::from_str("ok")
}

/// The next web socket id for an accepted upgrade.
pub fn get_socket_id(socket_id: &mut i64) -> (r: i64)
    requires
        *old(socket_id) < i64::MAX,
    ensures
        *final(socket_id) == *old(socket_id) + 1,
        r == *final(socket_id),
{
    *socket_id = *socket_id + 1;
    *socket_id
}

} // verus!
