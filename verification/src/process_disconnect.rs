use vstd::prelude::*;

use crate::socket_io_list::{disconnected_session, find_by_sid, RemoveOutcome, SocketIoList};

verus! {

/// Disconnect orchestration: remove the session from the registry, which
/// tears it down (detaches and returns its web socket, drops the pending
/// long poll).  The embedding invokes the application's disconnected callback
/// exactly when a session is returned — and since the id is gone afterwards,
/// a repeated call returns `None` and can trigger no second callback.
/// Removing an id that is not registered is a no-op.
pub fn process_disconnect(sockets_list: &mut SocketIoList, socket_io_id: &str) -> (r: Option<
    RemoveOutcome,
>)
    requires
        old(sockets_list).wf(),
    ensures
        final(sockets_list).wf(),
        match find_by_sid(old(sockets_list).sockets@, socket_io_id@) {
            Some(i) => {
                &&& final(sockets_list).sockets@ == old(sockets_list).sockets@.remove(i)
                &&& (r matches Some(o) && o.socket_io == disconnected_session(
                    old(sockets_list).sockets@[i],
                ) && o.detached == old(sockets_list).sockets@[i].web_socket)
            },
            None => *final(sockets_list) == *old(sockets_list) && r is None,
        },
        r is Some ==> find_by_sid(final(sockets_list).sockets@, socket_io_id@) is None,
{
    sockets_list.remove(socket_io_id)
}

} // verus!
