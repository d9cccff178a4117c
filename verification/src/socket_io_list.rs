use vstd::prelude::*;

use crate::my_socket_io_connection::{MySocketIoConnection, WebSocketRef};
use crate::text::str_eq;

verus! {

// The registry holds every live session in one sequence; both lookups (by
// session id and by the id of the currently attached web socket) are derived
// from it, so the two indices of the design can never disagree about which
// session a transport id maps to.

/// Whether `c` currently holds the web socket with this id.
pub open spec fn ws_attached(c: MySocketIoConnection, web_socket_id: i64) -> bool {
    match c.web_socket {
        Some(w) => w.id == web_socket_id,
        None => false,
    }
}

/// Index of the first session whose id is `sid`.
pub open spec fn find_by_sid(s: Seq<MySocketIoConnection>, sid: Seq<char>) -> Option<int>
    decreases s.len(),
{
    if s.len() == 0 {
        None
    } else if s[0].id@ == sid {
        Some(0int)
    } else {
        match find_by_sid(s.drop_first(), sid) {
            Some(i) => Some(i + 1),
            None => None,
        }
    }
}

/// Index of the first session holding the web socket with this id.
pub open spec fn find_by_ws(s: Seq<MySocketIoConnection>, web_socket_id: i64) -> Option<int>
    decreases s.len(),
{
    if s.len() == 0 {
        None
    } else if ws_attached(s[0], web_socket_id) {
        Some(0int)
    } else {
        match find_by_ws(s.drop_first(), web_socket_id) {
            Some(i) => Some(i + 1),
            None => None,
        }
    }
}

/// No two registered sessions share an id.
pub open spec fn unique_session_ids(s: Seq<MySocketIoConnection>) -> bool {
    forall|i: int, j: int| 0 <= i < j < s.len() ==> s[i].id@ != s[j].id@
}

/// Registering a session: a session with the same id is replaced, otherwise
/// the new one is appended.
pub open spec fn add_session(
    s: Seq<MySocketIoConnection>,
    c: MySocketIoConnection,
) -> Seq<MySocketIoConnection> {
    match find_by_sid(s, c.id@) {
        Some(i) => s.update(i, c),
        None => s.push(c),
    }
}

/// The session at index `i` with `ws` installed as its web socket.
pub open spec fn assign_session(
    s: Seq<MySocketIoConnection>,
    i: int,
    ws: WebSocketRef,
) -> Seq<MySocketIoConnection> {
    s.update(i, MySocketIoConnection { web_socket: Some(ws), ..s[i] })
}

/// A session after its teardown: disconnected, no web socket, no pending
/// long poll.
pub open spec fn disconnected_session(c: MySocketIoConnection) -> MySocketIoConnection {
    MySocketIoConnection { connected: false, web_socket: None, long_pooling: false, ..c }
}

/// Inbound activity at `now` on the session holding the given web socket (no
/// change when no session holds it).
pub open spec fn touch_session(
    s: Seq<MySocketIoConnection>,
    web_socket_id: i64,
    now: u64,
) -> Seq<MySocketIoConnection> {
    match find_by_ws(s, web_socket_id) {
        Some(i) => s.update(
            i,
            MySocketIoConnection { last_incoming_moment: now, ..s[i] },
        ),
        None => s,
    }
}

/// The session at index `i` after a confirmed transport upgrade.
pub open spec fn upgrade_session(s: Seq<MySocketIoConnection>, i: int) -> Seq<
    MySocketIoConnection,
> {
    s.update(
        i,
        MySocketIoConnection {
            long_pooling: false,
            upgraded_to_websocket: true,
            web_socket_model: true,
            ..s[i]
        },
    )
}

pub proof fn lemma_find_by_sid_spec(s: Seq<MySocketIoConnection>, sid: Seq<char>)
    ensures
        match find_by_sid(s, sid) {
            Some(i) => 0 <= i < s.len() && s[i].id@ == sid && (forall|j: int|
                0 <= j < i ==> s[j].id@ != sid),
            None => forall|j: int| 0 <= j < s.len() ==> s[j].id@ != sid,
        },
    decreases s.len(),
{
    if s.len() > 0 && s[0].id@ != sid {
        let st = s.drop_first();
        lemma_find_by_sid_spec(st, sid);
        match find_by_sid(st, sid) {
            Some(i) => {
                assert(s[i + 1] == st[i]);
                assert forall|j: int| 0 <= j < i + 1 implies s[j].id@ != sid by {
                    if j > 0 {
                        assert(s[j] == st[j - 1]);
                    }
                }
            },
            None => {
                assert forall|j: int| 0 <= j < s.len() implies s[j].id@ != sid by {
                    if j > 0 {
                        assert(s[j] == st[j - 1]);
                    }
                }
            },
        }
    }
}

pub proof fn lemma_find_by_sid_at(s: Seq<MySocketIoConnection>, sid: Seq<char>, i: int)
    requires
        0 <= i < s.len(),
        s[i].id@ == sid,
        forall|j: int| 0 <= j < i ==> s[j].id@ != sid,
    ensures
        find_by_sid(s, sid) == Some(i),
    decreases s.len(),
{
    if i > 0 {
        lemma_find_by_sid_at(s.drop_first(), sid, i - 1);
    }
}

pub proof fn lemma_find_by_sid_none(s: Seq<MySocketIoConnection>, sid: Seq<char>)
    requires
        forall|j: int| 0 <= j < s.len() ==> s[j].id@ != sid,
    ensures
        find_by_sid(s, sid) is None,
    decreases s.len(),
{
    if s.len() > 0 {
        lemma_find_by_sid_none(s.drop_first(), sid);
    }
}

pub proof fn lemma_find_by_ws_spec(s: Seq<MySocketIoConnection>, web_socket_id: i64)
    ensures
        match find_by_ws(s, web_socket_id) {
            Some(i) => 0 <= i < s.len() && ws_attached(s[i], web_socket_id) && (forall|j: int|
                0 <= j < i ==> !ws_attached(s[j], web_socket_id)),
            None => forall|j: int| 0 <= j < s.len() ==> !ws_attached(s[j], web_socket_id),
        },
    decreases s.len(),
{
    if s.len() > 0 && !ws_attached(s[0], web_socket_id) {
        let st = s.drop_first();
        lemma_find_by_ws_spec(st, web_socket_id);
        match find_by_ws(st, web_socket_id) {
            Some(i) => {
                assert(s[i + 1] == st[i]);
                assert forall|j: int| 0 <= j < i + 1 implies !ws_attached(
                    s[j],
                    web_socket_id,
                ) by {
                    if j > 0 {
                        assert(s[j] == st[j - 1]);
                    }
                }
            },
            None => {
                assert forall|j: int| 0 <= j < s.len() implies !ws_attached(
                    s[j],
                    web_socket_id,
                ) by {
                    if j > 0 {
                        assert(s[j] == st[j - 1]);
                    }
                }
            },
        }
    }
}

pub proof fn lemma_find_by_ws_at(s: Seq<MySocketIoConnection>, web_socket_id: i64, i: int)
    requires
        0 <= i < s.len(),
        ws_attached(s[i], web_socket_id),
        forall|j: int| 0 <= j < i ==> !ws_attached(s[j], web_socket_id),
    ensures
        find_by_ws(s, web_socket_id) == Some(i),
    decreases s.len(),
{
    if i > 0 {
        lemma_find_by_ws_at(s.drop_first(), web_socket_id, i - 1);
    }
}

pub proof fn lemma_find_by_ws_none(s: Seq<MySocketIoConnection>, web_socket_id: i64)
    requires
        forall|j: int| 0 <= j < s.len() ==> !ws_attached(s[j], web_socket_id),
    ensures
        find_by_ws(s, web_socket_id) is None,
    decreases s.len(),
{
    if s.len() > 0 {
        lemma_find_by_ws_none(s.drop_first(), web_socket_id);
    }
}

/// What the second assign returns as evicted web socket: the one the first
/// assign installed.
pub struct AssignOutcome {
    /// The session after the assignment.
    pub socket_io: MySocketIoConnection,
    /// The web socket the assignment replaced; it must be notified and
    /// closed by the caller.
    pub evicted: Option<WebSocketRef>,
}

pub struct RemoveOutcome {
    /// The removed session, after its teardown.
    pub socket_io: MySocketIoConnection,
    /// The web socket that was still attached, to be closed by the caller.
    pub detached: Option<WebSocketRef>,
}

/// The dual-indexed store of live sessions.
pub struct SocketIoList {
    pub sockets: Vec<MySocketIoConnection>,
}

impl SocketIoList {
    pub open spec fn wf(&self) -> bool {
        unique_session_ids(self.sockets@)
    }

    pub fn new() -> (r: Self)
        ensures
            r.sockets@.len() == 0,
            r.wf(),
    {
        SocketIoList { sockets: Vec::new() }
    }

    /// Index of the session with this id, if any.
    fn index_of_sid(&self, socket_io_id: &str) -> (r: Option<usize>)
        ensures
            match r {
                Some(i) => i < self.sockets@.len() && find_by_sid(self.sockets@, socket_io_id@)
                    == Some(i as int),
                None => find_by_sid(self.sockets@, socket_io_id@) is None,
            },
    {
        let n = self.sockets.len();
        let mut i: usize = 0;
        while i < n
            invariant
                i <= n,
                n == self.sockets@.len(),
                forall|j: int| 0 <= j < i ==> self.sockets@[j].id@ != socket_io_id@,
            decreases n - i,
        {
            if str_eq(self.sockets[i].id.as_str(), socket_io_id) {
                proof {
                    lemma_find_by_sid_at(self.sockets@, socket_io_id@, i as int);
                }
                return Some(i);
            }
            i = i + 1;
        }
        proof {
            lemma_find_by_sid_none(self.sockets@, socket_io_id@);
        }
        None
    }

    /// Index of the session currently holding this web socket, if any.
    fn index_of_ws(&self, web_socket_id: i64) -> (r: Option<usize>)
        ensures
            match r {
                Some(i) => i < self.sockets@.len() && find_by_ws(self.sockets@, web_socket_id)
                    == Some(i as int),
                None => find_by_ws(self.sockets@, web_socket_id) is None,
            },
    {
        let n = self.sockets.len();
        let mut i: usize = 0;
        while i < n
            invariant
                i <= n,
                n == self.sockets@.len(),
                forall|j: int| 0 <= j < i ==> !ws_attached(self.sockets@[j], web_socket_id),
            decreases n - i,
        {
            if self.sockets[i].has_web_socket(web_socket_id) {
                proof {
                    lemma_find_by_ws_at(self.sockets@, web_socket_id, i as int);
                }
                return Some(i);
            }
            i = i + 1;
        }
        proof {
            lemma_find_by_ws_none(self.sockets@, web_socket_id);
        }
        None
    }

    /// Register a session.  A session already registered under the same id is
    /// replaced.
    pub fn add_socket_io(&mut self, socket_io_connection: MySocketIoConnection)
        requires
            old(self).wf(),
        ensures
            final(self).wf(),
            final(self).sockets@ == add_session(old(self).sockets@, socket_io_connection),
    {
        let idx = self.index_of_sid(socket_io_connection.id.as_str());
        proof {
            lemma_find_by_sid_spec(self.sockets@, socket_io_connection.id@);
        }
        match idx {
            Some(i) => {
                self.sockets.set(i, socket_io_connection);
            },
            None => {
                self.sockets.push(socket_io_connection);
            },
        }
    }

    /// The session registered under this id, if any (an owned copy).
    pub fn get_by_socket_io_id(&self, socket_io_id: &str) -> (r: Option<MySocketIoConnection>)
        ensures
            match find_by_sid(self.sockets@, socket_io_id@) {
                Some(i) => r matches Some(c) && c == self.sockets@[i],
                None => r is None,
            },
    {
        match self.index_of_sid(socket_io_id) {
            Some(i) => Some(self.sockets[i].snapshot()),
            None => None,
        }
    }

    /// The session currently holding this web socket, if any (an owned copy).
    pub fn get_by_web_socket_id(&self, web_socket_id: i64) -> (r: Option<MySocketIoConnection>)
        ensures
            match find_by_ws(self.sockets@, web_socket_id) {
                Some(i) => r matches Some(c) && c == self.sockets@[i],
                None => r is None,
            },
    {
        match self.index_of_ws(web_socket_id) {
            Some(i) => Some(self.sockets[i].snapshot()),
            None => None,
        }
    }

    /// Install `web_socket` on the session registered under `socket_io_id`.
    /// The index update and the session mutation happen together, so a lookup
    /// by the replaced socket's id no longer finds the session and a lookup
    /// by the new socket's id does.  Returns the updated session and the
    /// evicted web socket, or `None` for an unknown id.
    pub fn assign_web_socket_to_socket_io(&mut self, socket_io_id: &str, web_socket: WebSocketRef) -> (r:
        Option<AssignOutcome>)
        requires
            old(self).wf(),
        ensures
            final(self).wf(),
            match find_by_sid(old(self).sockets@, socket_io_id@) {
                Some(i) => {
                    &&& final(self).sockets@ == assign_session(old(self).sockets@, i, web_socket)
                    &&& (r matches Some(o) && o.socket_io == final(self).sockets@[i] && o.evicted
                        == old(self).sockets@[i].web_socket)
                },
                None => *final(self) == *old(self) && r is None,
            },
    {
        match self.index_of_sid(socket_io_id) {
            Some(i) => {
                let mut c = self.sockets[i].snapshot();
                let evicted = c.add_web_socket(web_socket);
                let out = c.snapshot();
                self.sockets.set(i, c);
                proof {
                    assert(final(self).wf()) by {
                        assert(forall|k: int|
                            0 <= k < self.sockets@.len() && k != i ==> self.sockets@[k]
                                == old(self).sockets@[k]);
                    }
                }
                Some(AssignOutcome { socket_io: out, evicted })
            },
            None => None,
        }
    }

    /// Record inbound activity on the session currently holding this web
    /// socket; returns the updated session.  The hot message path calls this
    /// on every received frame.
    pub fn update_incoming_activity_by_web_socket(&mut self, web_socket_id: i64, now: u64) -> (r:
        Option<MySocketIoConnection>)
        requires
            old(self).wf(),
        ensures
            final(self).wf(),
            final(self).sockets@ == touch_session(old(self).sockets@, web_socket_id, now),
            match find_by_ws(old(self).sockets@, web_socket_id) {
                Some(i) => r matches Some(c) && c == final(self).sockets@[i],
                None => r is None,
            },
    {
        match self.index_of_ws(web_socket_id) {
            Some(i) => {
                let mut c = self.sockets[i].snapshot();
                c.update_incoming_activity(now);
                let out = c.snapshot();
                self.sockets.set(i, c);
                proof {
                    assert(final(self).wf()) by {
                        assert(forall|k: int|
                            0 <= k < self.sockets@.len() && k != i ==> self.sockets@[k]
                                == old(self).sockets@[k]);
                    }
                }
                Some(out)
            },
            None => None,
        }
    }

    /// Confirm the transport upgrade on the session currently holding this
    /// web socket.  Returns whether that session had a long poll outstanding
    /// (the caller must fail it), or `None` when no session holds the socket.
    pub fn upgrade_by_web_socket(&mut self, web_socket_id: i64) -> (r: Option<bool>)
        requires
            old(self).wf(),
        ensures
            final(self).wf(),
            match find_by_ws(old(self).sockets@, web_socket_id) {
                Some(i) => final(self).sockets@ == upgrade_session(old(self).sockets@, i) && (
                r matches Some(had_long_poll) && had_long_poll == old(self).sockets@[i].long_pooling),
                None => *final(self) == *old(self) && r is None,
            },
    {
        match self.index_of_ws(web_socket_id) {
            Some(i) => {
                let mut c = self.sockets[i].snapshot();
                let had_long_poll = c.upgrade_to_websocket();
                self.sockets.set(i, c);
                proof {
                    assert(final(self).wf()) by {
                        assert(forall|k: int|
                            0 <= k < self.sockets@.len() && k != i ==> self.sockets@[k]
                                == old(self).sockets@[k]);
                    }
                }
                Some(had_long_poll)
            },
            None => None,
        }
    }

    /// Remove the session registered under this id, tearing it down.  The
    /// caller notifies the application exactly once when a session is
    /// returned; removing an absent id is a no-op.
    pub fn remove(&mut self, socket_io_id: &str) -> (r: Option<RemoveOutcome>)
        requires
            old(self).wf(),
        ensures
            final(self).wf(),
            match find_by_sid(old(self).sockets@, socket_io_id@) {
                Some(i) => {
                    &&& final(self).sockets@ == old(self).sockets@.remove(i)
                    &&& (r matches Some(o) && o.socket_io == disconnected_session(
                        old(self).sockets@[i],
                    ) && o.detached == old(self).sockets@[i].web_socket)
                },
                None => *final(self) == *old(self) && r is None,
            },
            r is Some ==> find_by_sid(final(self).sockets@, socket_io_id@) is None,
    {
        match self.index_of_sid(socket_io_id) {
            Some(i) => {
                proof {
                    lemma_find_by_sid_spec(self.sockets@, socket_io_id@);
                }
                let mut c = self.sockets.remove(i);
                let detached = c.disconnect();
                proof {
                    lemma_remove_idempotent(old(self).sockets@, socket_io_id@);
                }
                Some(RemoveOutcome { socket_io: c, detached })
            },
            None => None,
        }
    }
}

/// After a session is registered, looking its id up finds exactly it.
pub proof fn lemma_create_then_lookup(s: Seq<MySocketIoConnection>, c: MySocketIoConnection)
    requires
        unique_session_ids(s),
    ensures
        ({
            let s1 = add_session(s, c);
            find_by_sid(s1, c.id@) matches Some(i) && s1[i] == c
        }),
{
    lemma_find_by_sid_spec(s, c.id@);
    match find_by_sid(s, c.id@) {
        Some(i) => {
            lemma_find_by_sid_at(s.update(i, c), c.id@, i);
        },
        None => {
            lemma_find_by_sid_at(s.push(c), c.id@, s.len() as int);
        },
    }
}

/// Attaching T1 and then T2 to the same session: a lookup by T1's id finds
/// nothing, a lookup by T2's id finds the session, and the second attach
/// evicts T1 (so T1 is notified).  Holds whenever neither socket id is
/// attached anywhere else.
pub proof fn lemma_assign_twice(
    s: Seq<MySocketIoConnection>,
    sid: Seq<char>,
    t1: WebSocketRef,
    t2: WebSocketRef,
)
    requires
        unique_session_ids(s),
        find_by_sid(s, sid) is Some,
        t1.id != t2.id,
        forall|j: int|
            0 <= j < s.len() ==> !ws_attached(s[j], t1.id) && !ws_attached(s[j], t2.id),
    ensures
        ({
            let i = find_by_sid(s, sid)->0;
            let s1 = assign_session(s, i, t1);
            let s2 = assign_session(s1, i, t2);
            &&& find_by_sid(s1, sid) == Some(i)
            &&& find_by_ws(s2, t1.id) is None
            &&& (find_by_ws(s2, t2.id) matches Some(k) && k == i && s2[k].id@ == sid)
            &&& s1[i].web_socket == Some(t1)
        }),
{
    lemma_find_by_sid_spec(s, sid);
    let i = find_by_sid(s, sid)->0;
    let s1 = assign_session(s, i, t1);
    let s2 = assign_session(s1, i, t2);
    lemma_find_by_sid_at(s1, sid, i);
    lemma_find_by_ws_none(s2, t1.id);
    lemma_find_by_ws_at(s2, t2.id, i);
}

/// Removal is idempotent: once a session id is removed, a second remove on
/// the same id finds nothing, so the application's disconnected callback
/// cannot fire a second time.
pub proof fn lemma_remove_idempotent(s: Seq<MySocketIoConnection>, sid: Seq<char>)
    requires
        unique_session_ids(s),
    ensures
        match find_by_sid(s, sid) {
            Some(i) => find_by_sid(s.remove(i), sid) is None,
            None => true,
        },
{
    lemma_find_by_sid_spec(s, sid);
    match find_by_sid(s, sid) {
        Some(i) => {
            assert(forall|j: int|
                0 <= j < s.remove(i).len() ==> s.remove(i)[j] == (if j < i {
                    s[j]
                } else {
                    s[j + 1]
                }));
            lemma_find_by_sid_none(s.remove(i), sid);
        },
        None => {
        },
    }
}

} // verus!
