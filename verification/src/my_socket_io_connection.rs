use vstd::prelude::*;

use crate::my_socket_io_message::MySocketIoMessage;
use crate::wire_format::encode_message;

verus! {

/// A handle to one underlying web socket, reduced to what the session logic
/// reads of it: its numeric id.  The embedding keeps the id-to-socket map and
/// performs the actual sends and closes.
#[derive(Clone, Copy, PartialEq, Eq, Structural, Debug)]
pub struct WebSocketRef {
    pub id: i64,
}

/// A text frame to be sent on one web socket; session operations return these
/// instead of performing the transport write themselves.
pub struct OutgoingFrame {
    pub web_socket_id: i64,
    pub text: String,
}

/// One logical client session.  It owns at most one attached web socket,
/// remembers when the peer was last heard from, and moves through the states
/// polling (initial), web-socket attached, disconnected (terminal):
/// `upgraded_to_websocket` and `web_socket_model` only ever go from false to
/// true, `connected` only from true to false.
pub struct MySocketIoConnection {
    pub id: String,
    pub created: u64,
    pub last_incoming_moment: u64,
    pub web_socket: Option<WebSocketRef>,
    /// Whether a long-poll completion is outstanding; it is failed (by the
    /// embedding) when the session upgrades or disconnects.
    pub long_pooling: bool,
    pub upgraded_to_websocket: bool,
    pub connected: bool,
    /// True once the session was created with, or upgraded to, a persistent
    /// web socket; never cleared, not even on disconnect.
    pub web_socket_model: bool,
}

impl MySocketIoConnection {
    pub fn new(id: String, web_socket: Option<WebSocketRef>, now: u64) -> (r: Self)
        ensures
            r.id == id,
            r.created == now,
            r.last_incoming_moment == now,
            r.web_socket == web_socket,
            !r.long_pooling,
            !r.upgraded_to_websocket,
            r.connected,
            r.web_socket_model == web_socket.is_some(),
    {
        let web_socket_model = web_socket.is_some();
        MySocketIoConnection {
            id,
            created: now,
            last_incoming_moment: now,
            web_socket,
            long_pooling: false,
            upgraded_to_websocket: false,
            connected: true,
            web_socket_model,
        }
    }

    /// An owned copy of this session, equal to it.
    pub fn snapshot(&self) -> (r: Self)
        ensures
            r == *self,
    {
        MySocketIoConnection {
            id: self.id.clone(),
            created: self.created,
            last_incoming_moment: self.last_incoming_moment,
            web_socket: self.web_socket,
            long_pooling: self.long_pooling,
            upgraded_to_websocket: self.upgraded_to_websocket,
            connected: self.connected,
            web_socket_model: self.web_socket_model,
        }
    }

    /// Confirm the upgrade to a persistent transport.  Returns whether a
    /// long poll was outstanding: the caller must fail it, since the upgrade
    /// obsoletes it.
    pub fn upgrade_to_websocket(&mut self) -> (had_long_poll: bool)
        ensures
            had_long_poll == old(self).long_pooling,
            *final(self) == (MySocketIoConnection {
                long_pooling: false,
                upgraded_to_websocket: true,
                web_socket_model: true,
                ..*old(self)
            }),
    {
        self.upgraded_to_websocket = true;
        self.web_socket_model = true;
        let had_long_poll = self.long_pooling;
        self.long_pooling = false;
        had_long_poll
    }

    /// Whether the session ever confirmed (or started with) a persistent
    /// transport; read by the liveness loop to decide whether to ping.
    pub fn in_web_socket_model(&self) -> (r: bool)
        ensures
            r == self.web_socket_model,
    {
        self.web_socket_model
    }

    /// Whether the given web socket is the one currently attached.
    pub fn has_web_socket(&self, web_socket_id: i64) -> (r: bool)
        ensures
            r == match self.web_socket {
                Some(w) => w.id == web_socket_id,
                None => false,
            },
    {
        match &self.web_socket {
            Some(w) => w.id == web_socket_id,
            None => false,
        }
    }

    pub fn get_web_socket(&self) -> (r: Option<WebSocketRef>)
        ensures
            r == self.web_socket,
    {
        self.web_socket
    }

    /// Record inbound activity; called on every received frame and read by
    /// the liveness loop.
    pub fn update_incoming_activity(&mut self, now: u64)
        ensures
            *final(self) == (MySocketIoConnection { last_incoming_moment: now, ..*old(self) }),
    {
        self.last_incoming_moment = now;
    }

    /// Encode `message` for the attached web socket.  With no transport
    /// attached the packet is dropped (no error): such sessions simply miss
    /// non-critical pushes.
    pub fn send_message(&self, message: &MySocketIoMessage) -> (r: Option<OutgoingFrame>)
        ensures
            match self.web_socket {
                Some(w) => r matches Some(f) && f.web_socket_id == w.id && f.text@
                    == encode_message(message@),
                None => r is None,
            },
    {
        match &self.web_socket {
            Some(w) => Some(OutgoingFrame { web_socket_id: w.id, text: message.to_string() }),
            None => None,
        }
    }

    /// Install a web socket.  Returns the one it replaced, if any: the caller
    /// must notify that socket it was kicked and close it, so that a loser of
    /// a racing attach is evicted explicitly, never silently orphaned.
    pub fn add_web_socket(&mut self, web_socket: WebSocketRef) -> (evicted: Option<WebSocketRef>)
        ensures
            evicted == old(self).web_socket,
            *final(self) == (MySocketIoConnection { web_socket: Some(web_socket), ..*old(self) }),
    {
        let evicted = self.web_socket;
        self.web_socket = Some(web_socket);
        evicted
    }

    /// Tear down: mark disconnected, detach the web socket (returned so the
    /// caller can close it and clean the registry's transport index) and drop
    /// any pending long poll (the caller fails it).  Idempotent: a second
    /// call changes nothing and returns `None`.
    pub fn disconnect(&mut self) -> (r: Option<WebSocketRef>)
        ensures
            r == old(self).web_socket,
            *final(self) == (MySocketIoConnection {
                connected: false,
                web_socket: None,
                long_pooling: false,
                ..*old(self)
            }),
    {
        self.connected = false;
        self.long_pooling = false;
        let detached = self.web_socket;
        self.web_socket = None;
        detached
    }

    pub fn is_connected(&self) -> (r: bool)
        ensures
            r == self.connected,
    {
        self.connected
    }
}

} // verus!
