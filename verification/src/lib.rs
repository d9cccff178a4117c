//! The verified core of a server-side Socket.IO/Engine.IO-compatible
//! messaging engine: the wire-protocol codec, the session state machine, the
//! dual-indexed session registry, the namespace registry, the liveness
//! (heartbeat/timeout) decisions, and the connect/disconnect orchestration.
//! Transport I/O, JSON payload parsing and the HTTP router belong to the
//! embedding, which acts on the values these functions return.

pub mod handshake;
pub mod middleware;
pub mod my_socket_io;
pub mod my_socket_io_connection;
pub mod my_socket_io_message;
pub mod namespaces;
pub mod process_connect;
pub mod process_disconnect;
pub mod socket_io_list;
pub mod socket_io_liveness_loop;
pub mod socket_io_settings;
pub mod text;
pub mod web_socket_callbacks;
pub mod wire_format;
