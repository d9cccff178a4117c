use vstd::prelude::*;

use crate::socket_io_settings::SocketIoSettings;
use crate::text::{dec_digits, u64_to_dec_string};

verus! {

// The handshake payloads and the verbatim probe/upgrade control strings of
// the transport-level handshake.  The field set of the open packet is a
// compatibility contract with Engine.IO clients and must remain stable.

/// The Engine.IO open packet for a fresh session: '0', then a JSON object
/// with the session id, the offered upgrade, and the heartbeat timings in
/// milliseconds.
pub open spec fn negotiate_payload(sid: Seq<char>, ping_interval: int, ping_timeout: int) -> Seq<
    char,
> {
    "0{\"sid\":\""@ + sid + "\",\"upgrades\":[\"websocket\"],\"pingInterval\":"@ + dec_digits(
        ping_interval,
    ) + ",\"pingTimeout\":"@ + dec_digits(ping_timeout) + "}"@
}

/// The connect acknowledgement for an already known session id.
pub open spec fn connect_payload(sid: Seq<char>) -> Seq<char> {
    "40{\"sid\":\""@ + sid + "\"}"@
}

/// Build the open packet a newly connected session is answered with.
pub fn compile_negotiate_response(sid: &str, settings: &SocketIoSettings) -> (r: String)
    ensures
        r@ == negotiate_payload(
            sid@,
            settings.ping_interval as int,
            settings.ping_timeout as int,
        ),
{
    let mut r = String::from_str("0{\"sid\":\"");
    r.append(sid);
    r.append("\",\"upgrades\":[\"websocket\"],\"pingInterval\":");
    let interval = u64_to_dec_string(settings.get_ping_interval());
    r.append(interval.as_str());
    r.append(",\"pingTimeout\":");
    let timeout = u64_to_dec_string(settings.get_ping_timeout());
    r.append(timeout.as_str());
    r.append("}");
    proof {
        assert(r@ =~= negotiate_payload(
            sid@,
            settings.ping_interval as int,
            settings.ping_timeout as int,
        ));
    }
    r
}

/// Build the connect acknowledgement for a reconnecting session id.
pub fn compile_connect_payload(sid: &str) -> (r: String)
    ensures
        r@ == connect_payload(sid@),
{
    let mut r = String::from_str("40{\"sid\":\"");
    r.append(sid);
    r.append("\"}");
    proof {
        assert(r@ =~= connect_payload(sid@));
    }
    r
}

/// The verbatim ping-probe control string of the transport upgrade handshake.
pub fn engine_io_ping_probe_payload() -> (r: &'static str)
    ensures
        r@ == "2probe"@,
{
    "2probe"
}

/// The reply the ping probe is answered with.
pub fn engine_io_pong_probe_payload() -> (r: &'static str)
    ensures
        r@ == "3probe"@,
{
    "3probe"
}

/// The verbatim upgrade-confirmation control string.
pub fn engine_io_upgrade_payload() -> (r: &'static str)
    ensures
        r@ == "5"@,
{
    "5"
}

} // verus!
