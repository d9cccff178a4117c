use vstd::prelude::*;

use crate::my_socket_io_connection::MySocketIoConnection;

verus! {

// One liveness loop runs per session once a persistent transport attaches.
// Each iteration calls `liveness_step` and then either exits the loop (and
// runs the disconnect orchestration), sends a Ping and sleeps one ping
// interval, or just sleeps.  The loop itself — sleeping, sending, spawning —
// belongs to the embedding; the decision below is what it acts on.

/// What one iteration of the per-session liveness loop does.
#[derive(PartialEq, Eq, Structural, Clone, Copy, Debug)]
pub enum LivenessStep {
    /// Leave the loop and run the disconnect orchestration.
    Exit,
    /// Send a `Ping` frame, then sleep one ping interval.
    Ping,
    /// Sleep one ping interval without pinging (no persistent transport yet).
    Idle,
}

/// How long the session has been silent at `now`; zero when the clock reads
/// earlier than the last inbound frame.
pub open spec fn inactivity(c: MySocketIoConnection, now: int) -> int {
    if now >= c.last_incoming_moment {
        now - c.last_incoming_moment
    } else {
        0
    }
}

/// The loop exits exactly when the session is disconnected or has been
/// silent for the full inactivity bound; otherwise it pings exactly when a
/// persistent transport is (or was) attached.
pub open spec fn liveness_step_spec(
    c: MySocketIoConnection,
    now: int,
    ping_disconnect_timeout: int,
) -> LivenessStep {
    if !c.connected {
        LivenessStep::Exit
    } else if inactivity(c, now) >= ping_disconnect_timeout {
        LivenessStep::Exit
    } else if c.web_socket_model {
        LivenessStep::Ping
    } else {
        LivenessStep::Idle
    }
}

/// Decide one iteration of the liveness loop for this session.
pub fn liveness_step(c: &MySocketIoConnection, now: u64, ping_disconnect_timeout: u64) -> (r:
    LivenessStep)
    ensures
        r == liveness_step_spec(*c, now as int, ping_disconnect_timeout as int),
{
    if !c.is_connected() {
        return LivenessStep::Exit;
    }
    let inactive: u64 = if now >= c.last_incoming_moment {
        now - c.last_incoming_moment
    } else {
        0
    };
    if inactive >= ping_disconnect_timeout {
        return LivenessStep::Exit;
    }
    if c.in_web_socket_model() {
        LivenessStep::Ping
    } else {
        LivenessStep::Idle
    }
}

/// The loop never exits early: while the session is connected and the
/// inactivity bound has not elapsed, the step is not `Exit`.
pub proof fn lemma_liveness_no_early_exit(c: MySocketIoConnection, now: int, timeout: int)
    requires
        c.connected,
        inactivity(c, now) < timeout,
    ensures
        liveness_step_spec(c, now, timeout) != LivenessStep::Exit,
{
}

/// Once the inactivity bound has elapsed, the next check exits the loop,
/// whether or not the session is still marked connected.
pub proof fn lemma_liveness_exits_on_timeout(c: MySocketIoConnection, now: int, timeout: int)
    requires
        inactivity(c, now) >= timeout,
    ensures
        liveness_step_spec(c, now, timeout) == LivenessStep::Exit,
{
}

/// With checks at most one ping interval apart, the loop exits within one
/// interval of the inactivity bound elapsing, and not before: if the check at
/// `t1` continued and the next check at `t2` sees the bound elapsed, that
/// check exits, and `t2` lies less than one interval past the deadline.
pub proof fn lemma_liveness_exit_within_interval(
    c: MySocketIoConnection,
    t1: int,
    t2: int,
    timeout: int,
    interval: int,
)
    requires
        liveness_step_spec(c, t1, timeout) != LivenessStep::Exit,
        t1 <= t2 <= t1 + interval,
        t2 >= c.last_incoming_moment + timeout,
    ensures
        liveness_step_spec(c, t2, timeout) == LivenessStep::Exit,
        t2 < c.last_incoming_moment + timeout + interval,
{
    assert(inactivity(c, t1) < timeout);
    assert(t1 < c.last_incoming_moment + timeout);
}

} // verus!
