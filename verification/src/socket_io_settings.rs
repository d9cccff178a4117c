use vstd::prelude::*;

verus! {

/// Heartbeat configuration, in milliseconds: how often a ping is sent and how
/// long a session may stay silent before the liveness loop disconnects it.
pub struct SocketIoSettings {
    pub ping_interval: u64,
    pub ping_timeout: u64,
}

impl SocketIoSettings {
    /// Six-second ping cadence, two-second inactivity bound.
    pub fn default() -> (r: Self)
        ensures
            r.ping_interval == 6000,
            r.ping_timeout == 2000,
    {
        SocketIoSettings { ping_interval: 6000, ping_timeout: 2000 }
    }

    pub fn get_ping_interval(&self) -> (r: u64)
        ensures
            r == self.ping_interval,
    {
        self.ping_interval
    }

    pub fn get_ping_timeout(&self) -> (r: u64)
        ensures
            r == self.ping_timeout,
    {
        self.ping_timeout
    }

    pub fn set_ping_interval(&mut self, value: u64)
        ensures
            final(self).ping_interval == value,
            final(self).ping_timeout == old(self).ping_timeout,
    {
        self.ping_interval = value;
    }

    pub fn set_ping_timeout(&mut self, value: u64)
        ensures
            final(self).ping_timeout == value,
            final(self).ping_interval == old(self).ping_interval,
    {
        self.ping_timeout = value;
    }
}

} // verus!
