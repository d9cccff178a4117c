use vstd::prelude::*;

verus! {

/// The application handler for one namespace, implemented by the embedding
/// application and registered once at startup.
pub trait MySocketIo {
    /// Handle one event (name and data split out of the event's JSON array);
    /// a returned payload is sent back to the peer as an `Ack`.
    fn on(&self, event_id: &str, message: &str) -> Option<String>;

    /// The namespace this handler serves.
    fn get_nsp(&self) -> &str;
}

} // verus!
