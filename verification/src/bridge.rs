//! An in-memory stand-in for the message bridge to the game server.

use vstd::prelude::*;

verus! {

/// Queues of messages from and events to the game server, kept in memory.
pub struct MockBridge<M, E> {
    pub outgoing_events: Vec<E>,
    pub incoming_messages: Vec<M>,
}

impl<M, E> MockBridge<M, E> {
    /// A bridge with empty queues.
    pub fn new() -> (b: Self)
        ensures
            b.outgoing_events@.len() == 0,
            b.incoming_messages@.len() == 0,
    {
        MockBridge { outgoing_events: Vec::new(), incoming_messages: Vec::new() }
    }

    /// The oldest queued message, if any, removed from the queue.
    pub fn try_recv(&mut self) -> (m: Option<M>)
        ensures
            old(self).incoming_messages@.len() == 0 ==> m is None && final(self).incoming_messages@ == old(
                self,
            ).incoming_messages@,
            old(self).incoming_messages@.len() > 0 ==> m == Some(old(self).incoming_messages@[0])
                && final(self).incoming_messages@ == old(self).incoming_messages@.drop_first(),
            final(self).outgoing_events@ == old(self).outgoing_events@,
    {
        if self.incoming_messages.len() == 0 {
            None
        } else {
            let m = self.incoming_messages.remove(0);
            assert(self.incoming_messages@ =~= old(self).incoming_messages@.drop_first());
            Some(m)
        }
    }

    /// Appends events to the outgoing queue, in order.
    pub fn publish_events(&mut self, events: Vec<E>)
        ensures
            final(self).outgoing_events@ == old(self).outgoing_events@ + events@,
            final(self).incoming_messages@ == old(self).incoming_messages@,
    {
        let mut events = events;
        self.outgoing_events.append(&mut events);
    }
}

} // verus!
