//! The append-only log of events.
//!
//! The store records facts and checks nothing: whether an event may be
//! recorded is decided by the one who appends it.

use vstd::prelude::*;
use crate::model::{Event, EventView, events_view};

verus! {

/// The ordered log of every event recorded so far.
pub struct EventStore {
    events: Vec<Event>,
}

impl View for EventStore {
    type V = Seq<EventView>;

    closed spec fn view(&self) -> Seq<EventView> {
        events_view(self.events@)
    }
}

impl EventStore {
    /// The empty log.
    pub fn new() -> (res: Self)
        ensures
            res@ == Seq::<EventView>::empty(),
    {
        let res = EventStore { events: Vec::new() };
        assert(res@ =~= Seq::<EventView>::empty());
        res
    }

    /// Appends `event` and returns its sequence number: its position in the
    /// log, counted from zero.
    ///
    /// Nothing recorded before is moved or removed, so each sequence number
    /// is greater than all those returned before.
    pub fn append(&mut self, event: Event) -> (sequence_number: usize)
        ensures
            final(self)@ == old(self)@.push(event@),
            sequence_number == old(self)@.len(),
    {
        let sequence_number = self.events.len();
        self.events.push(event);
        assert(self@ =~= old(self)@.push(event@));
        sequence_number
    }

    /// The log fits in memory: its length is a `usize`.
    pub proof fn lemma_len_bounded(&self)
        ensures
            self@.len() <= usize::MAX,
    {
        assert(self.events.len() == self.events@.len());
    }

    /// The number of events recorded.
    pub fn len(&self) -> (res: usize)
        ensures
            res == self@.len(),
    {
        self.events.len()
    }

    /// The event with the given sequence number, if one was recorded.
    pub fn get(&self, sequence_number: usize) -> (res: Option<&Event>)
        ensures
            match res {
                Some(event) => {
                    &&& sequence_number < self@.len()
                    &&& event@ == self@[sequence_number as int]
                },
                None => sequence_number >= self@.len(),
            },
    {
        if sequence_number < self.events.len() {
            Some(&self.events[sequence_number])
        } else {
            None
        }
    }

    /// The whole log in the order of recording, as it stands at the call.
    pub fn all(&self) -> (res: &Vec<Event>)
        ensures
            events_view(res@) == self@,
    {
        &self.events
    }
}

} // verus!
