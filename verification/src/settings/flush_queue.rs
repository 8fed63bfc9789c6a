//! The ordered write-behind queue of the persistence pipeline.
//!
//! Every accepted update enqueues a complete override snapshot here; a single
//! consumer drains the queue strictly in submission order and writes each
//! snapshot to durable storage.  The queue is bounded: when it is full a
//! submitter must wait, so no accepted update is ever dropped.

use vstd::prelude::*;

use crate::settings::views::PartialSettingsView;
use crate::settings::PartialSettings;

verus! {

/// The queue's mathematical model: the pending snapshots, oldest first, and
/// the fixed bound on how many may be pending at once.
#[verifier::ext_equal]
pub struct FlushQueueView {
    pub items: Seq<PartialSettingsView>,
    pub capacity: nat,
}

/// A bounded first-in-first-out queue of override snapshots awaiting their
/// durable write.
pub struct FlushQueue {
    items: Vec<PartialSettings>,
    capacity: usize,
}

impl View for FlushQueue {
    type V = FlushQueueView;

    closed spec fn view(&self) -> FlushQueueView {
        FlushQueueView { items: self.items.deep_view(), capacity: self.capacity as nat }
    }
}

impl FlushQueue {
    /// An empty queue that will hold at most `capacity` pending snapshots.
    pub fn new(capacity: usize) -> (r: FlushQueue)
        requires
            capacity >= 1,
        ensures
            r@.items == Seq::<PartialSettingsView>::empty(),
            r@.capacity == capacity,
    {
        let r = FlushQueue { items: Vec::new(), capacity };
        proof {
            assert(r@.items =~= Seq::<PartialSettingsView>::empty());
        }
        r
    }

    /// Enqueue one snapshot behind every snapshot submitted before it.
    /// Callers must first make room: a full queue is the backpressure point
    /// at which a submitter waits for the consumer.
    pub fn submit(&mut self, snapshot: PartialSettings)
        requires
            old(self)@.items.len() < old(self)@.capacity,
        ensures
            final(self)@.items == old(self)@.items.push(snapshot@),
            final(self)@.capacity == old(self)@.capacity,
    {
        let ghost n = self.items@.len();
        self.items.push(snapshot);
        proof {
            assert forall|j: int| 0 <= j < self.items.deep_view().len() implies self.items.deep_view()[j]
                == old(self)@.items.push(snapshot@)[j] by {
                if j < n {
                    assert(self.items@[j].deep_view() == old(self).items@[j].deep_view());
                } else {
                    assert(self.items@[j] == snapshot);
                }
            }
            assert(self@.items =~= old(self)@.items.push(snapshot@));
        }
    }

    /// Dequeue the oldest pending snapshot, if any: the consumer side of the
    /// pipeline.  Snapshots come out in exactly the order they went in.
    pub fn take_next(&mut self) -> (r: Option<PartialSettings>)
        ensures
            old(self)@.items.len() == 0 ==> r is None && final(self)@ == old(self)@,
            old(self)@.items.len() > 0 ==> {
                &&& r matches Some(snapshot) && snapshot@ == old(self)@.items[0]
                &&& final(self)@.items == old(self)@.items.drop_first()
                &&& final(self)@.capacity == old(self)@.capacity
            },
    {
        if self.items.len() == 0 {
            None
        } else {
            let snapshot = self.items.remove(0);
            proof {
                assert forall|j: int| 0 <= j < self.items.deep_view().len() implies self.items.deep_view()[j]
                    == old(self)@.items.drop_first()[j] by {
                    assert(self.items@[j] == old(self).items@[j + 1]);
                }
                assert(self@.items =~= old(self)@.items.drop_first());
            }
            Some(snapshot)
        }
    }

    /// How many snapshots are waiting for their durable write.
    pub fn len(&self) -> (r: usize)
        ensures
            r == self@.items.len(),
    {
        self.items.len()
    }

    /// Whether a further `submit` must wait for the consumer to catch up.
    pub fn is_full(&self) -> (r: bool)
        ensures
            r == (self@.items.len() >= self@.capacity),
    {
        self.items.len() >= self.capacity
    }

    /// Whether the consumer has drained everything submitted so far.
    pub fn is_empty(&self) -> (r: bool)
        ensures
            r == (self@.items.len() == 0),
    {
        self.items.len() == 0
    }

    /// The fixed bound the queue was created with.
    pub fn capacity(&self) -> (r: usize)
        ensures
            r == self@.capacity,
    {
        self.capacity
    }
}

} // verus!
