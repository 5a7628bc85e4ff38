//! The bounded queue of pending directional intents: the input relay appends
//! to it, the simulation pops the oldest entry each tick. Its capacity caps
//! input lag: once full, the oldest entries are retained and newer ones are
//! silently dropped.

use vstd::prelude::*;
use crate::geometry::Direction;

verus! {

/// Most intents the queue retains; later ones are dropped until a tick drains it.
pub const INTENT_CAPACITY: usize = 3;

/// Pending directional intents, oldest first, holding at most
/// `INTENT_CAPACITY` entries.
pub struct IntentQueue {
    items: Vec<Direction>,
}

impl View for IntentQueue {
    type V = Seq<Direction>;

    closed spec fn view(&self) -> Seq<Direction> {
        self.items@
    }
}

impl IntentQueue {
    /// The capacity bound the queue maintains.
    pub open spec fn wf(&self) -> bool {
        self@.len() <= INTENT_CAPACITY
    }

    /// Creates an empty queue.
    pub fn new() -> (q: IntentQueue)
        ensures
            q@ == Seq::<Direction>::empty(),
            q.wf(),
    {
        IntentQueue { items: Vec::new() }
    }

    /// Number of pending intents.
    pub fn len(&self) -> (n: usize)
        ensures
            n == self@.len(),
    {
        self.items.len()
    }

    /// Appends an intent unless the queue is full; a full queue keeps its
    /// oldest entries and drops the new one.
    pub fn push(&mut self, d: Direction)
        requires
            old(self).wf(),
        ensures
            final(self).wf(),
            old(self)@.len() < INTENT_CAPACITY ==> final(self)@ == old(self)@.push(d),
            old(self)@.len() >= INTENT_CAPACITY ==> final(self)@ == old(self)@,
    {
        if self.items.len() < INTENT_CAPACITY {
            self.items.push(d);
        }
    }

    /// Removes and returns the oldest intent, if any.
    pub fn pop(&mut self) -> (r: Option<Direction>)
        requires
            old(self).wf(),
        ensures
            final(self).wf(),
            old(self)@.len() == 0 ==> r is None && final(self)@ == old(self)@,
            old(self)@.len() > 0 ==> r == Some(old(self)@[0]) && final(self)@ == old(self)@.skip(1),
    {
        if self.items.len() == 0 {
            None
        } else {
            let d = self.items.remove(0);
            assert(self.items@ =~= old(self)@.skip(1));
            Some(d)
        }
    }
}

} // verus!
