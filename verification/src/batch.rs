//! A bounded buffer of write units. The accumulator only stores; the
//! decision to drain belongs to the loop that owns it.

use vstd::prelude::*;
use crate::transform::WriteUnit;

verus! {

/// An ordered buffer of pending write units with a fixed capacity
/// threshold, set once at construction.
pub struct BatchAccumulator {
    units: Vec<WriteUnit>,
    capacity: usize,
}

impl View for BatchAccumulator {
    type V = Seq<WriteUnit>;

    closed spec fn view(&self) -> Seq<WriteUnit> {
        self.units@
    }
}

impl BatchAccumulator {
    pub closed spec fn spec_capacity(&self) -> usize {
        self.capacity
    }

    /// The accumulator's invariant: a positive capacity that the contents
    /// never exceed.
    pub open spec fn wf(&self) -> bool {
        self.spec_capacity() >= 1 && self@.len() <= self.spec_capacity()
    }

    /// A zero capacity is a configuration error, rejected before an
    /// accumulator can be made.
    pub fn new(capacity: usize) -> (b: BatchAccumulator)
        requires
            capacity >= 1,
        ensures
            b.wf(),
            b@ == Seq::<WriteUnit>::empty(),
            b.spec_capacity() == capacity,
    {
        BatchAccumulator { units: Vec::new(), capacity }
    }

    pub fn len(&self) -> (n: usize)
        ensures
            n == self@.len(),
    {
        self.units.len()
    }

    pub fn capacity(&self) -> (c: usize)
        ensures
            c == self.spec_capacity(),
    {
        self.capacity
    }

    /// Whether the buffer has reached its threshold.
    pub fn is_full(&self) -> (b: bool)
        ensures
            b == (self@.len() >= self.spec_capacity()),
    {
        self.units.len() >= self.capacity
    }

    /// Adds one unit at the tail.
    pub fn append(&mut self, unit: WriteUnit)
        requires
            old(self).wf(),
            old(self)@.len() < old(self).spec_capacity(),
        ensures
            final(self).wf(),
            final(self)@ == old(self)@.push(unit),
            final(self).spec_capacity() == old(self).spec_capacity(),
    {
        self.units.push(unit);
    }

    /// Removes and returns the whole contents, in arrival order, leaving
    /// the buffer empty.
    pub fn drain(&mut self) -> (out: Vec<WriteUnit>)
        requires
            old(self).wf(),
        ensures
            final(self).wf(),
            out@ == old(self)@,
            final(self)@ == Seq::<WriteUnit>::empty(),
            final(self).spec_capacity() == old(self).spec_capacity(),
    {
        let mut out: Vec<WriteUnit> = Vec::new();
        core::mem::swap(&mut out, &mut self.units);
        out
    }
}

/// The buffered contents never exceed the configured capacity; in
/// particular they do not at the instant the fullness test is made.
pub proof fn lemma_batch_within_capacity(b: &BatchAccumulator)
    requires
        b.wf(),
    ensures
        b@.len() <= b.spec_capacity(),
{
}

} // verus!
