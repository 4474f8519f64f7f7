//! The concurrency gate: a counting pool of capacity slots. One slot is taken
//! for every tab in use and handed back when the tab is released, so the number
//! of tabs in simultaneous use never exceeds the capacity.

use vstd::prelude::*;

verus! {

/// A concurrency gate as a pair of numbers.
pub struct GateModel {
    /// The number of slots, fixed at construction.
    pub capacity: nat,
    /// The number of slots that are free.
    pub available: nat,
}

impl GateModel {
    /// No more slots are free than there are.
    pub open spec fn wf(self) -> bool {
        self.available <= self.capacity
    }

    /// The number of slots that are taken.
    pub open spec fn in_use(self) -> nat {
        (self.capacity - self.available) as nat
    }

    /// A gate with every slot free.
    pub open spec fn fresh(capacity: nat) -> GateModel {
        GateModel { capacity, available: capacity }
    }

    /// Whether a slot can be taken.
    pub open spec fn has_slot(self) -> bool {
        self.available > 0
    }

    /// This gate after one slot was taken, unchanged where none is free.
    pub open spec fn take(self) -> GateModel {
        if self.available > 0 {
            GateModel { available: (self.available - 1) as nat, ..self }
        } else {
            self
        }
    }

    /// This gate after one slot was handed back. A gate with every slot free
    /// stays as it is.
    pub open spec fn give(self) -> GateModel {
        if self.available < self.capacity {
            GateModel { available: self.available + 1, ..self }
        } else {
            self
        }
    }
}

/// A counting pool of capacity slots.
#[derive(Debug, Clone, Copy)]
pub struct ConcurrencyGate {
    capacity: usize,
    available: usize,
}

impl View for ConcurrencyGate {
    type V = GateModel;

    closed spec fn view(&self) -> GateModel {
        GateModel { capacity: self.capacity as nat, available: self.available as nat }
    }
}

impl ConcurrencyGate {
    #[verifier::type_invariant]
    spec fn inv(&self) -> bool {
        self.available <= self.capacity
    }

    /// A gate of the given capacity with every slot free.
    pub fn new(capacity: usize) -> (gate: ConcurrencyGate)
        ensures
            gate@ == GateModel::fresh(capacity as nat),
            gate@.wf(),
    {
        ConcurrencyGate { capacity, available: capacity }
    }

    /// Takes a slot if one is free, and says whether it did. A caller that is
    /// told `false` waits for a release and asks again.
    pub fn try_acquire(&mut self) -> (taken: bool)
        ensures
            taken == old(self)@.has_slot(),
            final(self)@ == old(self)@.take(),
            final(self)@.wf(),
    {
        proof {
            use_type_invariant(&*self);
        }
        if self.available > 0 {
            self.available = self.available - 1;
            true
        } else {
            false
        }
    }

    /// Hands one slot back.
    pub fn release(&mut self)
        ensures
            final(self)@ == old(self)@.give(),
            final(self)@.wf(),
    {
        proof {
            use_type_invariant(&*self);
        }
        if self.available < self.capacity {
            self.available = self.available + 1;
        }
    }

    /// The number of slots.
    pub fn capacity(&self) -> (capacity: usize)
        ensures
            capacity == self@.capacity,
            self@.wf(),
    {
        proof {
            use_type_invariant(self);
        }
        self.capacity
    }

    /// The number of free slots.
    pub fn available(&self) -> (available: usize)
        ensures
            available == self@.available,
            self@.wf(),
    {
        proof {
            use_type_invariant(self);
        }
        self.available
    }

    /// The number of slots that are taken.
    pub fn in_use(&self) -> (in_use: usize)
        ensures
            in_use == self@.in_use(),
            self@.wf(),
    {
        proof {
            use_type_invariant(self);
        }
        self.capacity - self.available
    }
}

} // verus!
