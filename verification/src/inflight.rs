//! The embedded endpoint's fixed array of response slots.
//!
//! The device side of the BLE link has no allocator to grow a table with,
//! so it waits on a fixed array of [`crate::MAX_INFLIGHT`] slots, indexed
//! by the message identifier modulo the array size. More requests in
//! flight than slots overwrite the oldest pending one — a documented
//! limitation the embedded client stays below in normal operation.

use crate::MAX_INFLIGHT;
use vstd::prelude::*;

verus! {

/// The slot a message identifier waits in.
pub open spec fn spec_slot_index(id: u32) -> int {
    (id as int) % (MAX_INFLIGHT as int)
}

/// A fixed array of single-shot response slots.
pub struct InflightSlots<T> {
    slots: Vec<Option<T>>,
}

impl<T> View for InflightSlots<T> {
    type V = Seq<Option<T>>;

    closed spec fn view(&self) -> Seq<Option<T>> {
        self.slots@
    }
}

impl<T> InflightSlots<T> {
    /// The array always holds exactly [`MAX_INFLIGHT`] slots.
    pub open spec fn wf(&self) -> bool {
        self@.len() == MAX_INFLIGHT
    }

    /// All slots empty.
    pub fn new() -> (r: InflightSlots<T>)
        ensures
            r.wf(),
            forall|i: int| 0 <= i < MAX_INFLIGHT ==> r@[i] is None,
    {
        let mut slots: Vec<Option<T>> = Vec::new();
        let mut i: usize = 0;
        while i < MAX_INFLIGHT
            invariant
                i <= MAX_INFLIGHT,
                slots@.len() == i,
                forall|j: int| 0 <= j < i ==> slots@[j] is None,
            decreases MAX_INFLIGHT - i,
        {
            slots.push(None);
            i = i + 1;
        }
        InflightSlots { slots }
    }

    /// Park a pending request in the slot its identifier maps to. A slot
    /// already occupied is overwritten: with more than [`MAX_INFLIGHT`]
    /// requests in flight the oldest pending one is lost.
    pub fn store(&mut self, id: u32, slot: T)
        requires
            old(self).wf(),
        ensures
            final(self).wf(),
            final(self)@ == old(self)@.update(spec_slot_index(id), Some(slot)),
    {
        let i = (id as usize) % MAX_INFLIGHT;
        let _ = self.slots.remove(i);
        self.slots.insert(i, Some(slot));
        proof {
            assert(self@ =~= old(self)@.update(spec_slot_index(id), Some(slot)));
        }
    }

    /// Take whatever waits in the slot this identifier maps to, leaving
    /// the slot empty.
    pub fn take(&mut self, id: u32) -> (r: Option<T>)
        requires
            old(self).wf(),
        ensures
            final(self).wf(),
            r == old(self)@[spec_slot_index(id)],
            final(self)@ == old(self)@.update(spec_slot_index(id), None),
    {
        let i = (id as usize) % MAX_INFLIGHT;
        let taken = self.slots.remove(i);
        self.slots.insert(i, None);
        proof {
            assert(self@ =~= old(self)@.update(spec_slot_index(id), None));
        }
        taken
    }
}

} // verus!
