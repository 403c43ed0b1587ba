//! Slots: the places of a module that can hold a token.

use vstd::prelude::*;

verus! {

/// The identifier of a slot, as the module assigned it.
#[derive(Debug, Clone, Copy, PartialEq, Eq)]
pub struct Slot {
    slot_id: u64,
}

impl View for Slot {
    type V = u64;

    closed spec fn view(&self) -> u64 {
        self.slot_id
    }
}

impl DeepView for Slot {
    type V = u64;

    open spec fn deep_view(&self) -> u64 {
        self@
    }
}

impl Slot {
    pub(crate) fn new(slot_id: u64) -> (slot: Slot)
        ensures
            slot@ == slot_id,
    {
        Slot { slot_id }
    }

    /// The identifier of this slot.
    pub fn id(&self) -> (id: u64)
        ensures
            id == self@,
    {
        self.slot_id
    }
}

} // verus!
