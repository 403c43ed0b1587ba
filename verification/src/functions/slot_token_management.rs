//! Slot and token management: listing the slots of the module.

use crate::gateway::{resized, to_usize, usize_of, Call, Function, Operation, Reply, Step};
use crate::types::slot_token::Slot;
use crate::{Error, Pkcs11};
use vstd::prelude::*;

verus! {

/// The listing of slots: a first call without a buffer, which gives the number of slots, and
/// a second call with a buffer for that many.
#[derive(Debug, Clone, Copy)]
pub struct SlotList<'a> {
    pub client: &'a Pkcs11,
    /// Whether only the slots that hold a token are listed.
    pub token_present: bool,
    /// The size of the buffer of the second call; `None` before the first.
    pub capacity: Option<usize>,
}

/// The identifiers that a listing ends with: those of the buffer, cut or filled up with zeros
/// to the count of the second call. That count decides, not the one of the first call.
pub open spec fn listed_slots(buffer: Seq<u64>, count: u64) -> Result<Seq<u64>, Error> {
    match usize_of(count) {
        Err(e) => Err(e),
        Ok(n) => Ok(resized(buffer, n as nat, 0u64)),
    }
}

/// The slots of a buffer of identifiers, cut or filled up with zeros to the count that the
/// module reported.
pub fn size_slots(buffer: &[u64], count: u64) -> (r: Result<Vec<Slot>, Error>)
    ensures
        match r {
            Ok(slots) => listed_slots(buffer@, count) == Ok::<Seq<u64>, Error>(slots.deep_view()),
            Err(e) => listed_slots(buffer@, count) == Err::<Seq<u64>, Error>(e),
        },
{
    let n = to_usize(count)?;
    let mut slots: Vec<Slot> = Vec::new();
    let mut i: usize = 0;
    while i < n
        invariant
            i <= n,
            slots.deep_view() == resized(buffer@, i as nat, 0u64),
        decreases n - i,
    {
        let ghost before = slots.deep_view();
        let id: u64 = if i < buffer.len() {
            buffer[i]
        } else {
            0
        };
        let slot = Slot::new(id);
        slots.push(slot);
        assert(slots.deep_view() =~= before.push(slot@));
        i = i + 1;
        assert(slots.deep_view() =~= resized(buffer@, i as nat, 0u64));
    }
    Ok(slots)
}

impl<'a> SlotList<'a> {
    /// The call that the listing asks for next.
    pub open spec fn pending(&self) -> Call<'a> {
        Call::GetSlotList { token_present: self.token_present, capacity: self.capacity }
    }

    /// Where the listing stands after a reply. A failure ends it. The count of the first call
    /// becomes the size of the buffer of the second; after the second the listing ends with
    /// the slots of the buffer, as many as the second call counted.
    pub open spec fn resumed(self, reply: Reply, step: Step<Self, Vec<Slot>>) -> bool {
        match reply.outcome() {
            Err(e) => step == Step::<Self, Vec<Slot>>::Done(Err(e)),
            Ok(()) => match self.capacity {
                None => match usize_of(reply.value) {
                    Err(e) => step == Step::<Self, Vec<Slot>>::Done(Err(e)),
                    Ok(n) => step == Step::<Self, Vec<Slot>>::Continue(
                        SlotList { capacity: Some(n), ..self },
                    ),
                },
                Some(_) => match listed_slots(reply.handles@, reply.value) {
                    Err(e) => step == Step::<Self, Vec<Slot>>::Done(Err(e)),
                    Ok(ids) => step matches Step::Done(Ok(slots)) && slots.deep_view() == ids,
                },
            },
        }
    }

}

impl<'a> Operation for SlotList<'a> {
    type Output = Vec<Slot>;

    open spec fn gateway(&self) -> &Pkcs11 {
        self.client
    }

    open spec fn function(&self) -> Function {
        Function::GetSlotList
    }

    /// The call to make, or the error of its missing entry.
    fn call(&self) -> (r: Result<Call<'_>, Error>)
        ensures
            r == self.client.dispatched(self.pending()),
    {
        self.client.dispatch(
            Call::GetSlotList { token_present: self.token_present, capacity: self.capacity },
        )
    }

    /// Takes the reply to the call and says where the listing stands then.
    fn resume(self, reply: Reply) -> (step: Step<Self, Vec<Slot>>)
        ensures
            self.resumed(reply, step),
    {
        if let Err(e) = reply.result() {
            return Step::Done(Err(e));
        }
        match self.capacity {
            None => match to_usize(reply.value) {
                Err(e) => Step::Done(Err(e)),
                Ok(n) => Step::Continue(SlotList { capacity: Some(n), ..self }),
            },
            Some(_) => Step::Done(size_slots(reply.handles.as_slice(), reply.value)),
        }
    }
}

impl Pkcs11 {
    /// Get all slots available with a token
    pub fn get_slots_with_token(&self) -> (op: SlotList<'_>)
        ensures
            op == (SlotList { client: self, token_present: true, capacity: None }),
    {
        SlotList { client: self, token_present: true, capacity: None }
    }

    /// Get all slots
    pub fn get_all_slots(&self) -> (op: SlotList<'_>)
        ensures
            op == (SlotList { client: self, token_present: false, capacity: None }),
    {
        SlotList { client: self, token_present: false, capacity: None }
    }
}

} // verus!
