use std::sync::Arc;

use vstd::prelude::*;
use vstd::rwlock::{RwLock, RwLockPredicate};

use crate::error::{DataMissing, DataPresent};
use crate::slot::{clear_outcome, clear_slot, set_outcome, set_slot, MavData, Slot};

verus! {

/// The lock invariant of the shared slot: every content is allowed.
pub struct AnySlot;

impl RwLockPredicate<Slot> for AnySlot {
    open spec fn inv(self, v: Slot) -> bool {
        true
    }
}

/// The slot that a [`Handle`] and its [`crate::Ffi`] share.
pub type SharedSlot = RwLock<Slot, AnySlot>;

/// Writes the MAVLink data of the command under evaluation into the slot
/// that its [`crate::Ffi`] reads.
///
/// A handle is the only writer of its slot (it is not `Clone`, and the `Ffi`
/// only reads), so it keeps its own record of what the slot holds and decides
/// every request on that record, writing the record to the slot under the
/// write lock. The contracts speak of the record; that the slot holds the
/// same is not stated by any contract (the lock's invariant is `true`).
pub struct Handle {
    shared: Arc<SharedSlot>,
    written: Slot,
}

impl View for Handle {
    type V = Slot;

    /// What this handle has stored in its slot.
    closed spec fn view(&self) -> Slot {
        self.written
    }
}

impl Handle {
    /// The lock that holds the shared slot.
    pub closed spec fn slot_lock(&self) -> SharedSlot {
        *self.shared
    }

    /// A handle that writes into the given (empty) slot.
    pub(crate) fn from_shared(shared: Arc<SharedSlot>) -> (h: Handle)
        ensures
            h.slot_lock() == *shared,
            h@ == None::<MavData>,
    {
        Handle { shared, written: None }
    }

    /// Stores `data` in the shared slot. Refuses with `DataPresent`, and
    /// leaves the slot as it was, when the slot already holds data.
    pub fn set(&mut self, data: MavData) -> (r: Result<(), DataPresent>)
        ensures
            final(self).slot_lock() == old(self).slot_lock(),
            (final(self)@, r) == set_outcome(old(self)@, data),
    {
        let (_held, write) = self.shared.acquire_write();
        let r = set_slot(&mut self.written, data);
        write.release_write(self.written);
        r
    }

    /// Empties the shared slot. Refuses with `DataMissing` when it is
    /// already empty.
    pub fn clear(&mut self) -> (r: Result<(), DataMissing>)
        ensures
            final(self).slot_lock() == old(self).slot_lock(),
            (final(self)@, r) == clear_outcome(old(self)@),
    {
        let (_held, write) = self.shared.acquire_write();
        let r = clear_slot(&mut self.written);
        write.release_write(self.written);
        r
    }
}

} // verus!
