use std::sync::Arc;

use vstd::prelude::*;
use vstd::rwlock::RwLock;

use crate::error::DataMissing;
use crate::handle::{AnySlot, Handle, SharedSlot};
use crate::slot::{sender_sys_id_of, target_sys_id_of, task_id_of, MavData, Slot};

verus! {

/// The `mavlink` FFI module: reads the MAVLink data that its [`Handle`] stored.
pub struct Ffi {
    shared: Arc<SharedSlot>,
}

/// Hands out a second owner of the same slot.
#[verifier::external_body]
fn share_slot(shared: &Arc<SharedSlot>) -> (r: Arc<SharedSlot>)
    ensures
        *r == **shared,
{
    Arc::clone(shared)
}

impl Ffi {
    /// The lock that holds the shared slot.
    pub closed spec fn slot_lock(&self) -> SharedSlot {
        *self.shared
    }

    /// A module and the handle that writes what it reads: both own the same
    /// slot, which starts empty, and the handle's record starts empty.
    pub fn new() -> (r: (Self, Handle))
        ensures
            r.0.slot_lock() == r.1.slot_lock(),
            r.1@ == None::<MavData>,
    {
        let empty: Slot = None;
        let shared = Arc::new(RwLock::new(empty, Ghost(AnySlot)));
        let handle = Handle::from_shared(share_slot(&shared));
        let ffi = Self { shared };
        (ffi, handle)
    }

    /// `mavlink::get_sender_sys_id()`: the sender's system id of the stored
    /// data, or `DataMissing` when the slot is empty.
    ///
    /// The answer is `sender_of` of the slot as read under the read lock.
    /// What the slot holds is written by the `Handle`; no contract ties it to
    /// what the handle stored, so this contract states what holds of every
    /// content.
    pub fn get_sender_sys_id(&self) -> (r: Result<i64, DataMissing>)
        ensures
            r matches Ok(v) ==> 0 <= v <= u8::MAX,
    {
        let read = self.shared.acquire_read();
        let r = sender_sys_id_of(read.borrow());
        read.release_read();
        r
    }

    /// `mavlink::get_target_sys_id()`: the target's system id of the stored
    /// data, or `DataMissing` when the slot is empty.
    pub fn get_target_sys_id(&self) -> (r: Result<i64, DataMissing>)
        ensures
            r matches Ok(v) ==> 0 <= v <= u8::MAX,
    {
        let read = self.shared.acquire_read();
        let r = target_sys_id_of(read.borrow());
        read.release_read();
        r
    }

    /// `mavlink::get_task_id()`: the task id of the stored data, or
    /// `DataMissing` when the slot is empty.
    pub fn get_task_id(&self) -> (r: Result<i64, DataMissing>)
        ensures
            r matches Ok(v) ==> 0 <= v <= u16::MAX,
    {
        let read = self.shared.acquire_read();
        let r = task_id_of(read.borrow());
        read.release_read();
        r
    }
}

} // verus!
