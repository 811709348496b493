use vstd::prelude::*;

use crate::error::{DataMissing, DataPresent};

verus! {

/// The MAVLink data of one command: who sent it, who it is for, and the task.
#[derive(Debug, Clone, Copy, PartialEq, Eq, Structural)]
pub struct MavData {
    pub sender_sys_id: u8,
    pub target_sys_id: u8,
    pub task_id: u16,
}

/// What the shared slot holds: the data of the command under evaluation, if any.
pub type Slot = Option<MavData>;

/// The slot and the answer after `set(data)`: data is stored only into an
/// empty slot; a full slot is left as it is and the request refused.
pub open spec fn set_outcome(slot: Slot, data: MavData) -> (Slot, Result<(), DataPresent>) {
    match slot {
        Some(_) => (slot, Err(DataPresent)),
        None => (Some(data), Ok(())),
    }
}

/// The slot and the answer after `clear()`: a full slot is emptied; an
/// empty slot is refused with `DataMissing`.
pub open spec fn clear_outcome(slot: Slot) -> (Slot, Result<(), DataMissing>) {
    match slot {
        Some(_) => (None, Ok(())),
        None => (None, Err(DataMissing)),
    }
}

/// `get_sender_sys_id` on a slot.
pub open spec fn sender_of(slot: Slot) -> Result<i64, DataMissing> {
    match slot {
        Some(data) => Ok(data.sender_sys_id as i64),
        None => Err(DataMissing),
    }
}

/// `get_target_sys_id` on a slot.
pub open spec fn target_of(slot: Slot) -> Result<i64, DataMissing> {
    match slot {
        Some(data) => Ok(data.target_sys_id as i64),
        None => Err(DataMissing),
    }
}

/// `get_task_id` on a slot.
pub open spec fn task_of(slot: Slot) -> Result<i64, DataMissing> {
    match slot {
        Some(data) => Ok(data.task_id as i64),
        None => Err(DataMissing),
    }
}

/// Stores `data` into an empty slot; refuses with `DataPresent` when the slot is full.
pub fn set_slot(slot: &mut Slot, data: MavData) -> (r: Result<(), DataPresent>)
    ensures
        (*final(slot), r) == set_outcome(*old(slot), data),
{
    if slot.is_some() {
        return Err(DataPresent);
    }
    *slot = Some(data);
    Ok(())
}

/// Empties a full slot; refuses with `DataMissing` when the slot is empty.
pub fn clear_slot(slot: &mut Slot) -> (r: Result<(), DataMissing>)
    ensures
        (*final(slot), r) == clear_outcome(*old(slot)),
{
    if slot.is_none() {
        return Err(DataMissing);
    }
    *slot = None;
    Ok(())
}

/// The sender's system id of the stored data, or `DataMissing`.
pub fn sender_sys_id_of(slot: &Slot) -> (r: Result<i64, DataMissing>)
    ensures
        r == sender_of(*slot),
{
    match slot {
        Some(data) => Ok(data.sender_sys_id as i64),
        None => Err(DataMissing),
    }
}

/// The target's system id of the stored data, or `DataMissing`.
pub fn target_sys_id_of(slot: &Slot) -> (r: Result<i64, DataMissing>)
    ensures
        r == target_of(*slot),
{
    match slot {
        Some(data) => Ok(data.target_sys_id as i64),
        None => Err(DataMissing),
    }
}

/// The task id of the stored data, or `DataMissing`.
pub fn task_id_of(slot: &Slot) -> (r: Result<i64, DataMissing>)
    ensures
        r == task_of(*slot),
{
    match slot {
        Some(data) => Ok(data.task_id as i64),
        None => Err(DataMissing),
    }
}

/// Storing into an empty slot succeeds, and every read afterwards gives back
/// the fields of the stored data.
pub proof fn lemma_read_after_set(data: MavData)
    ensures
        set_outcome(None, data).1 == Ok::<(), DataPresent>(()),
        sender_of(set_outcome(None, data).0) == Ok::<i64, DataMissing>(data.sender_sys_id as i64),
        target_of(set_outcome(None, data).0) == Ok::<i64, DataMissing>(data.target_sys_id as i64),
        task_of(set_outcome(None, data).0) == Ok::<i64, DataMissing>(data.task_id as i64),
{
}

/// A slot that holds data refuses every store with `DataPresent` and keeps
/// what it holds.
pub proof fn lemma_set_refused_when_full(slot: Slot, data: MavData)
    requires
        slot is Some,
    ensures
        set_outcome(slot, data) == (slot, Err::<(), DataPresent>(DataPresent)),
{
}

/// After a successful store, a second store is refused and the first data
/// stays readable.
pub proof fn lemma_second_set_refused(slot: Slot, first: MavData, second: MavData)
    requires
        set_outcome(slot, first).1 is Ok,
    ensures
        set_outcome(set_outcome(slot, first).0, second) == (
            set_outcome(slot, first).0,
            Err::<(), DataPresent>(DataPresent),
        ),
        sender_of(set_outcome(set_outcome(slot, first).0, second).0) == Ok::<i64, DataMissing>(
            first.sender_sys_id as i64,
        ),
        target_of(set_outcome(set_outcome(slot, first).0, second).0) == Ok::<i64, DataMissing>(
            first.target_sys_id as i64,
        ),
        task_of(set_outcome(set_outcome(slot, first).0, second).0) == Ok::<i64, DataMissing>(
            first.task_id as i64,
        ),
{
}

/// Every read of an empty slot is refused with `DataMissing`.
pub proof fn lemma_empty_reads_missing()
    ensures
        sender_of(None) == Err::<i64, DataMissing>(DataMissing),
        target_of(None) == Err::<i64, DataMissing>(DataMissing),
        task_of(None) == Err::<i64, DataMissing>(DataMissing),
{
}

/// A read succeeds exactly when the slot holds data, and then all reads
/// succeed together.
pub proof fn lemma_reads_agree(slot: Slot)
    ensures
        sender_of(slot) is Ok <==> slot is Some,
        target_of(slot) is Ok <==> slot is Some,
        task_of(slot) is Ok <==> slot is Some,
{
}

/// `clear` undoes a successful `set`: the slot is empty again and a new
/// store succeeds.
pub proof fn lemma_clear_undoes_set(data: MavData, next: MavData)
    ensures
        clear_outcome(set_outcome(None, data).0) == (None::<MavData>, Ok::<(), DataMissing>(())),
        set_outcome(clear_outcome(set_outcome(None, data).0).0, next) == (
            Some(next),
            Ok::<(), DataPresent>(()),
        ),
{
}

/// `clear` always leaves the slot empty, and succeeds exactly when the slot
/// held data; clearing an empty slot is refused with `DataMissing`.
pub proof fn lemma_clear_empties(slot: Slot)
    ensures
        clear_outcome(slot).0 == None::<MavData>,
        clear_outcome(slot).1 is Ok <==> slot is Some,
        clear_outcome(None) == (None::<MavData>, Err::<(), DataMissing>(DataMissing)),
{
}

/// Successful requests alternate, starting with a store: a store succeeds
/// exactly on an empty slot and fills it, a clear succeeds exactly on a full
/// slot and empties it; a full slot holds the data of the last successful
/// store.
pub proof fn lemma_successes_alternate(slot: Slot, data: MavData)
    ensures
        set_outcome(slot, data).1 is Ok <==> slot is None,
        set_outcome(slot, data).1 is Ok ==> set_outcome(slot, data).0 == Some(data),
        set_outcome(slot, data).0 is Some,
        clear_outcome(slot).1 is Ok <==> slot is Some,
        clear_outcome(slot).0 is None,
{
}

/// A refused request leaves the slot as it was.
pub proof fn lemma_refusal_keeps_slot(slot: Slot, data: MavData)
    ensures
        set_outcome(slot, data).1 is Err ==> set_outcome(slot, data).0 == slot,
        clear_outcome(slot).1 is Err ==> clear_outcome(slot).0 == slot,
{
}

} // verus!
