use mavlink_ffi::slot::{
    clear_slot, sender_sys_id_of, set_slot, target_sys_id_of, task_id_of, Slot,
};
use mavlink_ffi::{DataMissing, DataPresent, MavData};

fn data() -> MavData {
    MavData {
        sender_sys_id: 255,
        target_sys_id: 1,
        task_id: 42,
    }
}

#[test]
fn set_stores_into_empty_slot() {
    let mut slot: Slot = None;
    assert_eq!(set_slot(&mut slot, data()), Ok(()));
    assert_eq!(slot, Some(data()));
}

#[test]
fn set_refused_when_full() {
    let first = MavData {
        sender_sys_id: 3,
        target_sys_id: 4,
        task_id: 5,
    };
    let mut slot: Slot = Some(first);
    assert_eq!(set_slot(&mut slot, data()), Err(DataPresent));
    assert_eq!(slot, Some(first));
}

#[test]
fn read_after_set_gives_fields() {
    let mut slot: Slot = None;
    assert_eq!(set_slot(&mut slot, data()), Ok(()));
    assert_eq!(sender_sys_id_of(&slot), Ok(255));
    assert_eq!(target_sys_id_of(&slot), Ok(1));
    assert_eq!(task_id_of(&slot), Ok(42));
}

#[test]
fn reads_of_empty_slot_are_missing() {
    let slot: Slot = None;
    assert_eq!(sender_sys_id_of(&slot), Err(DataMissing));
    assert_eq!(target_sys_id_of(&slot), Err(DataMissing));
    assert_eq!(task_id_of(&slot), Err(DataMissing));
}

#[test]
fn clear_empties_full_slot() {
    let mut slot: Slot = Some(data());
    assert_eq!(clear_slot(&mut slot), Ok(()));
    assert_eq!(slot, None);
}

#[test]
fn clear_slot_refuses_empty_slot() {
    let mut slot: Slot = None;
    assert_eq!(clear_slot(&mut slot), Err(DataMissing));
    assert_eq!(slot, None);
}

#[test]
fn clear_undoes_set() {
    let mut slot: Slot = None;
    assert_eq!(set_slot(&mut slot, data()), Ok(()));
    assert_eq!(clear_slot(&mut slot), Ok(()));
    assert_eq!(slot, None);
    assert_eq!(set_slot(&mut slot, data()), Ok(()));
    assert_eq!(slot, Some(data()));
}
