use mavlink_ffi::{DataMissing, DataPresent, Ffi, MavData};

fn drone_task() -> MavData {
    MavData {
        sender_sys_id: 255,
        target_sys_id: 1,
        task_id: 42,
    }
}

#[test]
fn new_module_reads_nothing() {
    let (ffi, _handle) = Ffi::new();
    assert_eq!(ffi.get_sender_sys_id(), Err(DataMissing));
    assert_eq!(ffi.get_target_sys_id(), Err(DataMissing));
    assert_eq!(ffi.get_task_id(), Err(DataMissing));
}

#[test]
fn module_reads_what_handle_set() {
    let (ffi, mut handle) = Ffi::new();
    assert_eq!(handle.set(drone_task()), Ok(()));
    assert_eq!(ffi.get_sender_sys_id(), Ok(255));
    assert_eq!(ffi.get_target_sys_id(), Ok(1));
    assert_eq!(ffi.get_task_id(), Ok(42));
}

#[test]
fn widest_values_are_read_back() {
    let (ffi, mut handle) = Ffi::new();
    let data = MavData {
        sender_sys_id: u8::MAX,
        target_sys_id: 0,
        task_id: u16::MAX,
    };
    assert_eq!(handle.set(data), Ok(()));
    assert_eq!(ffi.get_sender_sys_id(), Ok(255));
    assert_eq!(ffi.get_target_sys_id(), Ok(0));
    assert_eq!(ffi.get_task_id(), Ok(65535));
}

#[test]
fn second_set_is_refused_and_first_data_stays() {
    let (ffi, mut handle) = Ffi::new();
    assert_eq!(handle.set(drone_task()), Ok(()));
    let other = MavData {
        sender_sys_id: 7,
        target_sys_id: 8,
        task_id: 9,
    };
    assert_eq!(handle.set(other), Err(DataPresent));
    assert_eq!(ffi.get_sender_sys_id(), Ok(255));
    assert_eq!(ffi.get_target_sys_id(), Ok(1));
    assert_eq!(ffi.get_task_id(), Ok(42));
}

#[test]
fn clear_of_full_slot_empties_it() {
    let (ffi, mut handle) = Ffi::new();
    assert_eq!(handle.set(drone_task()), Ok(()));
    assert_eq!(handle.clear(), Ok(()));
    assert_eq!(ffi.get_sender_sys_id(), Err(DataMissing));
    assert_eq!(ffi.get_target_sys_id(), Err(DataMissing));
    assert_eq!(ffi.get_task_id(), Err(DataMissing));
}

#[test]
fn clear_of_empty_slot_is_refused() {
    let (ffi, mut handle) = Ffi::new();
    assert_eq!(handle.clear(), Err(DataMissing));
    assert_eq!(ffi.get_sender_sys_id(), Err(DataMissing));
}

#[test]
fn set_clear_set_all_succeed() {
    let (ffi, mut handle) = Ffi::new();
    assert_eq!(handle.set(drone_task()), Ok(()));
    assert_eq!(handle.clear(), Ok(()));
    assert_eq!(handle.clear(), Err(DataMissing));
    let next = MavData {
        sender_sys_id: 2,
        target_sys_id: 3,
        task_id: 400,
    };
    assert_eq!(handle.set(next), Ok(()));
    assert_eq!(ffi.get_sender_sys_id(), Ok(2));
    assert_eq!(ffi.get_target_sys_id(), Ok(3));
    assert_eq!(ffi.get_task_id(), Ok(400));
}

#[test]
fn separate_pairs_do_not_share_a_slot() {
    let (ffi_a, mut handle_a) = Ffi::new();
    let (ffi_b, _handle_b) = Ffi::new();
    assert_eq!(handle_a.set(drone_task()), Ok(()));
    assert_eq!(ffi_a.get_task_id(), Ok(42));
    assert_eq!(ffi_b.get_task_id(), Err(DataMissing));
}
