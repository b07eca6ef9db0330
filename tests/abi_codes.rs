use hubris_core::abi::{
    closed_recv_result, join_u64, lease_attributes_from_bits_truncate, pack_rc_len,
    pack_recv_sender, pack_target_operation, send_result, split_rc_len, split_u64,
    unpack_recv_sender, unpack_target_operation, ClosedRecvError, SendError, TaskName,
    KERNEL_NAME, MAX_TASKS,
};
use hubris_core::kernel::Kernel;

#[test]
fn task_name_fields() {
    let t = TaskName::for_index_and_gen(5, 3);
    assert_eq!(t.0, 3 * 1024 + 5);
    assert_eq!(t.index(), 5);
    assert_eq!(t.generation(), 3);
    assert_eq!(TaskName::kernel().0, KERNEL_NAME);
    assert_eq!(TaskName(KERNEL_NAME).index(), 1023);
    assert_eq!(TaskName(KERNEL_NAME).generation(), 63);
}

#[test]
fn target_operation_packing() {
    let w = pack_target_operation(TaskName(0x0405), 0x0007);
    assert_eq!(w, 0x0405_0007);
    assert_eq!(unpack_target_operation(w), (TaskName(0x0405), 7));
}

#[test]
fn rc_len_packing() {
    let v = pack_rc_len(2, 17);
    assert_eq!(v, (17u64 << 32) | 2);
    assert_eq!(split_rc_len(v), (2, 17));
    assert_eq!(join_u64(0xDEAD_BEEF, 1), 0x1_DEAD_BEEF);
    assert_eq!(split_u64(0x1_DEAD_BEEF), (0xDEAD_BEEF, 1));
}

#[test]
fn recv_sender_packing() {
    assert_eq!(pack_recv_sender(None), 0);
    assert_eq!(pack_recv_sender(Some(TaskName(3))), 0x8000_0003);
    assert_eq!(unpack_recv_sender(0), None);
    assert_eq!(unpack_recv_sender(0x8000_0003), Some(TaskName(3)));
}

#[test]
fn lease_attribute_truncation() {
    assert_eq!(lease_attributes_from_bits_truncate(0xFF), 3);
    assert_eq!(lease_attributes_from_bits_truncate(2), 2);
}

#[test]
fn send_and_recv_codes() {
    assert_eq!(send_result(0, 5), Ok(5));
    assert_eq!(send_result(1, 0), Err(SendError::DeathComesForUsAll));
    assert_eq!(send_result(2, 1), Err(SendError::OverlyEnthusiasticResponse));
    assert_eq!(closed_recv_result(0), Ok(()));
    assert_eq!(closed_recv_result(1), Err(ClosedRecvError::Dead));
}

#[test]
fn no_task_is_named_like_the_kernel() {
    assert_eq!(MAX_TASKS, 1023);
    let n = MAX_TASKS;
    let mut k = Kernel::new(&vec![1; n], &vec![0; n], &vec![0; n], 0);
    let last = n - 1;
    for _ in 0..63 {
        k.restart_task(last, true);
    }
    assert_eq!(k.task(last).generation, 63);
    assert_ne!(k.current_name(last).0, KERNEL_NAME);
    assert!(!k.is_current_name(TaskName(KERNEL_NAME)));
}
