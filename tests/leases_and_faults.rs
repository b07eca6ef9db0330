use hubris_core::abi::{
    LEASE_READ, LEASE_WRITE, RC_DEFUNCT_LENDER, RC_DENIED, RC_OK, RC_OUT_OF_RANGE,
};
use hubris_core::control::{sys_irq_control, sys_panic};
use hubris_core::ipc::{sys_recv, sys_reply, sys_send};
use hubris_core::kernel::{Kernel, MAX_MESSAGE};
use hubris_core::lease::{sys_borrow_info, sys_borrow_read, sys_borrow_write};
use hubris_core::task::{BorrowInfo, FaultKind, Lease, TaskState};

const CLIENT: usize = 0;
const SERVER: usize = 1;
const SUP: usize = 2;

/// The client sends to the server with a read lease on `[0, 4)` and a write
/// lease on `[16, 20)`; the server has received it.
fn lent() -> Kernel {
    let mut k = Kernel::new(&vec![1, 2, 0], &vec![0, 0b11, 0], &vec![32, 32, 32], SUP);
    k.load(CLIENT, 0, &vec![1, 2, 3, 4]);
    let s = k.current_name(SERVER);
    sys_recv(&mut k, SERVER, 0, 4, 0, None);
    sys_send(
        &mut k,
        CLIENT,
        s,
        0,
        0,
        0,
        24,
        4,
        vec![Lease::read_only(0, 4), Lease::write_only(16, 4)],
    );
    k
}

#[test]
fn lease_constructors() {
    assert_eq!(Lease::read_only(4, 8), Lease { attributes: LEASE_READ, base_address: 4, length: 8 });
    assert_eq!(Lease::write_only(4, 8).attributes, LEASE_WRITE);
    assert_eq!(Lease::read_write(4, 8).attributes, LEASE_READ | LEASE_WRITE);
}

#[test]
fn borrow_read_copies_from_lease() {
    let mut k = lent();
    let c = k.current_name(CLIENT);
    assert_eq!(sys_borrow_read(&mut k, SERVER, c, 0, 1, 8, 8), Some((RC_OK, 3)));
    assert_eq!(&k.memory(SERVER)[8..12], &[2, 3, 4, 0]);
}

#[test]
fn borrow_write_copies_into_lease() {
    let mut k = lent();
    let c = k.current_name(CLIENT);
    k.load(SERVER, 8, &vec![7, 8]);
    assert_eq!(sys_borrow_write(&mut k, SERVER, c, 1, 3, 8, 2), Some((RC_OK, 1)));
    assert_eq!(&k.memory(CLIENT)[16..21], &[0, 0, 0, 7, 0]);
}

#[test]
fn borrow_errors() {
    let mut k = lent();
    let c = k.current_name(CLIENT);
    let sup = k.current_name(SUP);
    assert_eq!(sys_borrow_read(&mut k, SERVER, sup, 0, 0, 8, 1), Some((RC_DEFUNCT_LENDER, 0)));
    assert_eq!(sys_borrow_read(&mut k, SERVER, c, 2, 0, 8, 1), Some((RC_OUT_OF_RANGE, 0)));
    assert_eq!(sys_borrow_read(&mut k, SERVER, c, 1, 0, 8, 1), Some((RC_DENIED, 0)));
    assert_eq!(sys_borrow_write(&mut k, SERVER, c, 0, 0, 8, 1), Some((RC_DENIED, 0)));
    assert_eq!(sys_borrow_read(&mut k, SERVER, c, 0, 5, 8, 1), Some((RC_OUT_OF_RANGE, 0)));
    assert_eq!(sys_borrow_read(&mut k, SERVER, c, 0, 4, 8, 1), Some((RC_OK, 0)));
}

#[test]
fn borrow_info_reports_lease() {
    let mut k = lent();
    let c = k.current_name(CLIENT);
    assert_eq!(
        sys_borrow_info(&k, SERVER, c, 1),
        Some(BorrowInfo { attributes: LEASE_WRITE, len: 4 })
    );
    assert_eq!(sys_borrow_info(&k, SERVER, c, 2), None);
    sys_reply(&mut k, SERVER, c, 0, 0, 0);
    assert_eq!(sys_borrow_info(&k, SERVER, c, 0), None);
    assert_eq!(sys_borrow_read(&mut k, SERVER, c, 0, 0, 8, 1), Some((RC_DEFUNCT_LENDER, 0)));
}

#[test]
fn borrow_into_foreign_memory_faults() {
    let mut k = lent();
    let c = k.current_name(CLIENT);
    assert_eq!(sys_borrow_read(&mut k, SERVER, c, 0, 0, 30, 4), None);
    assert_eq!(
        k.task(SERVER).state,
        TaskState::Faulted(FaultKind::BadArgument { address: 30, len: 4 })
    );
    assert_eq!(k.task(SUP).pending, 1);
}

#[test]
fn send_argument_faults() {
    let mut k = Kernel::new(&vec![1, 2, 0], &vec![0; 3], &vec![32, 32, 32], SUP);
    let s = k.current_name(SERVER);
    sys_send(&mut k, CLIENT, s, 0, 30, 4, 0, 0, vec![]);
    assert_eq!(
        k.task(CLIENT).state,
        TaskState::Faulted(FaultKind::BadArgument { address: 30, len: 4 })
    );
    k.restart_task(CLIENT, true);
    sys_send(&mut k, CLIENT, s, 0, 0, 0, 0, 0, vec![Lease::read_only(20, 20)]);
    assert_eq!(k.task(CLIENT).state, TaskState::Faulted(FaultKind::BadLease));
    k.restart_task(CLIENT, true);
    sys_send(&mut k, CLIENT, s, 0, 0, MAX_MESSAGE + 1, 0, 0, vec![]);
    assert_eq!(k.task(CLIENT).state, TaskState::Faulted(FaultKind::MessageTooLarge));
    k.restart_task(CLIENT, true);
    sys_send(&mut k, CLIENT, hubris_core::abi::TaskName(7), 0, 0, 0, 0, 0, vec![]);
    assert_eq!(k.task(CLIENT).state, TaskState::Faulted(FaultKind::TaskOutOfRange));
    assert_eq!(k.task(SUP).pending, 1);
}

#[test]
fn panic_keeps_message() {
    let mut k = Kernel::new(&vec![1, 2, 0], &vec![0; 3], &vec![32, 32, 32], SUP);
    k.load(CLIENT, 4, &b"PANIC".to_vec());
    sys_panic(&mut k, CLIENT, 4, 5);
    assert_eq!(k.task(CLIENT).state, TaskState::Faulted(FaultKind::Panic));
    assert_eq!(k.fault_msgs[CLIENT], b"PANIC".to_vec());
    assert_eq!(k.task(SUP).pending, 1);
    assert_eq!(k.select_next(), Some(SUP));
}

#[test]
fn supervisor_fault_notifies_nobody() {
    let mut k = Kernel::new(&vec![1, 2, 0], &vec![0; 3], &vec![32, 32, 32], SUP);
    k.fault(SUP, FaultKind::MemoryAccess { address: 0x100 });
    assert_eq!(k.task(SUP).pending, 0);
    k.restart_task(CLIENT, false);
    assert_eq!(k.task(CLIENT).state, TaskState::Stopped);
}

#[test]
fn irq_control_checks_ownership() {
    let mut k = Kernel::new(&vec![1, 2, 0], &vec![0, 0b11, 0], &vec![32, 32, 32], SUP);
    sys_irq_control(&mut k, SERVER, 0b01, true);
    sys_irq_control(&mut k, SERVER, 0b10, true);
    assert_eq!(k.irq_enabled, 0b11);
    sys_irq_control(&mut k, SERVER, 0b01, false);
    assert_eq!(k.irq_enabled, 0b10);
    sys_irq_control(&mut k, CLIENT, 0b01, true);
    assert_eq!(k.task(CLIENT).state, TaskState::Faulted(FaultKind::IrqNotOwned { mask: 1 }));
    assert_eq!(k.irq_enabled, 0b10);
}
