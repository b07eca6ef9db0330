use hubris_core::abi::{TaskName, LEASE_READ, RC_OK};
use hubris_core::dispatch::{decode_syscall, dispatch, read_lease_table, Immediate, Syscall};
use hubris_core::ipc::{sys_recv_closed, sys_recv_open};
use hubris_core::kernel::Kernel;
use hubris_core::task::{BorrowInfo, FaultKind, Lease, SyscallReturn, TaskState, TimerState};

fn le(w: u32) -> Vec<u8> {
    w.to_le_bytes().to_vec()
}

#[test]
fn decode_send_registers() {
    let r = decode_syscall(0, [(0x0401u32 << 16) | 9, 1, 2, 3, 4, 5, 6]);
    assert_eq!(
        r,
        Some(Syscall::Send {
            target: TaskName(0x0401),
            operation: 9,
            out_addr: 1,
            out_len: 2,
            in_addr: 3,
            in_len: 4,
            lease_addr: 5,
            lease_count: 6,
        })
    );
}

#[test]
fn decode_other_registers() {
    assert_eq!(
        decode_syscall(1, [8, 16, 0b11, 0x8000_0002, 0, 0, 0]),
        Some(Syscall::Recv { buf_addr: 8, buf_len: 16, mask: 0b11, sender: Some(TaskName(2)) })
    );
    assert_eq!(
        decode_syscall(1, [8, 16, 0, 0, 0, 0, 0]),
        Some(Syscall::Recv { buf_addr: 8, buf_len: 16, mask: 0, sender: None })
    );
    assert_eq!(
        decode_syscall(3, [1, 5, 1, 0b1, 0, 0, 0]),
        Some(Syscall::SetTimer { deadline: Some(0x1_0000_0005), bits: 1 })
    );
    assert_eq!(
        decode_syscall(3, [0, 5, 1, 0b1, 0, 0, 0]),
        Some(Syscall::SetTimer { deadline: None, bits: 1 })
    );
    assert_eq!(
        decode_syscall(8, [0b100, 1, 0, 0, 0, 0, 0]),
        Some(Syscall::IrqControl { mask: 0b100, enable: true })
    );
    assert_eq!(
        decode_syscall(11, [0x0001_0403, 7, 0, 0, 0, 0, 0]),
        Some(Syscall::Post { task: TaskName(0x0403), bits: 7 })
    );
    assert_eq!(decode_syscall(12, [0; 7]), None);
}

#[test]
fn lease_table_from_memory() {
    let mut mem = vec![0u8; 4];
    mem.extend(le(LEASE_READ));
    mem.extend(le(0x1234));
    mem.extend(le(16));
    let t = read_lease_table(&mem, 4, 1).unwrap();
    assert_eq!(t, vec![Lease { attributes: LEASE_READ, base_address: 0x1234, length: 16 }]);
    assert_eq!(read_lease_table(&mem, 4, 2), None);
    assert_eq!(read_lease_table(&mem, 17, 0), None);
    assert_eq!(read_lease_table(&mem, 16, 0), Some(vec![]));
}

#[test]
fn undefined_syscall_faults() {
    let mut k = Kernel::new(&vec![1, 0], &vec![0, 0], &vec![16, 16], 1);
    assert_eq!(dispatch(&mut k, 0, 12, [0; 7]), Immediate::Faulted);
    assert_eq!(k.task(0).state, TaskState::Faulted(FaultKind::BadSyscall { number: 12 }));
    assert_eq!(k.task(1).pending, 1);
}

#[test]
fn get_timer_through_dispatch() {
    let mut k = Kernel::new(&vec![1, 0], &vec![0, 0], &vec![16, 16], 1);
    hubris_core::timer::tick(&mut k);
    assert_eq!(
        dispatch(&mut k, 0, 4, [0; 7]),
        Immediate::Timer(TimerState { now: 1, deadline: None, on_dl: 0 })
    );
}

#[test]
fn send_through_dispatch_registers_leases() {
    let mut k = Kernel::new(&vec![1, 2, 0], &vec![0; 3], &vec![64, 64, 64], 2);
    let mut table = le(LEASE_READ);
    table.extend(le(0));
    table.extend(le(4));
    k.load(0, 40, &table);
    k.load(0, 0, &vec![5, 6, 7, 8]);
    let server = k.current_name(1);
    assert_eq!(dispatch(&mut k, 1, 1, [0, 8, 0, 0, 0, 0, 0]), Immediate::Deferred);
    let word0 = (u32::from(server.0) << 16) | 3;
    assert_eq!(dispatch(&mut k, 0, 0, [word0, 0, 2, 16, 8, 40, 1]), Immediate::Deferred);
    assert_eq!(k.task(0).state, TaskState::BlockedInReply(server));
    let client = k.current_name(0);
    assert_eq!(
        dispatch(&mut k, 1, 7, [u32::from(client.0), 0, 0, 0, 0, 0, 0]),
        Immediate::Info(Some(BorrowInfo { attributes: LEASE_READ, len: 4 }))
    );
    assert_eq!(
        dispatch(&mut k, 1, 5, [u32::from(client.0), 0, 2, 20, 8, 0, 0]),
        Immediate::RcLen(RC_OK, 2)
    );
    assert_eq!(&k.memory(1)[20..22], &[7, 8]);
    assert_eq!(&k.memory(1)[0..2], &[5, 6]);
}

#[test]
fn lease_table_outside_memory_faults() {
    let mut k = Kernel::new(&vec![1, 2, 0], &vec![0; 3], &vec![64, 64, 64], 2);
    let server = k.current_name(1);
    let word0 = u32::from(server.0) << 16;
    assert_eq!(dispatch(&mut k, 0, 0, [word0, 0, 0, 0, 0, 60, 1]), Immediate::Faulted);
    assert_eq!(k.task(0).state, TaskState::Faulted(FaultKind::BadLease));
}

#[test]
fn open_and_closed_receive() {
    let mut k = Kernel::new(&vec![1, 2, 0], &vec![0; 3], &vec![64, 64, 64], 2);
    let a = k.current_name(0);
    let b = k.current_name(1);
    sys_recv_closed(&mut k, 1, 0, 4, 0, a);
    assert_eq!(k.task(1).state, TaskState::BlockedInRecv(Some(a)));
    hubris_core::ipc::sys_send(&mut k, 0, b, 2, 0, 1, 8, 1, vec![]);
    assert_eq!(k.task(1).state, TaskState::Runnable);
    hubris_core::ipc::sys_reply(&mut k, 1, a, 0, 0, 0);
    k.post_index(0, 0b100);
    sys_recv_open(&mut k, 0, 0, 4, 0b100);
    match k.task(0).ret {
        SyscallReturn::Recv(m) => assert_eq!(m.operation, 0b100),
        other => panic!("unexpected {:?}", other),
    }
}
