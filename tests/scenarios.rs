use hubris_core::abi::{TaskName, KERNEL_NAME, RC_OK, RC_PEER_DIED, RC_TRUNCATED};
use hubris_core::ipc::{sys_recv, sys_reply, sys_send};
use hubris_core::kernel::Kernel;
use hubris_core::task::{FaultKind, RecvMessage, SyscallReturn, TaskState};
use hubris_core::timer::{sys_get_timer, sys_post, sys_refresh_task_id, sys_set_timer, tick};

const A: usize = 0;
const B: usize = 1;
const C: usize = 2;
const SUP: usize = 3;

/// A at priority 1, B at 2, C at 3, the supervisor at 0; 64 bytes each.
fn system() -> Kernel {
    Kernel::new(&vec![1, 2, 3, 0], &vec![0, 0, 0, 0], &vec![64, 64, 64, 64], SUP)
}

#[test]
fn simple_ping() {
    let mut k = system();
    let a = k.current_name(A);
    let b = k.current_name(B);
    sys_recv(&mut k, B, 0, 16, 0, None);
    assert_eq!(k.task(B).state, TaskState::BlockedInRecv(None));
    k.load(A, 0, &vec![0xAA]);
    sys_send(&mut k, A, b, 7, 0, 1, 32, 8, vec![]);
    assert_eq!(k.task(A).state, TaskState::BlockedInReply(b));
    assert_eq!(k.task(B).state, TaskState::Runnable);
    assert_eq!(
        k.task(B).ret,
        SyscallReturn::Recv(RecvMessage {
            sender: a,
            operation: 7,
            message_len: 1,
            response_capacity: 8,
            lease_count: 0,
        })
    );
    assert_eq!(k.memory(B)[0], 0xAA);
    k.load(B, 40, &vec![0xBB, 0xCC]);
    sys_reply(&mut k, B, a, 0, 40, 2);
    assert_eq!(k.task(A).state, TaskState::Runnable);
    assert_eq!(k.task(A).ret, SyscallReturn::Send { rc: RC_OK, len: 2 });
    assert_eq!(&k.memory(A)[32..34], &[0xBB, 0xCC]);
}

#[test]
fn reply_truncation() {
    let mut k = system();
    let a = k.current_name(A);
    let b = k.current_name(B);
    sys_recv(&mut k, B, 0, 16, 0, None);
    sys_send(&mut k, A, b, 1, 0, 0, 32, 1, vec![]);
    k.load(B, 40, &vec![0xBB, 0xCC]);
    sys_reply(&mut k, B, a, 0, 40, 2);
    assert_eq!(k.task(A).ret, SyscallReturn::Send { rc: RC_TRUNCATED, len: 1 });
    assert_eq!(k.memory(A)[32], 0xBB);
    assert_eq!(k.memory(A)[33], 0);
}

#[test]
fn closed_recv_rejects_stranger() {
    let mut k = system();
    let a = k.current_name(A);
    let b = k.current_name(B);
    sys_recv(&mut k, B, 0, 16, 0, Some(a));
    k.load(C, 0, &vec![0xCC]);
    sys_send(&mut k, C, b, 3, 0, 1, 8, 4, vec![]);
    assert_eq!(k.task(C).state, TaskState::BlockedInSend(b));
    assert_eq!(k.task(B).state, TaskState::BlockedInRecv(Some(a)));
    k.load(A, 0, &vec![0xAA]);
    sys_send(&mut k, A, b, 5, 0, 1, 8, 4, vec![]);
    assert_eq!(k.task(B).state, TaskState::Runnable);
    match k.task(B).ret {
        SyscallReturn::Recv(m) => {
            assert_eq!(m.sender, a);
            assert_eq!(m.operation, 5);
        }
        other => panic!("unexpected {:?}", other),
    }
    assert_eq!(k.memory(B)[0], 0xAA);
    assert_eq!(k.task(C).state, TaskState::BlockedInSend(b));
}

#[test]
fn notification_wins_over_sender() {
    let mut k = system();
    let b = k.current_name(B);
    sys_send(&mut k, A, b, 1, 0, 1, 8, 4, vec![]);
    assert_eq!(k.task(A).state, TaskState::BlockedInSend(b));
    k.post_index(B, 0b10);
    sys_recv(&mut k, B, 0, 16, 0b10, None);
    assert_eq!(
        k.task(B).ret,
        SyscallReturn::Recv(RecvMessage {
            sender: TaskName(KERNEL_NAME),
            operation: 0b10,
            message_len: 0,
            response_capacity: 0,
            lease_count: 0,
        })
    );
    assert_eq!(k.task(B).pending, 0);
    assert_eq!(k.task(A).state, TaskState::BlockedInSend(b));
}

#[test]
fn notification_while_in_recv_wakes_with_masked_bits_only() {
    let mut k = system();
    sys_recv(&mut k, B, 0, 16, 0b0110, None);
    k.post_index(B, 0b1000);
    assert_eq!(k.task(B).state, TaskState::BlockedInRecv(None));
    k.post_index(B, 0b0011);
    assert_eq!(k.task(B).state, TaskState::Runnable);
    match k.task(B).ret {
        SyscallReturn::Recv(m) => {
            assert_eq!(m.sender.0, KERNEL_NAME);
            assert_eq!(m.operation, 0b0010);
        }
        other => panic!("unexpected {:?}", other),
    }
    assert_eq!(k.task(B).pending, 0b1001);
}

#[test]
fn peer_restart() {
    let mut k = system();
    let b_old = k.current_name(B);
    sys_recv(&mut k, B, 0, 16, 0, None);
    sys_send(&mut k, A, b_old, 1, 0, 1, 8, 4, vec![]);
    assert_eq!(k.task(A).state, TaskState::BlockedInReply(b_old));
    k.fault(B, FaultKind::Arithmetic);
    assert_eq!(k.task(B).state, TaskState::Faulted(FaultKind::Arithmetic));
    assert_eq!(k.task(SUP).pending, 1);
    k.restart_task(B, true);
    assert_eq!(k.task(A).state, TaskState::Runnable);
    assert_eq!(k.task(A).ret, SyscallReturn::Send { rc: RC_PEER_DIED, len: 0 });
    assert!(!k.is_current_name(b_old));
    let fresh = sys_refresh_task_id(&mut k, A, b_old).unwrap();
    assert_eq!(fresh.index(), B);
    assert_eq!(fresh.generation(), 1);
    assert!(k.is_current_name(fresh));
}

#[test]
fn restart_wakes_closed_receiver_and_queued_sender() {
    let mut k = system();
    let a = k.current_name(A);
    let b = k.current_name(B);
    sys_recv(&mut k, C, 0, 4, 0, Some(a));
    sys_send(&mut k, B, a, 1, 0, 1, 8, 4, vec![]);
    assert_eq!(k.task(B).state, TaskState::BlockedInSend(a));
    k.restart_task(A, true);
    assert_eq!(k.task(C).ret, SyscallReturn::RecvDead);
    assert_eq!(k.task(C).state, TaskState::Runnable);
    assert_eq!(k.task(B).ret, SyscallReturn::Send { rc: RC_PEER_DIED, len: 0 });
    assert!(k.is_current_name(b));
}

#[test]
fn stale_target_send_returns_peer_died() {
    let mut k = system();
    let b = k.current_name(B);
    k.restart_task(B, true);
    sys_send(&mut k, A, b, 1, 0, 1, 8, 4, vec![]);
    assert_eq!(k.task(A).state, TaskState::Runnable);
    assert_eq!(k.task(A).ret, SyscallReturn::Send { rc: RC_PEER_DIED, len: 0 });
}

#[test]
fn closed_recv_on_stale_sender_is_dead() {
    let mut k = system();
    let a = k.current_name(A);
    k.restart_task(A, true);
    sys_recv(&mut k, B, 0, 4, 0, Some(a));
    assert_eq!(k.task(B).state, TaskState::Runnable);
    assert_eq!(k.task(B).ret, SyscallReturn::RecvDead);
}

#[test]
fn timer_fires_while_blocked() {
    let mut k = system();
    let now = sys_get_timer(&k, A).now;
    sys_set_timer(&mut k, A, Some(now + 10), 0b1);
    sys_recv(&mut k, A, 0, 4, 0b1, None);
    for _ in 0..9 {
        tick(&mut k);
    }
    assert_eq!(k.task(A).state, TaskState::BlockedInRecv(None));
    tick(&mut k);
    assert_eq!(k.task(A).state, TaskState::Runnable);
    match k.task(A).ret {
        SyscallReturn::Recv(m) => {
            assert_eq!(m.sender.0, KERNEL_NAME);
            assert_eq!(m.operation, 0b1);
        }
        other => panic!("unexpected {:?}", other),
    }
    let st = sys_get_timer(&k, A);
    assert_eq!(st.deadline, None);
    assert_eq!(st.now, now + 10);
}

#[test]
fn timer_deadline_in_past_posts_at_once() {
    let mut k = system();
    tick(&mut k);
    tick(&mut k);
    sys_set_timer(&mut k, A, Some(1), 0b100);
    assert_eq!(k.task(A).pending, 0b100);
    let st = sys_get_timer(&k, A);
    assert_eq!(st.deadline, None);
    assert_eq!(st.on_dl, 0b100);
    sys_set_timer(&mut k, A, Some(50), 0b1);
    assert_eq!(sys_get_timer(&k, A).deadline, Some(50));
}

#[test]
fn time_never_decreases() {
    let mut k = system();
    let mut last = sys_get_timer(&k, B).now;
    for _ in 0..5 {
        tick(&mut k);
        let b = k.current_name(B);
        sys_send(&mut k, A, b, 1, 0, 0, 0, 0, vec![]);
        let now = sys_get_timer(&k, C).now;
        assert!(now >= last);
        assert_eq!(now, last + 1);
        last = now;
        k.restart_task(B, true);
    }
}

#[test]
fn send_truncation_seen_only_by_receiver() {
    let mut k = system();
    let b = k.current_name(B);
    sys_recv(&mut k, B, 0, 2, 0, None);
    k.load(A, 0, &vec![1, 2, 3, 4]);
    sys_send(&mut k, A, b, 9, 0, 4, 8, 4, vec![]);
    assert_eq!(k.task(A).ret, SyscallReturn::Nothing);
    assert_eq!(k.task(A).state, TaskState::BlockedInReply(b));
    match k.task(B).ret {
        SyscallReturn::Recv(m) => {
            assert_eq!(m.message_len, 4);
            assert!(m.message_len > 2);
        }
        other => panic!("unexpected {:?}", other),
    }
    assert_eq!(&k.memory(B)[0..3], &[1, 2, 0]);
}

#[test]
fn round_trip_preserves_bytes_and_code() {
    let mut k = system();
    let a = k.current_name(A);
    let b = k.current_name(B);
    sys_recv(&mut k, B, 0, 8, 0, None);
    k.load(A, 0, &vec![10, 20, 30]);
    sys_send(&mut k, A, b, 42, 0, 3, 16, 8, vec![]);
    assert_eq!(&k.memory(B)[0..3], &[10, 20, 30]);
    let reply = k.memory(B)[0..3].to_vec();
    k.load(B, 32, &reply);
    sys_reply(&mut k, B, a, 77, 32, 3);
    assert_eq!(k.task(A).ret, SyscallReturn::Send { rc: 77, len: 3 });
    assert_eq!(&k.memory(A)[16..19], &[10, 20, 30]);
}

#[test]
fn senders_queue_by_priority_then_arrival() {
    let mut k = Kernel::new(&vec![0, 5, 5, 2], &vec![0; 4], &vec![16; 4], 0);
    let r = k.current_name(0);
    k.load(1, 0, &vec![1]);
    k.load(2, 0, &vec![2]);
    k.load(3, 0, &vec![3]);
    sys_send(&mut k, 2, r, 0, 0, 1, 4, 4, vec![]);
    sys_send(&mut k, 1, r, 0, 0, 1, 4, 4, vec![]);
    sys_send(&mut k, 3, r, 0, 0, 1, 4, 4, vec![]);
    let expected = [3usize, 2, 1];
    for &who in expected.iter() {
        sys_recv(&mut k, 0, 8, 1, 0, None);
        assert_eq!(k.memory(0)[8], who as u8);
        let from = k.current_name(who);
        sys_reply(&mut k, 0, from, 0, 0, 0);
        assert_eq!(k.task(who).state, TaskState::Runnable);
    }
}

#[test]
fn reply_to_non_waiting_peer_is_ignored() {
    let mut k = system();
    let a = k.current_name(A);
    k.load(B, 0, &vec![9]);
    sys_reply(&mut k, B, a, 0, 0, 1);
    assert_eq!(k.task(A).ret, SyscallReturn::Nothing);
    assert_eq!(k.memory(A)[0], 0);
    assert_eq!(k.task(B).state, TaskState::Runnable);
}

#[test]
fn post_to_stale_target_is_ignored() {
    let mut k = system();
    let b = k.current_name(B);
    assert_eq!(sys_post(&mut k, A, b, 0b1), Some(0));
    assert_eq!(sys_post(&mut k, A, b, 0b10), Some(0b1));
    k.restart_task(B, true);
    assert_eq!(sys_post(&mut k, A, b, 0b100), Some(0));
    assert_eq!(k.task(B).pending, 0);
}

#[test]
fn scheduler_picks_lowest_priority_then_lowest_index() {
    let mut k = Kernel::new(&vec![3, 1, 1, 2], &vec![0; 4], &vec![8; 4], 0);
    assert_eq!(k.select_next(), Some(1));
    let n0 = k.current_name(0);
    sys_recv(&mut k, 1, 0, 1, 0, Some(n0));
    assert_eq!(k.select_next(), Some(2));
    sys_recv(&mut k, 2, 0, 1, 0, None);
    sys_recv(&mut k, 3, 0, 1, 0, None);
    assert_eq!(k.select_next(), Some(0));
    sys_recv(&mut k, 0, 0, 1, 0, None);
    assert_eq!(k.select_next(), None);
}
