//! Properties of the kernel that hold of every state or every operation.
use vstd::prelude::*;
use crate::abi::{name_generation, name_index, TaskName, KERNEL_NAME, RC_PEER_DIED};
use crate::ipc::{accepts_from, recv_effect, recv_fault, with_recv, reply_effect, send_effect, send_fault, told_of_death, waits_on};
use crate::kernel::{leases_ok, notified, peer_of, Kernel, MAX_MESSAGE, range_ok};
use crate::dispatch::{dispatched, Immediate};
use crate::task::{Lease, RecvMessage, SyscallReturn, Task, TaskState};

verus! {

/// Counts how many of the task states `s` is in.
pub open spec fn states_held(s: TaskState) -> int {
    (if s is Runnable { 1int } else { 0 }) + (if s is BlockedInSend { 1int } else { 0 }) + (
    if s is BlockedInReply { 1int } else { 0 }) + (if s is BlockedInRecv { 1int } else { 0 }) + (
    if s is Faulted { 1int } else { 0 }) + (if s is Stopped { 1int } else { 0 })
}

/// Every task is in exactly one state at every time.
pub proof fn lemma_exactly_one_state(k: Kernel, i: int)
    requires
        k.wf(),
        0 <= i < k.tasks.len(),
    ensures
        states_held(k.tasks@[i].state) == 1,
{
}

/// No task of the table, in any generation, bears the kernel's reserved
/// name, and the kernel's name is never current.
pub proof fn lemma_no_task_named_kernel(k: Kernel, i: int)
    requires
        k.wf(),
        0 <= i < k.tasks.len(),
    ensures
        k.name_of(i).0 != KERNEL_NAME,
        !k.is_current(TaskName(KERNEL_NAME)),
{
    assert(name_index(KERNEL_NAME) == 1023);
}

/// While a task awaits a reply, its lease table lies within its own memory
/// (so the server can reach every lease through it), it is not runnable, and
/// the task it waits on is one of the table.
pub proof fn lemma_awaiting_reply_leases_reachable(k: Kernel, a: int)
    requires
        k.wf(),
        0 <= a < k.tasks.len(),
        k.tasks@[a].state is BlockedInReply,
    ensures
        leases_ok(k.leases@[a]@, k.mems@[a].len() as int),
        range_ok(k.mems@[a].len() as int, k.tasks@[a].in_addr as int, k.tasks@[a].in_len as int),
        !(k.tasks@[a].state is Runnable),
        name_index((peer_of(k.tasks@[a].state)->0).0) < k.tasks.len(),
{
    assert(crate::kernel::task_wf(
        k.tasks@[a],
        k.tasks.len() as int,
        k.mems@[a].len() as int,
        k.leases@[a]@,
    ));
}

/// A RECV ended by a notification reports the kernel as sender, an
/// operation made only of bits of the RECV's mask, and clears exactly those
/// bits from the pending set.
pub proof fn lemma_notification_within_mask(t: Task)
    requires
        t.pending & t.recv_mask != 0,
    ensures
        (notified(t).ret is Recv),
        (notified(t).ret->Recv_0).sender.0 == KERNEL_NAME,
        (notified(t).ret->Recv_0).message_len == 0,
        (notified(t).ret->Recv_0).operation & !t.recv_mask == 0,
        (notified(t).ret->Recv_0).operation != 0,
        notified(t).pending & (notified(t).ret->Recv_0).operation == 0,
        notified(t).pending | (notified(t).ret->Recv_0).operation == t.pending,
{
    let p = t.pending;
    let m = t.recv_mask;
    assert((p & m) & !m == 0 && (p & !m) & (p & m) == 0 && ((p & !m) | (p & m)) == p)
        by (bit_vector);
}

/// A task woken by the restart of the task it waited on is runnable and
/// sees the peer's death as its result.
pub proof fn lemma_restart_reports_death(t: Task, i: int)
    requires
        waits_on(t, i),
    ensures
        (told_of_death(t).state is Runnable),
        told_of_death(t).ret == (SyscallReturn::Send { rc: RC_PEER_DIED, len: 0 })
            || told_of_death(t).ret == SyscallReturn::RecvDead,
        t.state is BlockedInRecv ==> told_of_death(t).ret == SyscallReturn::RecvDead,
{
}

/// What a receiver learns of a pending message does not depend on its
/// buffer: the reported length is the sender's full length, which exceeds
/// the buffer exactly when the copy was cut short.
pub proof fn lemma_send_length_reported_in_full(k: Kernel, s: int)
    requires
        k.wf(),
        0 <= s < k.tasks.len(),
        k.tasks@[s].state is BlockedInSend,
    ensures
        k.message_from(s).message_len == k.tasks@[s].out_len,
        k.message_from(s).message_len <= MAX_MESSAGE,
{
    assert(crate::kernel::task_wf(
        k.tasks@[s],
        k.tasks.len() as int,
        k.mems@[s].len() as int,
        k.leases@[s]@,
    ));
}


/// The current name of task `i` carries index `i` and its generation, and
/// is current.
pub proof fn lemma_name_of_fields(k: Kernel, i: int)
    requires
        k.wf(),
        0 <= i < k.tasks.len(),
    ensures
        name_index(k.name_of(i).0) == i,
        name_generation(k.name_of(i).0) == k.tasks@[i].generation,
        k.is_current(k.name_of(i)),
{
    let g = k.tasks@[i].generation as int;
    assert(0 <= g * 1024 + i < 65536) by (nonlinear_arith)
        requires
            0 <= g < 64,
            0 <= i < 1023,
    ;
    assert((g * 1024 + i) % 1024 == i && (g * 1024 + i) / 1024 == g) by (nonlinear_arith)
        requires
            0 <= g,
            0 <= i < 1024,
    ;
}

/// A SEND from `a` to `b` waiting in an open RECV, with a message that fits
/// `b`'s buffer, followed by `b`'s REPLY that echoes the received bytes with
/// `code` into a large enough reply buffer, gives `a` back exactly its
/// message and the result `(code, len)`; `b` saw the message unmodified.
pub proof fn lemma_send_reply_round_trip(
    k0: Kernel,
    k1: Kernel,
    k2: Kernel,
    a: usize,
    b: usize,
    operation: u16,
    out_addr: usize,
    out_len: usize,
    in_addr: usize,
    in_len: usize,
    leases: Seq<Lease>,
    code: u32,
)
    requires
        k0.wf(),
        a < k0.tasks.len(),
        b < k0.tasks.len(),
        k0.tasks@[a as int].state is Runnable,
        k0.tasks@[b as int].state == TaskState::BlockedInRecv(None),
        send_fault(
            k0.mems@[a as int].len() as int,
            k0.tasks.len() as int,
            k0.name_of(b as int),
            out_addr,
            out_len,
            in_addr,
            in_len,
            leases,
        ) is None,
        out_len <= k0.tasks@[b as int].recv_len,
        out_len <= in_len,
        send_effect(k0, k1, a, k0.name_of(b as int), operation, out_addr, out_len, in_addr, in_len, leases),
        reply_effect(k1, k2, b, k0.name_of(a as int), code, k0.tasks@[b as int].recv_addr, out_len),
    ensures
        k1.tasks@[b as int].ret == SyscallReturn::Recv(
            RecvMessage {
                sender: k0.name_of(a as int),
                operation: operation as u32,
                message_len: out_len,
                response_capacity: in_len,
                lease_count: leases.len() as usize,
            },
        ),
        k1.mems@[b as int]@.subrange(
            k0.tasks@[b as int].recv_addr as int,
            k0.tasks@[b as int].recv_addr + out_len,
        ) == k0.mems@[a as int]@.subrange(out_addr as int, out_addr + out_len),
        k2.tasks@[a as int].state is Runnable,
        k2.tasks@[a as int].ret == (SyscallReturn::Send { rc: code, len: out_len }),
        k2.mems@[a as int]@.subrange(in_addr as int, in_addr + out_len) == k0.mems@[a as int]@.subrange(
            out_addr as int,
            out_addr + out_len,
        ),
{
    lemma_name_of_fields(k0, a as int);
    lemma_name_of_fields(k0, b as int);
    assert(a != b);
    assert(crate::kernel::task_wf(
        k0.tasks@[b as int],
        k0.tasks.len() as int,
        k0.mems@[b as int].len() as int,
        k0.leases@[b as int]@,
    ));
    assert(accepts_from(k0.tasks@[b as int].state, k0.name_of(a as int)));
    assert(k1.tasks@[a as int].generation == k0.tasks@[a as int].generation);
    assert(k1.tasks@[b as int].generation == k0.tasks@[b as int].generation);
    assert(k1.name_of(a as int) == k0.name_of(a as int));
    assert(k1.name_of(b as int) == k0.name_of(b as int));
    assert(k1.is_current(k0.name_of(a as int)));
    assert(k1.mems@[a as int] == k0.mems@[a as int]);
    let rb = k0.tasks@[b as int].recv_addr as int;
    assert(k1.mems@[b as int]@.subrange(rb, rb + out_len) =~= k0.mems@[a as int]@.subrange(
        out_addr as int,
        out_addr + out_len,
    ));
    assert(k2.mems@[a as int]@.subrange(in_addr as int, in_addr + out_len) =~= k0.mems@[
        a as int
    ]@.subrange(out_addr as int, out_addr + out_len));
}

/// A SEND by `c` to `b`, which waits in a closed RECV naming another task
/// `a`, is not delivered: `c` joins `b`'s queue, and `b`, its buffer and every
/// other task stay as they were.
pub proof fn lemma_closed_recv_rejects_stranger(
    o: Kernel,
    f: Kernel,
    a: usize,
    b: usize,
    c: usize,
    operation: u16,
    out_addr: usize,
    out_len: usize,
    in_addr: usize,
    in_len: usize,
    leases: Seq<Lease>,
)
    requires
        o.wf(),
        a < o.tasks.len(),
        b < o.tasks.len(),
        c < o.tasks.len(),
        c != a,
        o.tasks@[b as int].state == TaskState::BlockedInRecv(Some(o.name_of(a as int))),
        send_fault(
            o.mems@[c as int].len() as int,
            o.tasks.len() as int,
            o.name_of(b as int),
            out_addr,
            out_len,
            in_addr,
            in_len,
            leases,
        ) is None,
        send_effect(o, f, c, o.name_of(b as int), operation, out_addr, out_len, in_addr, in_len, leases),
    ensures
        f.tasks@[c as int].state == TaskState::BlockedInSend(o.name_of(b as int)),
        f.tasks@[b as int] == o.tasks@[b as int] || b == c,
        forall|j: int| 0 <= j < o.tasks.len() && j != c ==> #[trigger] f.tasks@[j] == o.tasks@[j],
        f.mems@ == o.mems@,
{
    lemma_name_of_fields(o, a as int);
    lemma_name_of_fields(o, b as int);
    lemma_name_of_fields(o, c as int);
    assert(o.name_of(c as int) != o.name_of(a as int));
    assert(!accepts_from(o.tasks@[b as int].state, o.name_of(c as int)));
}

/// A RECV that finds unmasked pending notifications delivers them, whatever
/// senders are queued: every other task, queued senders included, and every
/// memory stay as they were.
pub proof fn lemma_notification_before_senders(
    o: Kernel,
    f: Kernel,
    caller: usize,
    buf_addr: usize,
    buf_len: usize,
    mask: u32,
    sender: Option<TaskName>,
)
    requires
        caller < o.tasks.len(),
        recv_fault(o.mems@[caller as int].len() as int, o.tasks.len() as int, buf_addr, buf_len, sender)
            is None,
        o.tasks@[caller as int].pending & mask != 0,
        recv_effect(o, f, caller, buf_addr, buf_len, mask, sender),
    ensures
        f.tasks@[caller as int] == notified(with_recv(o.tasks@[caller as int], buf_addr, buf_len, mask)),
        forall|j: int|
            0 <= j < o.tasks.len() && j != caller ==> #[trigger] f.tasks@[j] == o.tasks@[j],
        f.mems@ == o.mems@,
{
    let t1 = with_recv(o.tasks@[caller as int], buf_addr, buf_len, mask);
    assert(t1.pending & mask != 0);
}

/// No syscall moves time: what GET_TIMER reports after any syscall is what
/// it reported before (only `tick` advances it, by one).
pub proof fn lemma_syscalls_keep_time(
    o: Kernel,
    f: Kernel,
    caller: usize,
    number: u32,
    a: Seq<u32>,
    r: Immediate,
)
    requires
        dispatched(o, f, caller, number, a, r),
    ensures
        f.now == o.now,
{
}

} // verus!
