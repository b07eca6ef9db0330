//! Faults, restarts, and the send / receive / reply rendezvous.
use vstd::prelude::*;
use crate::abi::{name_index, next_generation, TaskName, KERNEL_NAME, RC_PEER_DIED, RC_TRUNCATED};
use crate::kernel::{
    lease_ok, leases_ok, notified, peer_of, posted, range_ok, spliced, task_wf, Kernel,
    FAULT_NOTIFICATION, MAX_MESSAGE,
};
use crate::task::{FaultKind, Lease, RecvMessage, SyscallReturn, Task, TaskState};

verus! {

/// The task table after task `i` faults with `kind`: it stops in `Faulted`,
/// and the supervisor (unless it is the one that faulted) is notified.
pub open spec fn faulted_tasks(tasks: Seq<Task>, i: int, kind: FaultKind, sup: int) -> Seq<Task> {
    let t1 = tasks.update(i, Task { state: TaskState::Faulted(kind), ..tasks[i] });
    if i != sup {
        t1.update(sup, posted(t1[sup], FAULT_NOTIFICATION))
    } else {
        t1
    }
}

/// `t` waits on task `i` in a way that ends when `i` restarts: as a sender,
/// as a client awaiting reply, or in a closed RECV naming `i`.
pub open spec fn waits_on(t: Task, i: int) -> bool {
    match t.state {
        TaskState::BlockedInSend(n) => name_index(n.0) == i,
        TaskState::BlockedInReply(n) => name_index(n.0) == i,
        TaskState::BlockedInRecv(Some(n)) => n.0 != KERNEL_NAME && name_index(n.0) == i,
        _ => false,
    }
}

/// What a task waiting on a task that restarts becomes: runnable, with its
/// SEND or closed RECV reporting the peer's death.
pub open spec fn told_of_death(t: Task) -> Task {
    if t.state is BlockedInRecv {
        Task { state: TaskState::Runnable, ret: SyscallReturn::RecvDead, ..t }
    } else {
        Task { state: TaskState::Runnable, ret: SyscallReturn::Send { rc: RC_PEER_DIED, len: 0 }, ..t }
    }
}

/// Task `i` itself after a restart.
pub open spec fn restarted(t: Task, start: bool) -> Task {
    Task {
        state: if start { TaskState::Runnable } else { TaskState::Stopped },
        generation: next_generation(t.generation as nat) as u16,
        pending: 0,
        timer_deadline: None,
        timer_bits: 0,
        ret: SyscallReturn::Nothing,
        ..t
    }
}

/// `r`'s RECV accepts a message from the task named `s`.
pub open spec fn accepts_from(state: TaskState, s: TaskName) -> bool {
    match state {
        TaskState::BlockedInRecv(None) => true,
        TaskState::BlockedInRecv(Some(n)) => n == s,
        _ => false,
    }
}

pub open spec fn min(a: int, b: int) -> int {
    if a < b { a } else { b }
}

impl Kernel {
    /// What task `s`'s pending SEND looks like to the receiver.
    pub open spec fn message_from(&self, s: int) -> RecvMessage {
        RecvMessage {
            sender: self.name_of(s),
            operation: self.tasks@[s].send_operation as u32,
            message_len: self.tasks@[s].out_len,
            response_capacity: self.tasks@[s].in_len,
            lease_count: self.leases@[s].len(),
        }
    }

    /// Records a fault of task `i`: it stops in `Faulted(kind)` and the
    /// supervisor is notified.
    pub fn fault(&mut self, i: usize, kind: FaultKind)
        requires
            old(self).wf(),
            i < old(self).tasks.len(),
        ensures
            final(self).wf(),
            final(self).same_but_tasks(old(self)),
            final(self).tasks@ == faulted_tasks(
                old(self).tasks@,
                i as int,
                kind,
                old(self).supervisor as int,
            ),
    {
        let mut t = self.tasks[i];
        t.state = TaskState::Faulted(kind);
        self.tasks.set(i, t);
        assert(task_wf(
            self.tasks@[i as int],
            self.tasks.len() as int,
            self.mems@[i as int].len() as int,
            self.leases@[i as int]@,
        ));
        if i != self.supervisor {
            let s = self.supervisor;
            self.post_index(s, FAULT_NOTIFICATION);
        }
    }

    /// The supervisor's restart of task `i`: a new generation, no pending
    /// notifications, no timer, no leases, runnable if `start` and stopped
    /// otherwise. Its memory is left for the image loader to refill (`load`).
    /// Every task that waited on `i` wakes with a peer-death result.
    pub fn restart_task(&mut self, i: usize, start: bool)
        requires
            old(self).wf(),
            i < old(self).tasks.len(),
        ensures
            final(self).wf(),
            final(self).mems@ == old(self).mems@,
            final(self).supervisor == old(self).supervisor,
            final(self).keeps_globals(old(self)),
            final(self).next_stamp == old(self).next_stamp,
            final(self).leases.len() == old(self).leases.len(),
            forall|j: int|
                0 <= j < old(self).leases.len() && j != i ==> #[trigger] final(self).leases@[j]
                    == old(self).leases@[j],
            final(self).tasks.len() == old(self).tasks.len(),
            final(self).tasks@[i as int] == restarted(old(self).tasks@[i as int], start),
            final(self).leases@[i as int]@.len() == 0,
            forall|j: int|
                0 <= j < old(self).tasks.len() && j != i ==> #[trigger] final(self).tasks@[j] == (
                if waits_on(old(self).tasks@[j], i as int) {
                    told_of_death(old(self).tasks@[j])
                } else {
                    old(self).tasks@[j]
                }),
    {
        let n = self.tasks.len();
        let mut j: usize = 0;
        while j < n
            invariant
                self.wf(),
                n == self.tasks.len(),
                i < n,
                j <= n,
                self.mems@ == old(self).mems@,
                self.leases@ == old(self).leases@,
                self.supervisor == old(self).supervisor,
                self.now == old(self).now,
                self.irq_enabled == old(self).irq_enabled,
                self.fault_msgs@ == old(self).fault_msgs@,
                self.next_stamp == old(self).next_stamp,
                self.tasks@[i as int] == old(self).tasks@[i as int],
                forall|m: int|
                    0 <= m < n && m != i ==> #[trigger] self.tasks@[m] == (if m < j && waits_on(
                        old(self).tasks@[m],
                        i as int,
                    ) {
                        told_of_death(old(self).tasks@[m])
                    } else {
                        old(self).tasks@[m]
                    }),
            decreases n - j,
        {
            if j != i {
                let mut t = self.tasks[j];
                let waiting = match t.state {
                    TaskState::BlockedInSend(p) => p.index() == i,
                    TaskState::BlockedInReply(p) => p.index() == i,
                    TaskState::BlockedInRecv(Some(p)) => p.0 != KERNEL_NAME && p.index() == i,
                    _ => false,
                };
                if waiting {
                    if matches!(t.state, TaskState::BlockedInRecv(_)) {
                        t.ret = SyscallReturn::RecvDead;
                    } else {
                        t.ret = SyscallReturn::Send { rc: RC_PEER_DIED, len: 0 };
                    }
                    t.state = TaskState::Runnable;
                    self.tasks.set(j, t);
                    assert(task_wf(
                        self.tasks@[j as int],
                        self.tasks.len() as int,
                        self.mems@[j as int].len() as int,
                        self.leases@[j as int]@,
                    ));
                }
            }
            j = j + 1;
        }
        let mut t = self.tasks[i];
        let g: u16 = t.generation;
        t.generation = if g + 1 >= crate::abi::GENERATIONS { 0 } else { g + 1 };
        t.pending = 0;
        t.timer_deadline = None;
        t.timer_bits = 0;
        t.ret = SyscallReturn::Nothing;
        t.state = if start { TaskState::Runnable } else { TaskState::Stopped };
        self.tasks.set(i, t);
        self.leases.set(i, Vec::new());
        assert forall|m: int| 0 <= m < self.tasks.len() implies task_wf(
            #[trigger] self.tasks@[m],
            self.tasks.len() as int,
            self.mems@[m].len() as int,
            self.leases@[m]@,
        ) by {
            if m != i {
                assert(task_wf(
                    old(self).tasks@[m],
                    self.tasks.len() as int,
                    self.mems@[m].len() as int,
                    old(self).leases@[m]@,
                ));
            }
        }
    }

    /// Hands task `s`'s pending message to task `r`, which was in a RECV that
    /// accepts it: the shorter of the two lengths is copied, `r` becomes
    /// runnable with the message's description, and `s` awaits `r`'s reply.
    pub(crate) fn deliver_message(&mut self, s: usize, r: usize)
        requires
            old(self).wf(),
            s < old(self).tasks.len(),
            r < old(self).tasks.len(),
            s != r,
            range_ok(
                old(self).mems@[s as int].len() as int,
                old(self).tasks@[s as int].out_addr as int,
                old(self).tasks@[s as int].out_len as int,
            ),
            range_ok(
                old(self).mems@[s as int].len() as int,
                old(self).tasks@[s as int].in_addr as int,
                old(self).tasks@[s as int].in_len as int,
            ),
            old(self).tasks@[s as int].out_len <= MAX_MESSAGE,
            leases_ok(old(self).leases@[s as int]@, old(self).mems@[s as int].len() as int),
            range_ok(
                old(self).mems@[r as int].len() as int,
                old(self).tasks@[r as int].recv_addr as int,
                old(self).tasks@[r as int].recv_len as int,
            ),
        ensures
            final(self).wf(),
            final(self).leases@ == old(self).leases@,
            final(self).fault_msgs@ == old(self).fault_msgs@,
            final(self).supervisor == old(self).supervisor,
            final(self).now == old(self).now,
            final(self).next_stamp == old(self).next_stamp,
            final(self).irq_enabled == old(self).irq_enabled,
            final(self).tasks@ == old(self).tasks@.update(
                s as int,
                Task {
                    state: TaskState::BlockedInReply(old(self).name_of(r as int)),
                    ..old(self).tasks@[s as int]
                },
            ).update(
                r as int,
                Task {
                    state: TaskState::Runnable,
                    ret: SyscallReturn::Recv(old(self).message_from(s as int)),
                    ..old(self).tasks@[r as int]
                },
            ),
            final(self).mems.len() == old(self).mems.len(),
            final(self).mems@[r as int]@ == spliced(
                old(self).mems@[r as int]@,
                old(self).tasks@[r as int].recv_addr as int,
                old(self).mems@[s as int]@,
                old(self).tasks@[s as int].out_addr as int,
                min(
                    old(self).tasks@[s as int].out_len as int,
                    old(self).tasks@[r as int].recv_len as int,
                ),
            ),
            forall|j: int|
                0 <= j < old(self).mems.len() && j != r ==> #[trigger] final(self).mems@[j]
                    == old(self).mems@[j],
    {
        let ts = self.tasks[s];
        let tr = self.tasks[r];
        let n: usize = if ts.out_len < tr.recv_len { ts.out_len } else { tr.recv_len };
        self.copy_between(s, ts.out_addr, r, tr.recv_addr, n);
        let rname = self.current_name(r);
        let sname = self.current_name(s);
        let msg = RecvMessage {
            sender: sname,
            operation: ts.send_operation as u32,
            message_len: ts.out_len,
            response_capacity: ts.in_len,
            lease_count: self.leases[s].len(),
        };
        let mut ts2 = ts;
        ts2.state = TaskState::BlockedInReply(rname);
        self.tasks.set(s, ts2);
        let mut tr2 = tr;
        tr2.state = TaskState::Runnable;
        tr2.ret = SyscallReturn::Recv(msg);
        self.tasks.set(r, tr2);
        assert forall|m: int| 0 <= m < self.tasks.len() implies task_wf(
            #[trigger] self.tasks@[m],
            self.tasks.len() as int,
            self.mems@[m].len() as int,
            self.leases@[m]@,
        ) by {
            assert(self.mems@[m].len() == old(self).mems@[m].len());
            if m != s && m != r {
                assert(task_wf(
                    old(self).tasks@[m],
                    self.tasks.len() as int,
                    self.mems@[m].len() as int,
                    self.leases@[m]@,
                ));
            }
        }
    }
}


/// `t` (at index `j`) is blocked sending to task `r`, and a RECV with
/// `filter` would take its message.
pub open spec fn sends_to(t: Task, j: int, r: int, filter: Option<TaskName>) -> bool {
    &&& t.state is BlockedInSend
    &&& name_index((peer_of(t.state)->0).0) == r
    &&& (filter is None || name_index((filter->0).0) == j)
}

/// `j` is at the head of `r`'s send queue under `filter`: no accepted sender
/// has a numerically lower priority, and none of equal priority came earlier.
pub open spec fn first_sender(tasks: Seq<Task>, j: int, r: int, filter: Option<TaskName>) -> bool {
    &&& 0 <= j < tasks.len()
    &&& sends_to(tasks[j], j, r, filter)
    &&& forall|m: int|
        0 <= m < tasks.len() && #[trigger] sends_to(tasks[m], m, r, filter) ==> tasks[j].priority
            < tasks[m].priority || (tasks[j].priority == tasks[m].priority && tasks[j].send_stamp
            <= tasks[m].send_stamp)
}

/// The fault, if any, that a SEND with these arguments raises.
pub open spec fn send_fault(
    mem_len: int,
    n_tasks: int,
    target: TaskName,
    out_addr: usize,
    out_len: usize,
    in_addr: usize,
    in_len: usize,
    ls: Seq<Lease>,
) -> Option<FaultKind> {
    if out_len > MAX_MESSAGE {
        Some(FaultKind::MessageTooLarge)
    } else if !range_ok(mem_len, out_addr as int, out_len as int) {
        Some(FaultKind::BadArgument { address: out_addr, len: out_len })
    } else if !range_ok(mem_len, in_addr as int, in_len as int) {
        Some(FaultKind::BadArgument { address: in_addr, len: in_len })
    } else if !leases_ok(ls, mem_len) {
        Some(FaultKind::BadLease)
    } else if name_index(target.0) >= n_tasks {
        Some(FaultKind::TaskOutOfRange)
    } else {
        None
    }
}

/// The fault, if any, that a RECV with these arguments raises.
pub open spec fn recv_fault(
    mem_len: int,
    n_tasks: int,
    buf_addr: usize,
    buf_len: usize,
    sender: Option<TaskName>,
) -> Option<FaultKind> {
    if !range_ok(mem_len, buf_addr as int, buf_len as int) {
        Some(FaultKind::BadArgument { address: buf_addr, len: buf_len })
    } else if sender is Some && (sender->0).0 != KERNEL_NAME && name_index((sender->0).0) >= n_tasks {
        Some(FaultKind::TaskOutOfRange)
    } else {
        None
    }
}

/// The fault, if any, that a REPLY with these arguments raises.
pub open spec fn reply_fault(
    mem_len: int,
    n_tasks: int,
    peer: TaskName,
    msg_addr: usize,
    msg_len: usize,
) -> Option<FaultKind> {
    if msg_len > MAX_MESSAGE {
        Some(FaultKind::MessageTooLarge)
    } else if !range_ok(mem_len, msg_addr as int, msg_len as int) {
        Some(FaultKind::BadArgument { address: msg_addr, len: msg_len })
    } else if name_index(peer.0) >= n_tasks {
        Some(FaultKind::TaskOutOfRange)
    } else {
        None
    }
}

/// A task with the descriptor of a new SEND recorded.
pub open spec fn with_send(
    t: Task,
    operation: u16,
    out_addr: usize,
    out_len: usize,
    in_addr: usize,
    in_len: usize,
) -> Task {
    Task { send_operation: operation, out_addr, out_len, in_addr, in_len, ..t }
}

/// A task with the buffer and mask of a new RECV recorded.
pub open spec fn with_recv(t: Task, buf_addr: usize, buf_len: usize, mask: u32) -> Task {
    Task { recv_addr: buf_addr, recv_len: buf_len, recv_mask: mask, ..t }
}

/// The result a client sees when its server replies `msg_len` bytes with
/// `code` into a buffer of `in_len` bytes.
pub open spec fn reply_result(code: u32, msg_len: usize, in_len: usize) -> SyscallReturn {
    if msg_len > in_len {
        SyscallReturn::Send { rc: RC_TRUNCATED, len: in_len }
    } else {
        SyscallReturn::Send { rc: code, len: msg_len }
    }
}

/// Finds the first lease of `ls` that does not lie within `mem_len` bytes.
fn find_bad_lease(ls: &Vec<Lease>, mem_len: usize) -> (r: bool)
    ensures
        r == !leases_ok(ls@, mem_len as int),
{
    let mut k: usize = 0;
    while k < ls.len()
        invariant
            k <= ls.len(),
            forall|m: int| 0 <= m < k ==> lease_ok(#[trigger] ls@[m], mem_len as int),
        decreases ls.len() - k,
    {
        let l = ls[k];
        if l.base_address as usize > mem_len || l.length as usize > mem_len - l.base_address as usize {
            return true;
        }
        k = k + 1;
    }
    false
}

impl Kernel {
    /// Finds the head of task `r`'s send queue under `filter`.
    pub fn find_sender(&self, r: usize, filter: Option<TaskName>) -> (res: Option<usize>)
        ensures
            res is Some ==> first_sender(self.tasks@, res->0 as int, r as int, filter),
            res is None ==> forall|m: int|
                0 <= m < self.tasks.len() ==> !#[trigger] sends_to(
                    self.tasks@[m],
                    m,
                    r as int,
                    filter,
                ),
    {
        let mut best: Option<usize> = None;
        let mut i: usize = 0;
        while i < self.tasks.len()
            invariant
                i <= self.tasks.len(),
                best is None ==> forall|m: int|
                    0 <= m < i ==> !#[trigger] sends_to(self.tasks@[m], m, r as int, filter),
                best is Some ==> {
                    let b = best->0 as int;
                    &&& 0 <= b < i
                    &&& sends_to(self.tasks@[b], b, r as int, filter)
                    &&& forall|m: int|
                        0 <= m < i && #[trigger] sends_to(self.tasks@[m], m, r as int, filter)
                            ==> self.tasks@[b].priority < self.tasks@[m].priority || (
                        self.tasks@[b].priority == self.tasks@[m].priority
                            && self.tasks@[b].send_stamp <= self.tasks@[m].send_stamp)
                },
            decreases self.tasks.len() - i,
        {
            let t = self.tasks[i];
            let wanted = match t.state {
                TaskState::BlockedInSend(p) => p.index() == r && match filter {
                    None => true,
                    Some(f) => f.index() == i,
                },
                _ => false,
            };
            if wanted {
                match best {
                    None => {
                        best = Some(i);
                    },
                    Some(b) => {
                        let tb = self.tasks[b];
                        if t.priority < tb.priority || (t.priority == tb.priority && t.send_stamp
                            < tb.send_stamp) {
                            best = Some(i);
                        }
                    },
                }
            }
            i = i + 1;
        }
        best
    }
}

/// The effect of a SEND by `caller` (see `sys_send`), relating the kernel
/// before (`o`) and after (`f`).
pub open spec fn send_effect(
    o: Kernel,
    f: Kernel,
    caller: usize,
    target: TaskName,
    operation: u16,
    out_addr: usize,
    out_len: usize,
    in_addr: usize,
    in_len: usize,
    leases: Seq<Lease>,
) -> bool {
    ({
        let fault = send_fault(
            o.mems@[caller as int].len() as int,
            o.tasks.len() as int,
            target,
            out_addr,
            out_len,
            in_addr,
            in_len,
            leases,
        );
        let d = name_index(target.0) as int;
        let t1 = with_send(
            o.tasks@[caller as int],
            operation,
            out_addr,
            out_len,
            in_addr,
            in_len,
        );
        let msg = RecvMessage {
            sender: o.name_of(caller as int),
            operation: operation as u32,
            message_len: out_len,
            response_capacity: in_len,
            lease_count: leases.len() as usize,
        };
        &&& f.keeps_globals(&o)
        &&& fault is Some ==> {
            &&& f.leases@ == o.leases@
            &&& f.next_stamp == o.next_stamp
            &&& f.tasks@ == faulted_tasks(
                o.tasks@,
                caller as int,
                fault->0,
                o.supervisor as int,
            )
            &&& f.mems@ == o.mems@
        }
        &&& fault is None && !o.is_current(target) ==> {
            &&& f.leases@ == o.leases@
            &&& f.next_stamp == o.next_stamp
            &&& f.tasks@ == o.tasks@.update(
                caller as int,
                Task {
                    ret: SyscallReturn::Send { rc: RC_PEER_DIED, len: 0 },
                    ..o.tasks@[caller as int]
                },
            )
            &&& f.mems@ == o.mems@
        }
        &&& fault is None && o.is_current(target) && accepts_from(
            o.tasks@[d].state,
            o.name_of(caller as int),
        ) ==> {
            &&& f.tasks@ == o.tasks@.update(
                caller as int,
                Task { state: TaskState::BlockedInReply(o.name_of(d)), ..t1 },
            ).update(
                d,
                Task {
                    state: TaskState::Runnable,
                    ret: SyscallReturn::Recv(msg),
                    ..o.tasks@[d]
                },
            )
            &&& f.leases@[caller as int]@ == leases
            &&& f.leases.len() == o.leases.len()
            &&& forall|j: int|
                0 <= j < o.leases.len() && j != caller ==> #[trigger] f.leases@[j] == o.leases@[j]
            &&& f.next_stamp == o.next_stamp
            &&& f.mems@[d]@ == spliced(
                o.mems@[d]@,
                o.tasks@[d].recv_addr as int,
                o.mems@[caller as int]@,
                out_addr as int,
                min(out_len as int, o.tasks@[d].recv_len as int),
            )
            &&& forall|j: int|
                0 <= j < o.mems.len() && j != d ==> #[trigger] f.mems@[j]
                    == o.mems@[j]
        }
        &&& fault is None && o.is_current(target) && !accepts_from(
            o.tasks@[d].state,
            o.name_of(caller as int),
        ) ==> {
            &&& f.tasks@ == o.tasks@.update(
                caller as int,
                Task {
                    state: TaskState::BlockedInSend(target),
                    send_stamp: o.next_stamp,
                    ..t1
                },
            )
            &&& f.leases@[caller as int]@ == leases
            &&& f.leases.len() == o.leases.len()
            &&& forall|j: int|
                0 <= j < o.leases.len() && j != caller ==> #[trigger] f.leases@[j] == o.leases@[j]
            &&& f.next_stamp == if o.next_stamp < u64::MAX {
                (o.next_stamp + 1) as u64
            } else {
                o.next_stamp
            }
            &&& f.mems@ == o.mems@
        }
    })
}

/// SEND from task `caller` to `target`: operation code `operation`, the
/// outgoing message at `[out_addr, out_addr + out_len)` of the caller's
/// memory, room for the reply at `[in_addr, in_addr + in_len)`, and `leases`
/// over the caller's memory. Bad arguments fault the caller. A stale target
/// completes at once with `PeerDied`. A target in a RECV that accepts the
/// caller receives the message now and the caller awaits its reply; otherwise
/// the caller joins the target's send queue.
pub fn sys_send(
    k: &mut Kernel,
    caller: usize,
    target: TaskName,
    operation: u16,
    out_addr: usize,
    out_len: usize,
    in_addr: usize,
    in_len: usize,
    leases: Vec<Lease>,
)
    requires
        old(k).wf(),
        caller < old(k).tasks.len(),
        old(k).tasks@[caller as int].state is Runnable,
    ensures
        final(k).wf(),
        final(k).supervisor == old(k).supervisor,
        final(k).now == old(k).now,
        final(k).mems.len() == old(k).mems.len(),
        send_effect(*old(k), *final(k), caller, target, operation, out_addr, out_len, in_addr, in_len, leases@),
{
    let mem_len = k.mems[caller].len();
    if out_len > MAX_MESSAGE {
        k.fault(caller, FaultKind::MessageTooLarge);
        return;
    }
    if out_addr > mem_len || out_len > mem_len - out_addr {
        k.fault(caller, FaultKind::BadArgument { address: out_addr, len: out_len });
        return;
    }
    if in_addr > mem_len || in_len > mem_len - in_addr {
        k.fault(caller, FaultKind::BadArgument { address: in_addr, len: in_len });
        return;
    }
    if find_bad_lease(&leases, mem_len) {
        k.fault(caller, FaultKind::BadLease);
        return;
    }
    let d = target.index();
    if d >= k.tasks.len() {
        k.fault(caller, FaultKind::TaskOutOfRange);
        return;
    }
    let mut t = k.tasks[caller];
    if !k.is_current_name(target) {
        t.ret = SyscallReturn::Send { rc: RC_PEER_DIED, len: 0 };
        k.tasks.set(caller, t);
        assert(task_wf(
            k.tasks@[caller as int],
            k.tasks.len() as int,
            k.mems@[caller as int].len() as int,
            k.leases@[caller as int]@,
        ));
        return;
    }
    let me = k.current_name(caller);
    t.send_operation = operation;
    t.out_addr = out_addr;
    t.out_len = out_len;
    t.in_addr = in_addr;
    t.in_len = in_len;
    let accepts = match k.tasks[d].state {
        TaskState::BlockedInRecv(None) => true,
        TaskState::BlockedInRecv(Some(n)) => n == me,
        _ => false,
    };
    if accepts {
        k.tasks.set(caller, t);
        k.leases.set(caller, leases);
        assert(task_wf(
            k.tasks@[caller as int],
            k.tasks.len() as int,
            k.mems@[caller as int].len() as int,
            k.leases@[caller as int]@,
        ));
        assert(task_wf(
            k.tasks@[d as int],
            k.tasks.len() as int,
            k.mems@[d as int].len() as int,
            k.leases@[d as int]@,
        ));
        let ghost km = *k;
        k.deliver_message(caller, d);
        assert(k.tasks@ =~= old(k).tasks@.update(
            caller as int,
            Task { state: TaskState::BlockedInReply(old(k).name_of(d as int)), ..t },
        ).update(
            d as int,
            Task {
                state: TaskState::Runnable,
                ret: SyscallReturn::Recv(km.message_from(caller as int)),
                ..old(k).tasks@[d as int]
            },
        ));
    } else {
        t.state = TaskState::BlockedInSend(target);
        t.send_stamp = k.next_stamp;
        if k.next_stamp < u64::MAX {
            k.next_stamp = k.next_stamp + 1;
        }
        k.tasks.set(caller, t);
        k.leases.set(caller, leases);
        assert(task_wf(
            k.tasks@[caller as int],
            k.tasks.len() as int,
            k.mems@[caller as int].len() as int,
            k.leases@[caller as int]@,
        ));
    }
}


/// The RECV of `caller` took the message of task `j`: `j` now awaits the
/// caller's reply, the caller is runnable with `j`'s message described, and
/// the shorter of message and buffer was copied into the buffer.
pub open spec fn took_message(
    o: Kernel,
    f: Kernel,
    caller: usize,
    buf_addr: usize,
    buf_len: usize,
    mask: u32,
    j: int,
) -> bool {
    let t1 = with_recv(o.tasks@[caller as int], buf_addr, buf_len, mask);
    &&& f.tasks@ == o.tasks@.update(
        j,
        Task {
            state: TaskState::BlockedInReply(o.name_of(caller as int)),
            ..o.tasks@[j]
        },
    ).update(
        caller as int,
        Task {
            state: TaskState::Runnable,
            ret: SyscallReturn::Recv(o.message_from(j)),
            ..t1
        },
    )
    &&& f.mems@[caller as int]@ == spliced(
        o.mems@[caller as int]@,
        buf_addr as int,
        o.mems@[j]@,
        o.tasks@[j].out_addr as int,
        min(o.tasks@[j].out_len as int, buf_len as int),
    )
    &&& forall|m: int|
        0 <= m < o.mems.len() && m != caller
            ==> #[trigger] f.mems@[m] == o.mems@[m]
}

/// The effect of a RECV by `caller` (see `sys_recv`), relating the kernel
/// before (`o`) and after (`f`).
pub open spec fn recv_effect(
    o: Kernel,
    f: Kernel,
    caller: usize,
    buf_addr: usize,
    buf_len: usize,
    mask: u32,
    sender: Option<TaskName>,
) -> bool {
    ({
        let fault = recv_fault(
            o.mems@[caller as int].len() as int,
            o.tasks.len() as int,
            buf_addr,
            buf_len,
            sender,
        );
        let t1 = with_recv(o.tasks@[caller as int], buf_addr, buf_len, mask);
        let from_kernel = sender is Some && (sender->0).0 == KERNEL_NAME;
        &&& f.keeps_globals(&o)
        &&& f.leases@ == o.leases@
        &&& f.next_stamp == o.next_stamp
        &&& fault is Some ==> {
            &&& f.tasks@ == faulted_tasks(
                o.tasks@,
                caller as int,
                fault->0,
                o.supervisor as int,
            )
            &&& f.mems@ == o.mems@
        }
        &&& fault is None && t1.pending & mask != 0 ==> {
            &&& f.tasks@ == o.tasks@.update(caller as int, notified(t1))
            &&& f.mems@ == o.mems@
        }
        &&& fault is None && t1.pending & mask == 0 && from_kernel ==> {
            &&& f.tasks@ == o.tasks@.update(
                caller as int,
                Task { state: TaskState::BlockedInRecv(sender), ..t1 },
            )
            &&& f.mems@ == o.mems@
        }
        &&& fault is None && t1.pending & mask == 0 && sender is Some && !from_kernel
            && !o.is_current(sender->0) ==> {
            &&& f.tasks@ == o.tasks@.update(
                caller as int,
                Task { ret: SyscallReturn::RecvDead, ..t1 },
            )
            &&& f.mems@ == o.mems@
        }
        &&& fault is None && t1.pending & mask == 0 && !from_kernel && (sender is None
            || o.is_current(sender->0)) ==> {
            ||| exists|j: int|
                first_sender(o.tasks@, j, caller as int, sender) && #[trigger] took_message(
                    o,
                    f,
                    caller,
                    buf_addr,
                    buf_len,
                    mask,
                    j,
                )
            ||| {
                &&& forall|m: int|
                    0 <= m < o.tasks.len() ==> !#[trigger] sends_to(
                        o.tasks@[m],
                        m,
                        caller as int,
                        sender,
                    )
                &&& f.tasks@ == o.tasks@.update(
                    caller as int,
                    Task { state: TaskState::BlockedInRecv(sender), ..t1 },
                )
                &&& f.mems@ == o.mems@
            }
        }
    })
}

/// RECV by task `caller` into `[buf_addr, buf_addr + buf_len)` of its memory,
/// accepting notification bits `mask`, from anyone (`sender` is `None`) or
/// only from `sender`. Pending unmasked notifications come first; otherwise
/// the head of the caller's send queue is delivered; otherwise the caller
/// blocks. A closed RECV on a stale sender completes at once as dead.
pub fn sys_recv(
    k: &mut Kernel,
    caller: usize,
    buf_addr: usize,
    buf_len: usize,
    mask: u32,
    sender: Option<TaskName>,
)
    requires
        old(k).wf(),
        caller < old(k).tasks.len(),
        old(k).tasks@[caller as int].state is Runnable,
    ensures
        final(k).wf(),
        final(k).supervisor == old(k).supervisor,
        final(k).now == old(k).now,
        final(k).leases@ == old(k).leases@,
        final(k).mems.len() == old(k).mems.len(),
        recv_effect(*old(k), *final(k), caller, buf_addr, buf_len, mask, sender),
{
    let mem_len = k.mems[caller].len();
    if buf_addr > mem_len || buf_len > mem_len - buf_addr {
        k.fault(caller, FaultKind::BadArgument { address: buf_addr, len: buf_len });
        return;
    }
    let mut from_kernel = false;
    match sender {
        Some(n) => {
            if n.0 == KERNEL_NAME {
                from_kernel = true;
            } else if n.index() >= k.tasks.len() {
                k.fault(caller, FaultKind::TaskOutOfRange);
                return;
            }
        },
        None => {},
    }
    let mut t = k.tasks[caller];
    t.recv_addr = buf_addr;
    t.recv_len = buf_len;
    t.recv_mask = mask;
    if t.pending & mask != 0 {
        let op: u32 = t.pending & mask;
        t.ret = SyscallReturn::Recv(
            RecvMessage {
                sender: TaskName(KERNEL_NAME),
                operation: op,
                message_len: 0,
                response_capacity: 0,
                lease_count: 0,
            },
        );
        t.pending = t.pending & !mask;
        k.tasks.set(caller, t);
        assert(task_wf(
            k.tasks@[caller as int],
            k.tasks.len() as int,
            k.mems@[caller as int].len() as int,
            k.leases@[caller as int]@,
        ));
        return;
    }
    if from_kernel {
        t.state = TaskState::BlockedInRecv(sender);
        k.tasks.set(caller, t);
        assert(task_wf(
            k.tasks@[caller as int],
            k.tasks.len() as int,
            k.mems@[caller as int].len() as int,
            k.leases@[caller as int]@,
        ));
        return;
    }
    match sender {
        Some(n) => {
            if !k.is_current_name(n) {
                t.ret = SyscallReturn::RecvDead;
                k.tasks.set(caller, t);
                assert(task_wf(
                    k.tasks@[caller as int],
                    k.tasks.len() as int,
                    k.mems@[caller as int].len() as int,
                    k.leases@[caller as int]@,
                ));
                return;
            }
        },
        None => {},
    }
    k.tasks.set(caller, t);
    assert(task_wf(
        k.tasks@[caller as int],
        k.tasks.len() as int,
        k.mems@[caller as int].len() as int,
        k.leases@[caller as int]@,
    ));
    let ghost k0 = *k;
    assert(k0.tasks@ == old(k).tasks@.update(caller as int, t));
    match k.find_sender(caller, sender) {
        Some(j) => {
            assert forall|m: int|
                0 <= m < old(k).tasks.len() && #[trigger] sends_to(
                    old(k).tasks@[m],
                    m,
                    caller as int,
                    sender,
                ) implies old(k).tasks@[j as int].priority < old(k).tasks@[m].priority || (
            old(k).tasks@[j as int].priority == old(k).tasks@[m].priority
                && old(k).tasks@[j as int].send_stamp <= old(k).tasks@[m].send_stamp) by {
                assert(m != caller);
                assert(k0.tasks@[m] == old(k).tasks@[m]);
                assert(sends_to(k0.tasks@[m], m, caller as int, sender));
            }
            assert(first_sender(old(k).tasks@, j as int, caller as int, sender));
            assert(task_wf(
                k.tasks@[j as int],
                k.tasks.len() as int,
                k.mems@[j as int].len() as int,
                k.leases@[j as int]@,
            ));
            k.deliver_message(j, caller);
            assert(k.tasks@ =~= old(k).tasks@.update(
                j as int,
                Task {
                    state: TaskState::BlockedInReply(old(k).name_of(caller as int)),
                    ..old(k).tasks@[j as int]
                },
            ).update(
                caller as int,
                Task {
                    state: TaskState::Runnable,
                    ret: SyscallReturn::Recv(old(k).message_from(j as int)),
                    ..t
                },
            ));
            proof {
                let jj = j as int;
                assert(first_sender(old(k).tasks@, jj, caller as int, sender));
                assert(took_message(*old(k), *k, caller, buf_addr, buf_len, mask, jj));
            }
        },
        None => {
            assert forall|m: int| 0 <= m < old(k).tasks.len() implies !#[trigger] sends_to(
                old(k).tasks@[m],
                m,
                caller as int,
                sender,
            ) by {
                assert(!sends_to(k0.tasks@[m], m, caller as int, sender));
            }
            t.state = TaskState::BlockedInRecv(sender);
            k.tasks.set(caller, t);
            assert(task_wf(
                k.tasks@[caller as int],
                k.tasks.len() as int,
                k.mems@[caller as int].len() as int,
                k.leases@[caller as int]@,
            ));
            assert(k.tasks@ == old(k).tasks@.update(caller as int, t));
            assert(k.mems@ == old(k).mems@);
        },
    }
}

/// The effect of a REPLY by `caller` (see `sys_reply`), relating the kernel
/// before (`o`) and after (`f`).
pub open spec fn reply_effect(
    o: Kernel,
    f: Kernel,
    caller: usize,
    peer: TaskName,
    code: u32,
    msg_addr: usize,
    msg_len: usize,
) -> bool {
    ({
        let fault = reply_fault(
            o.mems@[caller as int].len() as int,
            o.tasks.len() as int,
            peer,
            msg_addr,
            msg_len,
        );
        let p = name_index(peer.0) as int;
        let tp = o.tasks@[p];
        let waiting = o.is_current(peer) && tp.state == TaskState::BlockedInReply(
            o.name_of(caller as int),
        );
        &&& f.keeps_globals(&o)
        &&& f.leases@ == o.leases@
        &&& f.next_stamp == o.next_stamp
        &&& fault is Some ==> {
            &&& f.tasks@ == faulted_tasks(
                o.tasks@,
                caller as int,
                fault->0,
                o.supervisor as int,
            )
            &&& f.mems@ == o.mems@
        }
        &&& fault is None && waiting ==> {
            &&& f.tasks@ == o.tasks@.update(
                p,
                Task {
                    state: TaskState::Runnable,
                    ret: reply_result(code, msg_len, tp.in_len),
                    ..tp
                },
            )
            &&& f.mems@[p]@ == spliced(
                o.mems@[p]@,
                tp.in_addr as int,
                o.mems@[caller as int]@,
                msg_addr as int,
                min(msg_len as int, tp.in_len as int),
            )
            &&& forall|m: int|
                0 <= m < o.mems.len() && m != p ==> #[trigger] f.mems@[m]
                    == o.mems@[m]
        }
        &&& fault is None && !waiting ==> {
            &&& f.tasks@ == o.tasks@
            &&& f.mems@ == o.mems@
        }
    })
}

/// REPLY by task `caller` to `peer` with `code` and the message at
/// `[msg_addr, msg_addr + msg_len)` of its memory. If `peer` is current and
/// awaits the caller's reply, the shorter of the message and the peer's reply
/// buffer is copied and the peer becomes runnable with `(code, len)`, or with
/// the truncation code and the buffer's length when the message did not fit.
/// Otherwise nothing happens. The caller never blocks.
pub fn sys_reply(
    k: &mut Kernel,
    caller: usize,
    peer: TaskName,
    code: u32,
    msg_addr: usize,
    msg_len: usize,
)
    requires
        old(k).wf(),
        caller < old(k).tasks.len(),
        old(k).tasks@[caller as int].state is Runnable,
    ensures
        final(k).wf(),
        final(k).supervisor == old(k).supervisor,
        final(k).now == old(k).now,
        final(k).leases@ == old(k).leases@,
        final(k).mems.len() == old(k).mems.len(),
        reply_effect(*old(k), *final(k), caller, peer, code, msg_addr, msg_len),
{
    let mem_len = k.mems[caller].len();
    if msg_len > MAX_MESSAGE {
        k.fault(caller, FaultKind::MessageTooLarge);
        return;
    }
    if msg_addr > mem_len || msg_len > mem_len - msg_addr {
        k.fault(caller, FaultKind::BadArgument { address: msg_addr, len: msg_len });
        return;
    }
    let p = peer.index();
    if p >= k.tasks.len() {
        k.fault(caller, FaultKind::TaskOutOfRange);
        return;
    }
    let me = k.current_name(caller);
    if !k.is_current_name(peer) || k.tasks[p].state != TaskState::BlockedInReply(me) {
        return;
    }
    let tp = k.tasks[p];
    assert(task_wf(
        k.tasks@[p as int],
        k.tasks.len() as int,
        k.mems@[p as int].len() as int,
        k.leases@[p as int]@,
    ));
    let n: usize = if msg_len < tp.in_len { msg_len } else { tp.in_len };
    k.copy_between(caller, msg_addr, p, tp.in_addr, n);
    let mut t = tp;
    t.state = TaskState::Runnable;
    t.ret = if msg_len > tp.in_len {
        SyscallReturn::Send { rc: RC_TRUNCATED, len: tp.in_len }
    } else {
        SyscallReturn::Send { rc: code, len: msg_len }
    };
    k.tasks.set(p, t);
    assert(task_wf(
        k.tasks@[p as int],
        k.tasks.len() as int,
        k.mems@[p as int].len() as int,
        k.leases@[p as int]@,
    ));
}


/// An open RECV: accepts a message from any task, or an unmasked notification.
pub fn sys_recv_open(k: &mut Kernel, caller: usize, buf_addr: usize, buf_len: usize, mask: u32)
    requires
        old(k).wf(),
        caller < old(k).tasks.len(),
        old(k).tasks@[caller as int].state is Runnable,
    ensures
        final(k).wf(),
        final(k).supervisor == old(k).supervisor,
        final(k).now == old(k).now,
        final(k).leases@ == old(k).leases@,
        final(k).mems.len() == old(k).mems.len(),
        recv_effect(*old(k), *final(k), caller, buf_addr, buf_len, mask, None),
{
    sys_recv(k, caller, buf_addr, buf_len, mask, None)
}

/// A closed RECV: accepts a message only from `sender` (or, when `sender` is
/// the kernel, only notifications); a stale `sender` ends it as dead.
pub fn sys_recv_closed(
    k: &mut Kernel,
    caller: usize,
    buf_addr: usize,
    buf_len: usize,
    mask: u32,
    sender: TaskName,
)
    requires
        old(k).wf(),
        caller < old(k).tasks.len(),
        old(k).tasks@[caller as int].state is Runnable,
    ensures
        final(k).wf(),
        final(k).supervisor == old(k).supervisor,
        final(k).now == old(k).now,
        final(k).leases@ == old(k).leases@,
        final(k).mems.len() == old(k).mems.len(),
        recv_effect(*old(k), *final(k), caller, buf_addr, buf_len, mask, Some(sender)),
{
    sys_recv(k, caller, buf_addr, buf_len, mask, Some(sender))
}

} // verus!
