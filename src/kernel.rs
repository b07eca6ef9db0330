//! The kernel's state: the task table, each task's memory and lease table,
//! the tick counter, and the operations that do not involve a rendezvous.
use vstd::prelude::*;
use crate::abi::{
    name_generation, name_index, TaskName, GENERATIONS, KERNEL_NAME, MAX_TASKS,
};
use crate::task::{Lease, RecvMessage, SyscallReturn, Task, TaskState};

verus! {

/// Largest message, in bytes, that SEND accepts.
pub const MAX_MESSAGE: usize = 1024;

/// Longest panic message the kernel keeps, in bytes.
pub const PANIC_MESSAGE_MAX: usize = 128;

/// Notification bit posted to the supervisor when a task faults.
pub const FAULT_NOTIFICATION: u32 = 1;

/// The whole kernel state. Task `i` owns `mems[i]` (its address space, from
/// address zero), `leases[i]` (the lease table of its current SEND) and
/// `fault_msgs[i]` (the kept prefix of its last panic message).
pub struct Kernel {
    pub tasks: Vec<Task>,
    pub mems: Vec<Vec<u8>>,
    pub leases: Vec<Vec<Lease>>,
    pub fault_msgs: Vec<Vec<u8>>,
    pub supervisor: usize,
    pub now: u64,
    pub next_stamp: u64,
    pub irq_enabled: u32,
}

/// `[addr, addr + len)` lies within a memory of `mem_len` bytes.
pub open spec fn range_ok(mem_len: int, addr: int, len: int) -> bool {
    addr + len <= mem_len
}

pub open spec fn lease_ok(l: Lease, mem_len: int) -> bool {
    range_ok(mem_len, l.base_address as int, l.length as int)
}

pub open spec fn leases_ok(ls: Seq<Lease>, mem_len: int) -> bool {
    forall|k: int| 0 <= k < ls.len() ==> lease_ok(#[trigger] ls[k], mem_len)
}

/// The task a blocked sender (or a task awaiting reply) waits on.
pub open spec fn peer_of(s: TaskState) -> Option<TaskName> {
    match s {
        TaskState::BlockedInSend(n) => Some(n),
        TaskState::BlockedInReply(n) => Some(n),
        _ => None,
    }
}

pub open spec fn task_wf(t: Task, n_tasks: int, mem_len: int, ls: Seq<Lease>) -> bool {
    &&& t.generation < GENERATIONS
    &&& (peer_of(t.state) is Some ==> {
        &&& name_index((peer_of(t.state)->0).0) < n_tasks
        &&& range_ok(mem_len, t.out_addr as int, t.out_len as int)
        &&& range_ok(mem_len, t.in_addr as int, t.in_len as int)
        &&& t.out_len <= MAX_MESSAGE
        &&& leases_ok(ls, mem_len)
    })
    &&& (t.state is BlockedInRecv ==> range_ok(mem_len, t.recv_addr as int, t.recv_len as int))
}

/// `d` with `n` bytes from `s` at `from` written over it at `at`.
pub open spec fn spliced(d: Seq<u8>, at: int, s: Seq<u8>, from: int, n: int) -> Seq<u8> {
    Seq::new(d.len(), |k: int| if at <= k < at + n { s[from + k - at] } else { d[k] })
}

/// The zero-length message from the kernel that delivers notification `bits`.
pub open spec fn notification_message(bits: u32) -> RecvMessage {
    RecvMessage {
        sender: TaskName(KERNEL_NAME),
        operation: bits,
        message_len: 0,
        response_capacity: 0,
        lease_count: 0,
    }
}

/// A task in RECV after its unmasked pending bits are delivered.
pub open spec fn notified(t: Task) -> Task {
    Task {
        state: TaskState::Runnable,
        pending: t.pending & !t.recv_mask,
        ret: SyscallReturn::Recv(notification_message(t.pending & t.recv_mask)),
        ..t
    }
}

/// A task after `bits` are posted to it: they accumulate, and wake it if it
/// is in RECV with any of them unmasked.
pub open spec fn posted(t: Task, bits: u32) -> Task {
    let t2 = Task { pending: t.pending | bits, ..t };
    if t.state is BlockedInRecv && (t.pending | bits) & t.recv_mask != 0 {
        notified(t2)
    } else {
        t2
    }
}

/// A freshly loaded task.
pub open spec fn initial_task(priority: u8, irq_owned: u32) -> Task {
    Task {
        state: TaskState::Runnable,
        generation: 0,
        priority,
        irq_owned,
        pending: 0,
        recv_mask: 0,
        recv_addr: 0,
        recv_len: 0,
        timer_deadline: None,
        timer_bits: 0,
        send_operation: 0,
        out_addr: 0,
        out_len: 0,
        in_addr: 0,
        in_len: 0,
        send_stamp: 0,
        ret: SyscallReturn::Nothing,
    }
}

/// `r` is the task the scheduler picks: runnable, of the numerically lowest
/// priority, and the lowest index among those.
pub open spec fn scheduled(tasks: Seq<Task>, r: int) -> bool {
    &&& 0 <= r < tasks.len()
    &&& tasks[r].state is Runnable
    &&& forall|j: int|
        0 <= j < tasks.len() && (#[trigger] tasks[j]).state is Runnable ==> tasks[r].priority
            < tasks[j].priority || (tasks[r].priority == tasks[j].priority && r <= j)
}

/// Writes `n` bytes of `s` from `from` over `d` at `at`.
pub fn write_bytes(d: &mut Vec<u8>, at: usize, s: &Vec<u8>, from: usize, n: usize)
    requires
        at + n <= old(d).len(),
        from + n <= s.len(),
    ensures
        final(d)@ == spliced(old(d)@, at as int, s@, from as int, n as int),
{
    let ghost d0 = d@;
    let mut i: usize = 0;
    while i < n
        invariant
            i <= n,
            at + n <= d.len(),
            from + n <= s.len(),
            d@.len() == d0.len(),
            forall|k: int|
                0 <= k < d0.len() ==> #[trigger] d@[k] == (if at <= k < at + i {
                    s@[from + k - at]
                } else {
                    d0[k]
                }),
        decreases n - i,
    {
        let b: u8 = s[from + i];
        d.set(at + i, b);
        i = i + 1;
    }
    assert(d@ =~= spliced(d0, at as int, s@, from as int, n as int));
}

impl Kernel {
    pub open spec fn wf(&self) -> bool {
        &&& 0 < self.tasks.len() <= MAX_TASKS
        &&& self.mems.len() == self.tasks.len()
        &&& self.leases.len() == self.tasks.len()
        &&& self.fault_msgs.len() == self.tasks.len()
        &&& self.supervisor < self.tasks.len()
        &&& forall|i: int|
            0 <= i < self.tasks.len() ==> task_wf(
                #[trigger] self.tasks@[i],
                self.tasks.len() as int,
                self.mems@[i].len() as int,
                self.leases@[i]@,
            )
    }

    /// The current name of the task at index `i`.
    pub open spec fn name_of(&self, i: int) -> TaskName {
        TaskName((self.tasks@[i].generation * 1024 + i) as u16)
    }

    /// `n` names a task of the table in its current generation.
    pub open spec fn is_current(&self, n: TaskName) -> bool {
        &&& name_index(n.0) < self.tasks.len()
        &&& self.tasks@[name_index(n.0) as int].generation == name_generation(n.0)
    }

    /// The supervisor, the time, interrupt routing and kept panic messages
    /// are as in `o`.
    pub open spec fn keeps_globals(&self, o: &Kernel) -> bool {
        &&& self.supervisor == o.supervisor
        &&& self.now == o.now
        &&& self.irq_enabled == o.irq_enabled
        &&& self.fault_msgs@ == o.fault_msgs@
    }

    /// Memories, lease tables and kernel-wide fields are as in `o`.
    pub open spec fn same_but_tasks(&self, o: &Kernel) -> bool {
        &&& self.mems@ == o.mems@
        &&& self.leases@ == o.leases@
        &&& self.fault_msgs@ == o.fault_msgs@
        &&& self.supervisor == o.supervisor
        &&& self.now == o.now
        &&& self.next_stamp == o.next_stamp
        &&& self.irq_enabled == o.irq_enabled
    }

    /// Builds the kernel from the application table: one task per entry, each
    /// runnable in generation zero with zeroed memory of the given size.
    pub fn new(priorities: &Vec<u8>, irq_owned: &Vec<u32>, mem_sizes: &Vec<usize>, supervisor: usize) -> (r: Kernel)
        requires
            0 < priorities.len() <= MAX_TASKS,
            irq_owned.len() == priorities.len(),
            mem_sizes.len() == priorities.len(),
            supervisor < priorities.len(),
        ensures
            r.wf(),
            r.tasks.len() == priorities.len(),
            forall|i: int|
                0 <= i < r.tasks.len() ==> #[trigger] r.tasks@[i] == initial_task(
                    priorities@[i],
                    irq_owned@[i],
                ),
            forall|i: int|
                0 <= i < r.tasks.len() ==> #[trigger] r.mems@[i]@ == Seq::new(
                    mem_sizes@[i] as nat,
                    |k: int| 0u8,
                ),
            forall|i: int| 0 <= i < r.tasks.len() ==> (#[trigger] r.leases@[i])@.len() == 0,
            r.supervisor == supervisor,
            r.now == 0,
            r.irq_enabled == 0,
    {
        let n = priorities.len();
        let mut tasks: Vec<Task> = Vec::new();
        let mut mems: Vec<Vec<u8>> = Vec::new();
        let mut leases: Vec<Vec<Lease>> = Vec::new();
        let mut fault_msgs: Vec<Vec<u8>> = Vec::new();
        let mut i: usize = 0;
        while i < n
            invariant
                i <= n,
                n == priorities.len(),
                irq_owned.len() == n,
                mem_sizes.len() == n,
                tasks.len() == i,
                mems.len() == i,
                leases.len() == i,
                fault_msgs.len() == i,
                forall|j: int|
                    0 <= j < i ==> #[trigger] tasks@[j] == initial_task(priorities@[j], irq_owned@[j]),
                forall|j: int|
                    0 <= j < i ==> #[trigger] mems@[j]@ == Seq::new(mem_sizes@[j] as nat, |k: int| 0u8),
                forall|j: int| 0 <= j < i ==> (#[trigger] leases@[j])@.len() == 0,
            decreases n - i,
        {
            let size = mem_sizes[i];
            let mut m: Vec<u8> = Vec::new();
            let mut k: usize = 0;
            while k < size
                invariant
                    k <= size,
                    m@ == Seq::new(k as nat, |x: int| 0u8),
                decreases size - k,
            {
                m.push(0u8);
                k = k + 1;
                assert(m@ =~= Seq::new(k as nat, |x: int| 0u8));
            }
            tasks.push(
                Task {
                    state: TaskState::Runnable,
                    generation: 0,
                    priority: priorities[i],
                    irq_owned: irq_owned[i],
                    pending: 0,
                    recv_mask: 0,
                    recv_addr: 0,
                    recv_len: 0,
                    timer_deadline: None,
                    timer_bits: 0,
                    send_operation: 0,
                    out_addr: 0,
                    out_len: 0,
                    in_addr: 0,
                    in_len: 0,
                    send_stamp: 0,
                    ret: SyscallReturn::Nothing,
                },
            );
            mems.push(m);
            leases.push(Vec::new());
            fault_msgs.push(Vec::new());
            i = i + 1;
        }
        Kernel {
            tasks,
            mems,
            leases,
            fault_msgs,
            supervisor,
            now: 0,
            next_stamp: 0,
            irq_enabled: 0,
        }
    }

    /// The current name of the task at index `i`.
    pub fn current_name(&self, i: usize) -> (r: TaskName)
        requires
            self.wf(),
            i < self.tasks.len(),
        ensures
            r == self.name_of(i as int),
            name_index(r.0) == i,
            name_generation(r.0) == self.tasks@[i as int].generation,
    {
        TaskName::for_index_and_gen(i, self.tasks[i].generation)
    }

    /// Tells whether `n` names a task of the table in its current generation.
    pub fn is_current_name(&self, n: TaskName) -> (r: bool)
        requires
            self.wf(),
        ensures
            r == self.is_current(n),
    {
        let i = n.index();
        i < self.tasks.len() && self.tasks[i].generation == n.generation()
    }

    /// A copy of the record of task `i`.
    pub fn task(&self, i: usize) -> (r: Task)
        requires
            i < self.tasks.len(),
        ensures
            r == self.tasks@[i as int],
    {
        self.tasks[i]
    }

    /// The memory of task `i`.
    pub fn memory(&self, i: usize) -> (r: &Vec<u8>)
        requires
            i < self.mems.len(),
        ensures
            r@ == self.mems@[i as int]@,
    {
        &self.mems[i]
    }

    /// Copies `n` bytes of task `src`'s memory at `from` into task `dst`'s at `at`.
    pub(crate) fn copy_between(&mut self, src: usize, from: usize, dst: usize, at: usize, n: usize)
        requires
            old(self).wf(),
            src < old(self).tasks.len(),
            dst < old(self).tasks.len(),
            src != dst,
            from + n <= old(self).mems@[src as int].len(),
            at + n <= old(self).mems@[dst as int].len(),
        ensures
            final(self).tasks@ == old(self).tasks@,
            final(self).leases@ == old(self).leases@,
            final(self).fault_msgs@ == old(self).fault_msgs@,
            final(self).mems.len() == old(self).mems.len(),
            final(self).mems@[dst as int]@ == spliced(
                old(self).mems@[dst as int]@,
                at as int,
                old(self).mems@[src as int]@,
                from as int,
                n as int,
            ),
            forall|j: int|
                0 <= j < old(self).mems.len() && j != dst ==> #[trigger] final(self).mems@[j]
                    == old(self).mems@[j],
            final(self).supervisor == old(self).supervisor,
            final(self).now == old(self).now,
            final(self).next_stamp == old(self).next_stamp,
            final(self).irq_enabled == old(self).irq_enabled,
            final(self).wf(),
    {
        let mut d: Vec<u8> = Vec::new();
        self.mems.set_and_swap(dst, &mut d);
        write_bytes(&mut d, at, &self.mems[src], from, n);
        self.mems.set_and_swap(dst, &mut d);
        assert forall|i: int| 0 <= i < self.tasks.len() implies task_wf(
            #[trigger] self.tasks@[i],
            self.tasks.len() as int,
            self.mems@[i].len() as int,
            self.leases@[i]@,
        ) by {
            assert(self.mems@[i].len() == old(self).mems@[i].len());
        }
    }

    /// Loads `data` into task `i`'s memory at `addr`, as the image loader does.
    pub fn load(&mut self, i: usize, addr: usize, data: &Vec<u8>)
        requires
            old(self).wf(),
            i < old(self).tasks.len(),
            addr + data.len() <= old(self).mems@[i as int].len(),
        ensures
            final(self).wf(),
            final(self).tasks@ == old(self).tasks@,
            final(self).leases@ == old(self).leases@,
            final(self).keeps_globals(old(self)),
            final(self).next_stamp == old(self).next_stamp,
            final(self).mems.len() == old(self).mems.len(),
            final(self).mems@[i as int]@ == spliced(
                old(self).mems@[i as int]@,
                addr as int,
                data@,
                0,
                data.len() as int,
            ),
            forall|j: int|
                0 <= j < old(self).mems.len() && j != i ==> #[trigger] final(self).mems@[j]
                    == old(self).mems@[j],
    {
        let mut d: Vec<u8> = Vec::new();
        self.mems.set_and_swap(i, &mut d);
        write_bytes(&mut d, addr, data, 0, data.len());
        self.mems.set_and_swap(i, &mut d);
        assert forall|j: int| 0 <= j < self.tasks.len() implies task_wf(
            #[trigger] self.tasks@[j],
            self.tasks.len() as int,
            self.mems@[j].len() as int,
            self.leases@[j]@,
        ) by {
            assert(self.mems@[j].len() == old(self).mems@[j].len());
        }
    }

    /// Picks the task to run: the runnable task with the numerically lowest
    /// priority, ties going to the lowest index; `None` when none is runnable.
    pub fn select_next(&self) -> (r: Option<usize>)
        ensures
            r is Some ==> scheduled(self.tasks@, r->0 as int),
            r is None ==> forall|j: int|
                0 <= j < self.tasks.len() ==> !((#[trigger] self.tasks@[j]).state is Runnable),
    {
        let mut best: Option<usize> = None;
        let mut i: usize = 0;
        while i < self.tasks.len()
            invariant
                i <= self.tasks.len(),
                best is None ==> forall|j: int|
                    0 <= j < i ==> !((#[trigger] self.tasks@[j]).state is Runnable),
                best is Some ==> {
                    let b = best->0 as int;
                    &&& 0 <= b < i
                    &&& self.tasks@[b].state is Runnable
                    &&& forall|j: int|
                        0 <= j < i && (#[trigger] self.tasks@[j]).state is Runnable
                            ==> self.tasks@[b].priority < self.tasks@[j].priority || (
                        self.tasks@[b].priority == self.tasks@[j].priority && b <= j)
                },
            decreases self.tasks.len() - i,
        {
            if matches!(self.tasks[i].state, TaskState::Runnable) {
                match best {
                    None => {
                        best = Some(i);
                    },
                    Some(b) => {
                        if self.tasks[i].priority < self.tasks[b].priority {
                            best = Some(i);
                        }
                    },
                }
            }
            i = i + 1;
        }
        best
    }

    /// Posts `bits` to task `i`: they accumulate in its pending set, and if it
    /// is in RECV with any of them unmasked it receives them as a notification.
    pub fn post_index(&mut self, i: usize, bits: u32)
        requires
            old(self).wf(),
            i < old(self).tasks.len(),
        ensures
            final(self).wf(),
            final(self).same_but_tasks(old(self)),
            final(self).tasks@ == old(self).tasks@.update(
                i as int,
                posted(old(self).tasks@[i as int], bits),
            ),
    {
        let mut t = self.tasks[i];
        t.pending = t.pending | bits;
        if matches!(t.state, TaskState::BlockedInRecv(_)) && t.pending & t.recv_mask != 0 {
            let op: u32 = t.pending & t.recv_mask;
            t.ret = SyscallReturn::Recv(
                RecvMessage {
                    sender: TaskName(KERNEL_NAME),
                    operation: op,
                    message_len: 0,
                    response_capacity: 0,
                    lease_count: 0,
                },
            );
            t.pending = t.pending & !t.recv_mask;
            t.state = TaskState::Runnable;
        }
        self.tasks.set(i, t);
        assert(task_wf(
            self.tasks@[i as int],
            self.tasks.len() as int,
            self.mems@[i as int].len() as int,
            self.leases@[i as int]@,
        ));
    }
}

} // verus!
