//! Syscall entry: decoding the syscall number and argument registers, and
//! handing the decoded call to the operation it names.
use vstd::prelude::*;
use crate::abi::TaskName;
use crate::abi::{name_index, LEASE_READ, LEASE_WRITE, RC_OK};
use crate::ipc::{faulted_tasks, min, recv_effect, reply_effect, send_effect, sys_recv, sys_reply, sys_send};
use crate::kernel::{range_ok, spliced, Kernel, PANIC_MESSAGE_MAX};
use crate::lease::{borrow_outcome, sys_borrow_info, sys_borrow_read, sys_borrow_write};
use crate::task::{BorrowInfo, FaultKind, Lease, TimerState};
use crate::timer::{sys_get_timer, sys_post, sys_refresh_task_id, sys_set_timer, timer_set};
use crate::kernel::posted;
use crate::control::{sys_irq_control, sys_panic};

verus! {

/// Size in bytes of one lease table entry: attributes, base and length, each
/// a little-endian 32-bit word.
pub const LEASE_ENTRY_SIZE: usize = 12;

/// A syscall with its arguments decoded.
#[derive(Clone, Copy, Debug, PartialEq, Eq, Structural)]
pub enum Syscall {
    Send {
        target: TaskName,
        operation: u16,
        out_addr: usize,
        out_len: usize,
        in_addr: usize,
        in_len: usize,
        lease_addr: usize,
        lease_count: usize,
    },
    Recv { buf_addr: usize, buf_len: usize, mask: u32, sender: Option<TaskName> },
    Reply { peer: TaskName, code: u32, msg_addr: usize, msg_len: usize },
    SetTimer { deadline: Option<u64>, bits: u32 },
    GetTimer,
    BorrowRead { lender: TaskName, index: usize, offset: usize, addr: usize, len: usize },
    BorrowWrite { lender: TaskName, index: usize, offset: usize, addr: usize, len: usize },
    BorrowInfo { lender: TaskName, index: usize },
    IrqControl { mask: u32, enable: bool },
    Panic { msg_addr: usize, msg_len: usize },
    RefreshTaskId { task: TaskName },
    Post { task: TaskName, bits: u32 },
}

/// The task name carried in the low half of a register.
pub open spec fn name_in(w: u32) -> TaskName {
    TaskName((w % 65536) as u16)
}

/// The call that syscall `number` with argument registers `a` denotes, or
/// `None` for a number that is not a syscall.
pub open spec fn decoded(number: u32, a: Seq<u32>) -> Option<Syscall> {
    if number == 0 {
        Some(Syscall::Send {
            target: TaskName((a[0] / 65536) as u16),
            operation: (a[0] % 65536) as u16,
            out_addr: a[1] as usize,
            out_len: a[2] as usize,
            in_addr: a[3] as usize,
            in_len: a[4] as usize,
            lease_addr: a[5] as usize,
            lease_count: a[6] as usize,
        })
    } else if number == 1 {
        Some(Syscall::Recv {
            buf_addr: a[0] as usize,
            buf_len: a[1] as usize,
            mask: a[2],
            sender: if a[3] >= 0x8000_0000 { Some(name_in(a[3])) } else { None },
        })
    } else if number == 2 {
        Some(Syscall::Reply { peer: name_in(a[0]), code: a[1], msg_addr: a[2] as usize, msg_len: a[3] as usize })
    } else if number == 3 {
        Some(Syscall::SetTimer {
            deadline: if a[0] != 0 { Some((a[2] * 0x1_0000_0000 + a[1]) as u64) } else { None },
            bits: a[3],
        })
    } else if number == 4 {
        Some(Syscall::GetTimer)
    } else if number == 5 {
        Some(Syscall::BorrowRead {
            lender: name_in(a[0]),
            index: a[1] as usize,
            offset: a[2] as usize,
            addr: a[3] as usize,
            len: a[4] as usize,
        })
    } else if number == 6 {
        Some(Syscall::BorrowWrite {
            lender: name_in(a[0]),
            index: a[1] as usize,
            offset: a[2] as usize,
            addr: a[3] as usize,
            len: a[4] as usize,
        })
    } else if number == 7 {
        Some(Syscall::BorrowInfo { lender: name_in(a[0]), index: a[1] as usize })
    } else if number == 8 {
        Some(Syscall::IrqControl { mask: a[0], enable: a[1] != 0 })
    } else if number == 9 {
        Some(Syscall::Panic { msg_addr: a[0] as usize, msg_len: a[1] as usize })
    } else if number == 10 {
        Some(Syscall::RefreshTaskId { task: name_in(a[0]) })
    } else if number == 11 {
        Some(Syscall::Post { task: name_in(a[0]), bits: a[1] })
    } else {
        None
    }
}

fn name_from_word(w: u32) -> (r: TaskName)
    ensures
        r == name_in(w),
{
    let v: u32 = w & 0xFFFFu32;
    assert(v == w % 65536) by (bit_vector)
        requires
            v == w & 0xFFFFu32,
    ;
    TaskName(v as u16)
}

/// Decodes syscall `number` and its argument registers.
pub fn decode_syscall(number: u32, a: [u32; 7]) -> (r: Option<Syscall>)
    ensures
        r == decoded(number, a@),
{
    if number == 0 {
        let (target, operation) = crate::abi::unpack_target_operation(a[0]);
        Some(Syscall::Send {
            target,
            operation,
            out_addr: a[1] as usize,
            out_len: a[2] as usize,
            in_addr: a[3] as usize,
            in_len: a[4] as usize,
            lease_addr: a[5] as usize,
            lease_count: a[6] as usize,
        })
    } else if number == 1 {
        Some(Syscall::Recv {
            buf_addr: a[0] as usize,
            buf_len: a[1] as usize,
            mask: a[2],
            sender: crate::abi::unpack_recv_sender(a[3]),
        })
    } else if number == 2 {
        Some(Syscall::Reply { peer: name_from_word(a[0]), code: a[1], msg_addr: a[2] as usize, msg_len: a[3] as usize })
    } else if number == 3 {
        let deadline = if a[0] != 0 { Some(crate::abi::join_u64(a[1], a[2])) } else { None };
        Some(Syscall::SetTimer { deadline, bits: a[3] })
    } else if number == 4 {
        Some(Syscall::GetTimer)
    } else if number == 5 {
        Some(Syscall::BorrowRead {
            lender: name_from_word(a[0]),
            index: a[1] as usize,
            offset: a[2] as usize,
            addr: a[3] as usize,
            len: a[4] as usize,
        })
    } else if number == 6 {
        Some(Syscall::BorrowWrite {
            lender: name_from_word(a[0]),
            index: a[1] as usize,
            offset: a[2] as usize,
            addr: a[3] as usize,
            len: a[4] as usize,
        })
    } else if number == 7 {
        Some(Syscall::BorrowInfo { lender: name_from_word(a[0]), index: a[1] as usize })
    } else if number == 8 {
        Some(Syscall::IrqControl { mask: a[0], enable: a[1] != 0 })
    } else if number == 9 {
        Some(Syscall::Panic { msg_addr: a[0] as usize, msg_len: a[1] as usize })
    } else if number == 10 {
        Some(Syscall::RefreshTaskId { task: name_from_word(a[0]) })
    } else if number == 11 {
        Some(Syscall::Post { task: name_from_word(a[0]), bits: a[1] })
    } else {
        None
    }
}

/// The little-endian 32-bit word at `at` in `s`.
pub open spec fn le_word(s: Seq<u8>, at: int) -> u32 {
    (s[at] + s[at + 1] * 256 + s[at + 2] * 65536 + s[at + 3] * 16777216) as u32
}

/// The lease table entry at `at` in `s`.
pub open spec fn lease_entry(s: Seq<u8>, at: int) -> Lease {
    Lease { attributes: le_word(s, at), base_address: le_word(s, at + 4), length: le_word(s, at + 8) }
}

fn read_word(s: &Vec<u8>, at: usize) -> (r: u32)
    requires
        at + 4 <= s.len(),
    ensures
        r == le_word(s@, at as int),
{
    let b0: u32 = s[at] as u32;
    let b1: u32 = s[at + 1] as u32;
    let b2: u32 = s[at + 2] as u32;
    let b3: u32 = s[at + 3] as u32;
    let r: u32 = b0 | (b1 << 8u32) | (b2 << 16u32) | (b3 << 24u32);
    assert(r == b0 + b1 * 256 + b2 * 65536 + b3 * 16777216) by (bit_vector)
        requires
            r == b0 | (b1 << 8u32) | (b2 << 16u32) | (b3 << 24u32),
            b0 < 256,
            b1 < 256,
            b2 < 256,
            b3 < 256,
    ;
    r
}

/// Reads `count` lease table entries starting at `addr` of `mem`; `None`
/// when the table does not lie within `mem`.
pub fn read_lease_table(mem: &Vec<u8>, addr: usize, count: usize) -> (r: Option<Vec<Lease>>)
    ensures
        !range_ok(mem.len() as int, addr as int, count * LEASE_ENTRY_SIZE) ==> r is None,
        range_ok(mem.len() as int, addr as int, count * LEASE_ENTRY_SIZE) ==> r is Some && r->0@.len()
            == count && forall|i: int|
            0 <= i < count ==> (#[trigger] r->0@[i]) == lease_entry(
                mem@,
                addr + i * LEASE_ENTRY_SIZE,
            ),
{
    if addr > mem.len() || count > (mem.len() - addr) / LEASE_ENTRY_SIZE {
        proof {
            if addr <= mem.len() {
                let q = (mem.len() - addr) as int / 12;
                assert(count >= q + 1);
                assert(count * 12 >= (q + 1) * 12) by (nonlinear_arith)
                    requires count >= q + 1;
                assert((q + 1) * 12 > mem.len() - addr);
            }
        }
        return None;
    }
    proof {
        let q = (mem.len() - addr) as int / 12;
        assert(count * 12 <= q * 12) by (nonlinear_arith)
            requires count <= q;
        assert(q * 12 <= mem.len() - addr);
    }
    let mut out: Vec<Lease> = Vec::new();
    let mut i: usize = 0;
    while i < count
        invariant
            i <= count,
            addr + count * 12 <= mem.len(),
            out@.len() == i,
            forall|j: int| 0 <= j < i ==> (#[trigger] out@[j]) == lease_entry(mem@, addr + j * 12),
        decreases count - i,
    {
        assert(addr + i * 12 + 12 <= mem.len()) by (nonlinear_arith)
            requires addr + count * 12 <= mem.len(), i < count;
        let at: usize = addr + i * LEASE_ENTRY_SIZE;
        let l = Lease {
            attributes: read_word(mem, at),
            base_address: read_word(mem, at + 4),
            length: read_word(mem, at + 8),
        };
        out.push(l);
        i = i + 1;
    }
    Some(out)
}

/// What a syscall hands back at once. Blocking calls leave their result in
/// the caller's saved return slot instead (`Deferred`).
#[derive(Clone, Copy, Debug, PartialEq, Eq, Structural)]
pub enum Immediate {
    Deferred,
    RcLen(u32, usize),
    Info(Option<BorrowInfo>),
    Timer(TimerState),
    Word(u32),
    Name(TaskName),
    /// The caller faulted.
    Faulted,
}

/// The lease table of `count` entries at `addr` of `mem`.
pub open spec fn table_leases(mem: Seq<u8>, addr: usize, count: usize) -> Seq<Lease> {
    Seq::new(count as nat, |i: int| lease_entry(mem, addr + i * LEASE_ENTRY_SIZE))
}

/// The caller `me` faulted with `kind` and got no result.
pub open spec fn faults_with(o: Kernel, f: Kernel, me: int, r: Immediate, kind: FaultKind) -> bool {
    &&& r == Immediate::Faulted
    &&& f.tasks@ == faulted_tasks(o.tasks@, me, kind, o.supervisor as int)
    &&& f.same_but_tasks(&o)
}

/// Only the memory of task `me` may have changed, besides what the caller
/// states of the task table.
pub open spec fn only_memory_of(o: Kernel, f: Kernel, me: int) -> bool {
    &&& f.leases@ == o.leases@
    &&& f.keeps_globals(&o)
    &&& f.next_stamp == o.next_stamp
    &&& f.mems.len() == o.mems.len()
    &&& forall|m: int| 0 <= m < o.mems.len() && m != me ==> #[trigger] f.mems@[m] == o.mems@[m]
}

/// The effect and immediate result `r` of syscall `number` with argument
/// registers `a` by `caller`, relating the kernel before (`o`) and after (`f`).
pub open spec fn dispatched(o: Kernel, f: Kernel, caller: usize, number: u32, a: Seq<u32>, r: Immediate) -> bool {
    let me = caller as int;
    match decoded(number, a) {
        None => faults_with(o, f, me, r, FaultKind::BadSyscall { number }),
        Some(Syscall::Send { target, operation, out_addr, out_len, in_addr, in_len, lease_addr, lease_count }) => {
            if range_ok(o.mems@[me].len() as int, lease_addr as int, lease_count * LEASE_ENTRY_SIZE) {
                &&& r == Immediate::Deferred
                &&& send_effect(
                    o,
                    f,
                    caller,
                    target,
                    operation,
                    out_addr,
                    out_len,
                    in_addr,
                    in_len,
                    table_leases(o.mems@[me]@, lease_addr, lease_count),
                )
            } else {
                faults_with(o, f, me, r, FaultKind::BadLease)
            }
        },
        Some(Syscall::Recv { buf_addr, buf_len, mask, sender }) => {
            r == Immediate::Deferred && recv_effect(o, f, caller, buf_addr, buf_len, mask, sender)
        },
        Some(Syscall::Reply { peer, code, msg_addr, msg_len }) => {
            r == Immediate::Deferred && reply_effect(o, f, caller, peer, code, msg_addr, msg_len)
        },
        Some(Syscall::SetTimer { deadline, bits }) => {
            &&& r == Immediate::Deferred
            &&& f.tasks@ == o.tasks@.update(me, timer_set(o.tasks@[me], deadline, bits, o.now))
            &&& f.same_but_tasks(&o)
        },
        Some(Syscall::GetTimer) => {
            &&& r == Immediate::Timer(
                TimerState {
                    now: o.now,
                    deadline: o.tasks@[me].timer_deadline,
                    on_dl: o.tasks@[me].timer_bits,
                },
            )
            &&& f.tasks@ == o.tasks@
            &&& f.same_but_tasks(&o)
        },
        Some(Syscall::BorrowRead { lender, index, offset, addr, len }) => {
            if range_ok(o.mems@[me].len() as int, addr as int, len as int) {
                let (rc, n) = borrow_outcome(o, me, lender, index, offset, len, LEASE_READ);
                let l = o.lease_at(lender, index as int);
                &&& r == Immediate::RcLen(rc, n)
                &&& f.tasks@ == o.tasks@
                &&& only_memory_of(o, f, me)
                &&& rc == RC_OK ==> f.mems@[me]@ == spliced(
                    o.mems@[me]@,
                    addr as int,
                    o.mems@[name_index(lender.0) as int]@,
                    l.base_address + offset,
                    n as int,
                )
                &&& rc != RC_OK ==> f.mems@ == o.mems@
            } else {
                faults_with(o, f, me, r, FaultKind::BadArgument { address: addr, len })
            }
        },
        Some(Syscall::BorrowWrite { lender, index, offset, addr, len }) => {
            if range_ok(o.mems@[me].len() as int, addr as int, len as int) {
                let (rc, n) = borrow_outcome(o, me, lender, index, offset, len, LEASE_WRITE);
                let l = o.lease_at(lender, index as int);
                let li = name_index(lender.0) as int;
                &&& r == Immediate::RcLen(rc, n)
                &&& f.tasks@ == o.tasks@
                &&& rc == RC_OK ==> only_memory_of(o, f, li)
                &&& rc == RC_OK ==> f.mems@[li]@ == spliced(
                    o.mems@[li]@,
                    l.base_address + offset,
                    o.mems@[me]@,
                    addr as int,
                    n as int,
                )
                &&& rc != RC_OK ==> f.same_but_tasks(&o)
            } else {
                faults_with(o, f, me, r, FaultKind::BadArgument { address: addr, len })
            }
        },
        Some(Syscall::BorrowInfo { lender, index }) => {
            &&& f.tasks@ == o.tasks@
            &&& f.same_but_tasks(&o)
            &&& r == Immediate::Info(
                if o.lends_to(lender, me) && index < o.leases@[name_index(lender.0) as int].len() {
                    Some(
                        BorrowInfo {
                            attributes: o.lease_at(lender, index as int).attributes,
                            len: o.lease_at(lender, index as int).length as usize,
                        },
                    )
                } else {
                    None
                },
            )
        },
        Some(Syscall::IrqControl { mask, enable }) => {
            if mask & !o.tasks@[me].irq_owned != 0 {
                faults_with(o, f, me, r, FaultKind::IrqNotOwned { mask })
            } else {
                &&& r == Immediate::Deferred
                &&& f.tasks@ == o.tasks@
                &&& f.mems@ == o.mems@
                &&& f.leases@ == o.leases@
                &&& f.fault_msgs@ == o.fault_msgs@
                &&& f.supervisor == o.supervisor
                &&& f.now == o.now
                &&& f.next_stamp == o.next_stamp
                &&& f.irq_enabled == if enable {
                    o.irq_enabled | mask
                } else {
                    o.irq_enabled & !mask
                }
            }
        },
        Some(Syscall::Panic { msg_addr, msg_len }) => {
            if range_ok(o.mems@[me].len() as int, msg_addr as int, msg_len as int) {
                &&& r == Immediate::Faulted
                &&& f.tasks@ == faulted_tasks(o.tasks@, me, FaultKind::Panic, o.supervisor as int)
                &&& f.mems@ == o.mems@
                &&& f.leases@ == o.leases@
                &&& f.supervisor == o.supervisor
                &&& f.now == o.now
                &&& f.irq_enabled == o.irq_enabled
                &&& f.next_stamp == o.next_stamp
                &&& f.fault_msgs.len() == o.fault_msgs.len()
                &&& f.fault_msgs@[me]@ == o.mems@[me]@.subrange(
                    msg_addr as int,
                    msg_addr + min(msg_len as int, PANIC_MESSAGE_MAX as int),
                )
                &&& forall|j: int|
                    0 <= j < o.fault_msgs.len() && j != me ==> #[trigger] f.fault_msgs@[j]
                        == o.fault_msgs@[j]
            } else {
                faults_with(o, f, me, r, FaultKind::BadArgument { address: msg_addr, len: msg_len })
            }
        },
        Some(Syscall::RefreshTaskId { task }) => {
            if name_index(task.0) < o.tasks.len() {
                &&& r == Immediate::Name(o.name_of(name_index(task.0) as int))
                &&& f.tasks@ == o.tasks@
                &&& f.same_but_tasks(&o)
            } else {
                faults_with(o, f, me, r, FaultKind::TaskOutOfRange)
            }
        },
        Some(Syscall::Post { task, bits }) => {
            let i = name_index(task.0) as int;
            if i >= o.tasks.len() {
                faults_with(o, f, me, r, FaultKind::TaskOutOfRange)
            } else if !o.is_current(task) {
                r == Immediate::Word(0) && f.tasks@ == o.tasks@ && f.same_but_tasks(&o)
            } else {
                &&& r == Immediate::Word(o.tasks@[i].pending)
                &&& f.tasks@ == o.tasks@.update(i, posted(o.tasks@[i], bits))
                &&& f.same_but_tasks(&o)
            }
        },
    }
}

/// Runs syscall `number` with argument registers `a` on behalf of the running
/// task `caller`. An undefined number, or a lease table outside the caller's
/// memory, faults the caller; otherwise the decoded call runs.
pub fn dispatch(k: &mut Kernel, caller: usize, number: u32, a: [u32; 7]) -> (r: Immediate)
    requires
        old(k).wf(),
        caller < old(k).tasks.len(),
        old(k).tasks@[caller as int].state is Runnable,
    ensures
        final(k).wf(),
        final(k).now == old(k).now,
        dispatched(*old(k), *final(k), caller, number, a@, r),
{
    let r = match decode_syscall(number, a) {
        None => {
            k.fault(caller, FaultKind::BadSyscall { number });
            Immediate::Faulted
        },
        Some(Syscall::Send { target, operation, out_addr, out_len, in_addr, in_len, lease_addr, lease_count }) => {
            match read_lease_table(&k.mems[caller], lease_addr, lease_count) {
                None => {
                    k.fault(caller, FaultKind::BadLease);
                    Immediate::Faulted
                },
                Some(leases) => {
                    assert(leases@ =~= table_leases(k.mems@[caller as int]@, lease_addr, lease_count));
                    sys_send(k, caller, target, operation, out_addr, out_len, in_addr, in_len, leases);
                    Immediate::Deferred
                },
            }
        },
        Some(Syscall::Recv { buf_addr, buf_len, mask, sender }) => {
            sys_recv(k, caller, buf_addr, buf_len, mask, sender);
            Immediate::Deferred
        },
        Some(Syscall::Reply { peer, code, msg_addr, msg_len }) => {
            sys_reply(k, caller, peer, code, msg_addr, msg_len);
            Immediate::Deferred
        },
        Some(Syscall::SetTimer { deadline, bits }) => {
            sys_set_timer(k, caller, deadline, bits);
            Immediate::Deferred
        },
        Some(Syscall::GetTimer) => Immediate::Timer(sys_get_timer(k, caller)),
        Some(Syscall::BorrowRead { lender, index, offset, addr, len }) => {
            match sys_borrow_read(k, caller, lender, index, offset, addr, len) {
                Some((rc, n)) => Immediate::RcLen(rc, n),
                None => Immediate::Faulted,
            }
        },
        Some(Syscall::BorrowWrite { lender, index, offset, addr, len }) => {
            match sys_borrow_write(k, caller, lender, index, offset, addr, len) {
                Some((rc, n)) => Immediate::RcLen(rc, n),
                None => Immediate::Faulted,
            }
        },
        Some(Syscall::BorrowInfo { lender, index }) => Immediate::Info(sys_borrow_info(k, caller, lender, index)),
        Some(Syscall::IrqControl { mask, enable }) => {
            let owned = k.tasks[caller].irq_owned;
            sys_irq_control(k, caller, mask, enable);
            if mask & !owned != 0 {
                Immediate::Faulted
            } else {
                Immediate::Deferred
            }
        },
        Some(Syscall::Panic { msg_addr, msg_len }) => {
            sys_panic(k, caller, msg_addr, msg_len);
            Immediate::Faulted
        },
        Some(Syscall::RefreshTaskId { task }) => match sys_refresh_task_id(k, caller, task) {
            Some(n) => Immediate::Name(n),
            None => Immediate::Faulted,
        },
        Some(Syscall::Post { task, bits }) => match sys_post(k, caller, task, bits) {
            Some(w) => Immediate::Word(w),
            None => Immediate::Faulted,
        },
    };
    r
}

} // verus!
