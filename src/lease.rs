//! Borrowing from a client's leases while the client awaits a reply.
use vstd::prelude::*;
use crate::abi::{
    name_index, TaskName, LEASE_READ, LEASE_WRITE, RC_DEFUNCT_LENDER, RC_DENIED, RC_OK,
    RC_OUT_OF_RANGE,
};
use crate::ipc::{faulted_tasks, min};
use crate::kernel::{range_ok, spliced, task_wf, Kernel};
use crate::task::{BorrowInfo, FaultKind, Lease, TaskState};

verus! {

impl Kernel {
    /// `lender` is current and awaits the reply of task `caller`, so its
    /// leases are open to `caller`.
    pub open spec fn lends_to(&self, lender: TaskName, caller: int) -> bool {
        &&& self.is_current(lender)
        &&& self.tasks@[name_index(lender.0) as int].state == TaskState::BlockedInReply(
            self.name_of(caller),
        )
    }

    /// Lease `index` of the task named `lender`.
    pub open spec fn lease_at(&self, lender: TaskName, index: int) -> Lease {
        self.leases@[name_index(lender.0) as int]@[index]
    }

    /// Tells whether `lender` currently lends to `caller`.
    fn check_lender(&self, caller: usize, lender: TaskName) -> (r: bool)
        requires
            self.wf(),
            caller < self.tasks.len(),
        ensures
            r == self.lends_to(lender, caller as int),
    {
        if !self.is_current_name(lender) {
            return false;
        }
        let me = self.current_name(caller);
        self.tasks[lender.index()].state == TaskState::BlockedInReply(me)
    }
}

/// The `(rc, len)` outcome of a borrow by `caller` of `n` bytes at `offset`
/// in lease `index` of `lender`, needing attribute bit `need`, when the
/// caller's arguments are valid.
pub open spec fn borrow_outcome(
    k: Kernel,
    caller: int,
    lender: TaskName,
    index: usize,
    offset: usize,
    n: usize,
    need: u32,
) -> (u32, usize) {
    if !k.lends_to(lender, caller) {
        (RC_DEFUNCT_LENDER, 0)
    } else if index >= k.leases@[name_index(lender.0) as int].len() {
        (RC_OUT_OF_RANGE, 0)
    } else if k.lease_at(lender, index as int).attributes & need == 0 {
        (RC_DENIED, 0)
    } else if offset > k.lease_at(lender, index as int).length {
        (RC_OUT_OF_RANGE, 0)
    } else {
        (RC_OK, min(n as int, k.lease_at(lender, index as int).length - offset) as usize)
    }
}

/// BORROW_READ by `caller`: copies from lease `index` of `lender`, starting
/// `offset` bytes in, into `[dest_addr, dest_addr + dest_len)` of the caller's
/// memory, as much as both the lease and the buffer hold. Returns `(rc, len)`;
/// `None` when the caller faulted on a bad buffer.
pub fn sys_borrow_read(
    k: &mut Kernel,
    caller: usize,
    lender: TaskName,
    index: usize,
    offset: usize,
    dest_addr: usize,
    dest_len: usize,
) -> (r: Option<(u32, usize)>)
    requires
        old(k).wf(),
        caller < old(k).tasks.len(),
        old(k).tasks@[caller as int].state is Runnable,
    ensures
        final(k).wf(),
        final(k).supervisor == old(k).supervisor,
        final(k).now == old(k).now,
        final(k).keeps_globals(old(k)),
        final(k).next_stamp == old(k).next_stamp,
        final(k).leases@ == old(k).leases@,
        final(k).mems.len() == old(k).mems.len(),
        !range_ok(old(k).mems@[caller as int].len() as int, dest_addr as int, dest_len as int) ==> {
            &&& r is None
            &&& final(k).tasks@ == faulted_tasks(
                old(k).tasks@,
                caller as int,
                FaultKind::BadArgument { address: dest_addr, len: dest_len },
                old(k).supervisor as int,
            )
            &&& final(k).mems@ == old(k).mems@
        },
        range_ok(old(k).mems@[caller as int].len() as int, dest_addr as int, dest_len as int) ==> {
            let o = borrow_outcome(*old(k), caller as int, lender, index, offset, dest_len, LEASE_READ);
            let l = old(k).lease_at(lender, index as int);
            &&& r == Some(o)
            &&& final(k).tasks@ == old(k).tasks@
            &&& o.0 == RC_OK ==> final(k).mems@[caller as int]@ == spliced(
                old(k).mems@[caller as int]@,
                dest_addr as int,
                old(k).mems@[name_index(lender.0) as int]@,
                l.base_address + offset,
                o.1 as int,
            )
            &&& o.0 != RC_OK ==> final(k).mems@ == old(k).mems@
            &&& forall|m: int|
                0 <= m < old(k).mems.len() && m != caller ==> #[trigger] final(k).mems@[m]
                    == old(k).mems@[m]
        },
{
    let mem_len = k.mems[caller].len();
    if dest_addr > mem_len || dest_len > mem_len - dest_addr {
        k.fault(caller, FaultKind::BadArgument { address: dest_addr, len: dest_len });
        return None;
    }
    if !k.check_lender(caller, lender) {
        return Some((RC_DEFUNCT_LENDER, 0));
    }
    let li = lender.index();
    if index >= k.leases[li].len() {
        return Some((RC_OUT_OF_RANGE, 0));
    }
    let l = k.leases[li][index];
    if l.attributes & LEASE_READ == 0 {
        return Some((RC_DENIED, 0));
    }
    if offset > l.length as usize {
        return Some((RC_OUT_OF_RANGE, 0));
    }
    let avail: usize = l.length as usize - offset;
    let n: usize = if dest_len < avail { dest_len } else { avail };
    assert(task_wf(
        k.tasks@[li as int],
        k.tasks.len() as int,
        k.mems@[li as int].len() as int,
        k.leases@[li as int]@,
    ));
    assert(crate::kernel::lease_ok(k.leases@[li as int]@[index as int], k.mems@[li as int].len() as int));
    k.copy_between(li, l.base_address as usize + offset, caller, dest_addr, n);
    Some((RC_OK, n))
}

/// BORROW_WRITE by `caller`: copies `[src_addr, src_addr + src_len)` of the
/// caller's memory into lease `index` of `lender`, starting `offset` bytes in,
/// as much as the lease holds. Returns `(rc, len)`; `None` when the caller
/// faulted on a bad buffer.
pub fn sys_borrow_write(
    k: &mut Kernel,
    caller: usize,
    lender: TaskName,
    index: usize,
    offset: usize,
    src_addr: usize,
    src_len: usize,
) -> (r: Option<(u32, usize)>)
    requires
        old(k).wf(),
        caller < old(k).tasks.len(),
        old(k).tasks@[caller as int].state is Runnable,
    ensures
        final(k).wf(),
        final(k).supervisor == old(k).supervisor,
        final(k).now == old(k).now,
        final(k).keeps_globals(old(k)),
        final(k).next_stamp == old(k).next_stamp,
        final(k).leases@ == old(k).leases@,
        final(k).mems.len() == old(k).mems.len(),
        !range_ok(old(k).mems@[caller as int].len() as int, src_addr as int, src_len as int) ==> {
            &&& r is None
            &&& final(k).tasks@ == faulted_tasks(
                old(k).tasks@,
                caller as int,
                FaultKind::BadArgument { address: src_addr, len: src_len },
                old(k).supervisor as int,
            )
            &&& final(k).mems@ == old(k).mems@
        },
        range_ok(old(k).mems@[caller as int].len() as int, src_addr as int, src_len as int) ==> {
            let o = borrow_outcome(*old(k), caller as int, lender, index, offset, src_len, LEASE_WRITE);
            let l = old(k).lease_at(lender, index as int);
            let li = name_index(lender.0) as int;
            &&& r == Some(o)
            &&& final(k).tasks@ == old(k).tasks@
            &&& o.0 == RC_OK ==> final(k).mems@[li]@ == spliced(
                old(k).mems@[li]@,
                l.base_address + offset,
                old(k).mems@[caller as int]@,
                src_addr as int,
                o.1 as int,
            )
            &&& o.0 == RC_OK ==> forall|m: int|
                0 <= m < old(k).mems.len() && m != li ==> #[trigger] final(k).mems@[m]
                    == old(k).mems@[m]
            &&& o.0 != RC_OK ==> final(k).mems@ == old(k).mems@
        },
{
    let mem_len = k.mems[caller].len();
    if src_addr > mem_len || src_len > mem_len - src_addr {
        k.fault(caller, FaultKind::BadArgument { address: src_addr, len: src_len });
        return None;
    }
    if !k.check_lender(caller, lender) {
        return Some((RC_DEFUNCT_LENDER, 0));
    }
    let li = lender.index();
    if index >= k.leases[li].len() {
        return Some((RC_OUT_OF_RANGE, 0));
    }
    let l = k.leases[li][index];
    if l.attributes & LEASE_WRITE == 0 {
        return Some((RC_DENIED, 0));
    }
    if offset > l.length as usize {
        return Some((RC_OUT_OF_RANGE, 0));
    }
    let avail: usize = l.length as usize - offset;
    let n: usize = if src_len < avail { src_len } else { avail };
    assert(task_wf(
        k.tasks@[li as int],
        k.tasks.len() as int,
        k.mems@[li as int].len() as int,
        k.leases@[li as int]@,
    ));
    assert(crate::kernel::lease_ok(k.leases@[li as int]@[index as int], k.mems@[li as int].len() as int));
    k.copy_between(caller, src_addr, li, l.base_address as usize + offset, n);
    Some((RC_OK, n))
}

/// BORROW_INFO by `caller`: the attributes and length of lease `index` of
/// `lender`, or `None` when the lender does not lend to the caller or has no
/// such lease.
pub fn sys_borrow_info(k: &Kernel, caller: usize, lender: TaskName, index: usize) -> (r: Option<BorrowInfo>)
    requires
        k.wf(),
        caller < k.tasks.len(),
    ensures
        k.lends_to(lender, caller as int) && index < k.leases@[name_index(lender.0) as int].len()
            ==> r == Some(BorrowInfo {
                attributes: k.lease_at(lender, index as int).attributes,
                len: k.lease_at(lender, index as int).length as usize,
            }),
        !(k.lends_to(lender, caller as int) && index < k.leases@[name_index(lender.0) as int].len())
            ==> r is None,
{
    if !k.check_lender(caller, lender) {
        return None;
    }
    let li = lender.index();
    if index >= k.leases[li].len() {
        return None;
    }
    let l = k.leases[li][index];
    Some(BorrowInfo { attributes: l.attributes, len: l.length as usize })
}

} // verus!
