//! Explicit panics and interrupt routing.
use vstd::prelude::*;
use crate::ipc::{faulted_tasks, min};
use crate::kernel::{range_ok, Kernel, PANIC_MESSAGE_MAX};
use crate::task::FaultKind;

verus! {

/// PANIC by `caller` with the message at `[msg_addr, msg_addr + msg_len)`:
/// at most `PANIC_MESSAGE_MAX` bytes of it are kept, and the caller faults.
pub fn sys_panic(k: &mut Kernel, caller: usize, msg_addr: usize, msg_len: usize)
    requires
        old(k).wf(),
        caller < old(k).tasks.len(),
    ensures
        final(k).wf(),
        final(k).mems@ == old(k).mems@,
        final(k).leases@ == old(k).leases@,
        final(k).now == old(k).now,
        final(k).supervisor == old(k).supervisor,
        final(k).irq_enabled == old(k).irq_enabled,
        final(k).next_stamp == old(k).next_stamp,
        final(k).fault_msgs.len() == old(k).fault_msgs.len(),
        !range_ok(old(k).mems@[caller as int].len() as int, msg_addr as int, msg_len as int) ==> {
            &&& final(k).tasks@ == faulted_tasks(
                old(k).tasks@,
                caller as int,
                FaultKind::BadArgument { address: msg_addr, len: msg_len },
                old(k).supervisor as int,
            )
            &&& final(k).fault_msgs@ == old(k).fault_msgs@
        },
        range_ok(old(k).mems@[caller as int].len() as int, msg_addr as int, msg_len as int) ==> {
            &&& final(k).tasks@ == faulted_tasks(
                old(k).tasks@,
                caller as int,
                FaultKind::Panic,
                old(k).supervisor as int,
            )
            &&& final(k).fault_msgs@[caller as int]@ == old(k).mems@[caller as int]@.subrange(
                msg_addr as int,
                msg_addr + min(msg_len as int, PANIC_MESSAGE_MAX as int),
            )
            &&& forall|j: int|
                0 <= j < old(k).fault_msgs.len() && j != caller ==> #[trigger] final(k).fault_msgs@[j]
                    == old(k).fault_msgs@[j]
        },
{
    let mem_len = k.mems[caller].len();
    if msg_addr > mem_len || msg_len > mem_len - msg_addr {
        k.fault(caller, FaultKind::BadArgument { address: msg_addr, len: msg_len });
        return;
    }
    let n: usize = if msg_len < PANIC_MESSAGE_MAX { msg_len } else { PANIC_MESSAGE_MAX };
    let mut kept: Vec<u8> = Vec::new();
    let mut i: usize = 0;
    while i < n
        invariant
            i <= n,
            msg_addr + n <= k.mems@[caller as int].len(),
            caller < k.mems.len(),
            kept@ == k.mems@[caller as int]@.subrange(msg_addr as int, msg_addr + i),
        decreases n - i,
    {
        kept.push(k.mems[caller][msg_addr + i]);
        i = i + 1;
        assert(kept@ =~= k.mems@[caller as int]@.subrange(msg_addr as int, msg_addr + i));
    }
    k.fault_msgs.set(caller, kept);
    k.fault(caller, FaultKind::Panic);
}

/// IRQ_CONTROL by `caller`: enables or disables the interrupts in `mask`.
/// Bits the caller does not own fault it.
pub fn sys_irq_control(k: &mut Kernel, caller: usize, mask: u32, enable: bool)
    requires
        old(k).wf(),
        caller < old(k).tasks.len(),
    ensures
        final(k).wf(),
        final(k).mems@ == old(k).mems@,
        final(k).now == old(k).now,
        final(k).supervisor == old(k).supervisor,
        final(k).leases@ == old(k).leases@,
        final(k).fault_msgs@ == old(k).fault_msgs@,
        final(k).next_stamp == old(k).next_stamp,
        mask & !old(k).tasks@[caller as int].irq_owned != 0 ==> {
            &&& final(k).tasks@ == faulted_tasks(
                old(k).tasks@,
                caller as int,
                FaultKind::IrqNotOwned { mask },
                old(k).supervisor as int,
            )
            &&& final(k).irq_enabled == old(k).irq_enabled
        },
        mask & !old(k).tasks@[caller as int].irq_owned == 0 ==> {
            &&& final(k).tasks@ == old(k).tasks@
            &&& final(k).irq_enabled == if enable {
                old(k).irq_enabled | mask
            } else {
                old(k).irq_enabled & !mask
            }
        },
{
    if mask & !k.tasks[caller].irq_owned != 0 {
        k.fault(caller, FaultKind::IrqNotOwned { mask });
        return;
    }
    if enable {
        k.irq_enabled = k.irq_enabled | mask;
    } else {
        k.irq_enabled = k.irq_enabled & !mask;
    }
}

} // verus!
