//! The tick counter, per-task one-shot timers, and posting notifications.
use vstd::prelude::*;
use crate::abi::{name_index, TaskName};
use crate::ipc::faulted_tasks;
use crate::kernel::{posted, task_wf, Kernel};
use crate::task::{FaultKind, Task, TimerState};

verus! {

/// `t`'s timer is armed with a deadline that `now` has reached.
pub open spec fn fires(t: Task, now: u64) -> bool {
    t.timer_deadline is Some && t.timer_deadline->0 <= now
}

/// `t` after a tick to `now`: a timer that fires is disabled and its bits posted.
pub open spec fn ticked(t: Task, now: u64) -> Task {
    if fires(t, now) {
        posted(Task { timer_deadline: None, ..t }, t.timer_bits)
    } else {
        t
    }
}

/// `t` after SET_TIMER with `deadline` and `bits` at time `now`: a deadline
/// already reached posts the bits at once and leaves the timer disabled.
pub open spec fn timer_set(t: Task, deadline: Option<u64>, bits: u32, now: u64) -> Task {
    if deadline is Some && deadline->0 <= now {
        posted(Task { timer_deadline: None, timer_bits: bits, ..t }, bits)
    } else {
        Task { timer_deadline: deadline, timer_bits: bits, ..t }
    }
}

/// One timer interrupt: time advances by one tick, and every timer whose
/// deadline is reached fires once.
pub fn tick(k: &mut Kernel)
    requires
        old(k).wf(),
        old(k).now < u64::MAX,
    ensures
        final(k).wf(),
        final(k).now == old(k).now + 1,
        final(k).mems@ == old(k).mems@,
        final(k).leases@ == old(k).leases@,
        final(k).supervisor == old(k).supervisor,
        final(k).irq_enabled == old(k).irq_enabled,
        final(k).fault_msgs@ == old(k).fault_msgs@,
        final(k).next_stamp == old(k).next_stamp,
        final(k).tasks.len() == old(k).tasks.len(),
        forall|i: int|
            0 <= i < old(k).tasks.len() ==> #[trigger] final(k).tasks@[i] == ticked(
                old(k).tasks@[i],
                final(k).now,
            ),
{
    k.now = k.now + 1;
    let n = k.tasks.len();
    let mut i: usize = 0;
    while i < n
        invariant
            k.wf(),
            n == k.tasks.len(),
            i <= n,
            k.now == old(k).now + 1,
            k.mems@ == old(k).mems@,
            k.leases@ == old(k).leases@,
            k.supervisor == old(k).supervisor,
            k.irq_enabled == old(k).irq_enabled,
            k.fault_msgs@ == old(k).fault_msgs@,
            k.next_stamp == old(k).next_stamp,
            forall|m: int|
                0 <= m < n ==> #[trigger] k.tasks@[m] == (if m < i {
                    ticked(old(k).tasks@[m], k.now)
                } else {
                    old(k).tasks@[m]
                }),
        decreases n - i,
    {
        let mut t = k.tasks[i];
        match t.timer_deadline {
            Some(d) => {
                if d <= k.now {
                    let bits = t.timer_bits;
                    t.timer_deadline = None;
                    k.tasks.set(i, t);
                    assert(task_wf(
                        k.tasks@[i as int],
                        k.tasks.len() as int,
                        k.mems@[i as int].len() as int,
                        k.leases@[i as int]@,
                    ));
                    k.post_index(i, bits);
                }
            },
            None => {},
        }
        i = i + 1;
    }
}

/// SET_TIMER by `caller`: records `deadline` (none disables the timer) and
/// the bits to post when it is reached; a deadline already reached posts
/// them at once and leaves the timer disabled.
pub fn sys_set_timer(k: &mut Kernel, caller: usize, deadline: Option<u64>, bits: u32)
    requires
        old(k).wf(),
        caller < old(k).tasks.len(),
    ensures
        final(k).wf(),
        final(k).same_but_tasks(old(k)),
        final(k).tasks@ == old(k).tasks@.update(
            caller as int,
            timer_set(old(k).tasks@[caller as int], deadline, bits, old(k).now),
        ),
{
    let mut t = k.tasks[caller];
    t.timer_bits = bits;
    let due = match deadline {
        Some(d) => d <= k.now,
        None => false,
    };
    if due {
        t.timer_deadline = None;
        k.tasks.set(caller, t);
        assert(task_wf(
            k.tasks@[caller as int],
            k.tasks.len() as int,
            k.mems@[caller as int].len() as int,
            k.leases@[caller as int]@,
        ));
        k.post_index(caller, bits);
    } else {
        t.timer_deadline = deadline;
        k.tasks.set(caller, t);
        assert(task_wf(
            k.tasks@[caller as int],
            k.tasks.len() as int,
            k.mems@[caller as int].len() as int,
            k.leases@[caller as int]@,
        ));
    }
}

/// GET_TIMER by `caller`: the current time and the caller's timer setting.
pub fn sys_get_timer(k: &Kernel, caller: usize) -> (r: TimerState)
    requires
        caller < k.tasks.len(),
    ensures
        r == (TimerState {
            now: k.now,
            deadline: k.tasks@[caller as int].timer_deadline,
            on_dl: k.tasks@[caller as int].timer_bits,
        }),
{
    TimerState {
        now: k.now,
        deadline: k.tasks[caller].timer_deadline,
        on_dl: k.tasks[caller].timer_bits,
    }
}

/// POST by `caller` of `bits` to `target`. Returns the target's pending bits
/// before the post; a stale target is left alone and 0 is returned. An index
/// beyond the task table faults the caller (`None`).
pub fn sys_post(k: &mut Kernel, caller: usize, target: TaskName, bits: u32) -> (r: Option<u32>)
    requires
        old(k).wf(),
        caller < old(k).tasks.len(),
    ensures
        final(k).wf(),
        final(k).same_but_tasks(old(k)),
        final(k).mems@ == old(k).mems@,
        final(k).leases@ == old(k).leases@,
        final(k).now == old(k).now,
        name_index(target.0) >= old(k).tasks.len() ==> r is None && final(k).tasks@
            == faulted_tasks(
            old(k).tasks@,
            caller as int,
            FaultKind::TaskOutOfRange,
            old(k).supervisor as int,
        ),
        name_index(target.0) < old(k).tasks.len() && !old(k).is_current(target) ==> r == Some(0u32)
            && final(k).tasks@ == old(k).tasks@,
        old(k).is_current(target) ==> {
            let i = name_index(target.0) as int;
            &&& r == Some(old(k).tasks@[i].pending)
            &&& final(k).tasks@ == old(k).tasks@.update(i, posted(old(k).tasks@[i], bits))
        },
{
    let i = target.index();
    if i >= k.tasks.len() {
        k.fault(caller, FaultKind::TaskOutOfRange);
        return None;
    }
    if !k.is_current_name(target) {
        return Some(0);
    }
    let before = k.tasks[i].pending;
    k.post_index(i, bits);
    Some(before)
}

/// REFRESH_TASK_ID: the current name of the task that `name` refers to, in
/// whatever generation it is now. An index beyond the task table faults the
/// caller (`None`).
pub fn sys_refresh_task_id(k: &mut Kernel, caller: usize, name: TaskName) -> (r: Option<TaskName>)
    requires
        old(k).wf(),
        caller < old(k).tasks.len(),
    ensures
        final(k).wf(),
        final(k).same_but_tasks(old(k)),
        final(k).mems@ == old(k).mems@,
        final(k).now == old(k).now,
        name_index(name.0) >= old(k).tasks.len() ==> r is None && final(k).tasks@
            == faulted_tasks(
            old(k).tasks@,
            caller as int,
            FaultKind::TaskOutOfRange,
            old(k).supervisor as int,
        ),
        name_index(name.0) < old(k).tasks.len() ==> r == Some(
            old(k).name_of(name_index(name.0) as int),
        ) && final(k).tasks@ == old(k).tasks@,
{
    let i = name.index();
    if i >= k.tasks.len() {
        k.fault(caller, FaultKind::TaskOutOfRange);
        return None;
    }
    Some(k.current_name(i))
}

} // verus!
