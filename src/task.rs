//! The per-task record and the values a task sees as syscall results.
use vstd::prelude::*;
use crate::abi::TaskName;

verus! {

/// Why a task stopped running.
#[derive(Clone, Copy, Debug, PartialEq, Eq, Structural)]
pub enum FaultKind {
    /// A load, store or fetch outside the task's memory.
    MemoryAccess { address: usize },
    /// A syscall argument names memory the task does not own.
    BadArgument { address: usize, len: usize },
    /// A message longer than the kernel's limit.
    MessageTooLarge,
    /// A syscall number that does not exist.
    BadSyscall { number: u32 },
    /// A lease that names memory the sender does not own.
    BadLease,
    /// A task index beyond the task table.
    TaskOutOfRange,
    /// Interrupt control over bits the task does not own.
    IrqNotOwned { mask: u32 },
    /// An arithmetic trap.
    Arithmetic,
    /// The task panicked on purpose.
    Panic,
}

/// The state of a task: exactly one of these at any time.
#[derive(Clone, Copy, Debug, PartialEq, Eq, Structural)]
pub enum TaskState {
    /// May be scheduled.
    Runnable,
    /// Waits for the named task to receive its message.
    BlockedInSend(TaskName),
    /// Its message was received by the named task; waits for the reply.
    BlockedInReply(TaskName),
    /// Waits for a message (from anyone when `None`, else from the named
    /// sender) or an unmasked notification.
    BlockedInRecv(Option<TaskName>),
    /// Will not run until the supervisor restarts it.
    Faulted(FaultKind),
    /// Inert.
    Stopped,
}

/// What a successful RECV reports.
#[derive(Clone, Copy, Debug, PartialEq, Eq, Structural)]
pub struct RecvMessage {
    pub sender: TaskName,
    pub operation: u32,
    pub message_len: usize,
    pub response_capacity: usize,
    pub lease_count: usize,
}

/// The result a blocking syscall leaves in the task's saved registers.
#[derive(Clone, Copy, Debug, PartialEq, Eq, Structural)]
pub enum SyscallReturn {
    /// Nothing has been delivered.
    Nothing,
    /// SEND finished with `(rc, len)`.
    Send { rc: u32, len: usize },
    /// RECV delivered a message or notification.
    Recv(RecvMessage),
    /// A closed RECV's sender is dead.
    RecvDead,
}

/// A lease as the lender describes it: attribute bits and a window of its
/// own memory.
#[derive(Clone, Copy, Debug, PartialEq, Eq, Structural)]
pub struct Lease {
    pub attributes: u32,
    pub base_address: u32,
    pub length: u32,
}

impl Lease {
    /// A lease that lets the peer read `length` bytes at `base_address`.
    pub fn read_only(base_address: u32, length: u32) -> (r: Lease)
        ensures
            r == (Lease { attributes: crate::abi::LEASE_READ, base_address, length }),
    {
        Lease { attributes: crate::abi::LEASE_READ, base_address, length }
    }

    /// A lease that lets the peer read and write `length` bytes at `base_address`.
    pub fn read_write(base_address: u32, length: u32) -> (r: Lease)
        ensures
            r == (Lease {
                attributes: 3u32,
                base_address,
                length,
            }),
    {
        Lease { attributes: 3, base_address, length }
    }

    /// A lease that lets the peer write `length` bytes at `base_address`.
    pub fn write_only(base_address: u32, length: u32) -> (r: Lease)
        ensures
            r == (Lease { attributes: crate::abi::LEASE_WRITE, base_address, length }),
    {
        Lease { attributes: crate::abi::LEASE_WRITE, base_address, length }
    }
}

/// What BORROW_INFO reports of a lease.
#[derive(Clone, Copy, Debug, PartialEq, Eq, Structural)]
pub struct BorrowInfo {
    pub attributes: u32,
    pub len: usize,
}

/// What GET_TIMER reports.
#[derive(Clone, Copy, Debug, PartialEq, Eq, Structural)]
pub struct TimerState {
    pub now: u64,
    pub deadline: Option<u64>,
    pub on_dl: u32,
}

/// The kernel's record of one task.
#[derive(Clone, Copy, Debug, PartialEq, Eq, Structural)]
pub struct Task {
    pub state: TaskState,
    pub generation: u16,
    /// Lower numbers are more important.
    pub priority: u8,
    /// Interrupt lines whose routing the task controls.
    pub irq_owned: u32,
    pub pending: u32,
    /// Notification bits that may end the current RECV.
    pub recv_mask: u32,
    pub recv_addr: usize,
    pub recv_len: usize,
    pub timer_deadline: Option<u64>,
    pub timer_bits: u32,
    pub send_operation: u16,
    pub out_addr: usize,
    pub out_len: usize,
    pub in_addr: usize,
    pub in_len: usize,
    /// Arrival order of the current send, for FIFO among equal priorities.
    pub send_stamp: u64,
    pub ret: SyscallReturn,
}

} // verus!
