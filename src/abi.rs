//! Identities, codes and register packings shared by tasks and the kernel.
use vstd::prelude::*;

verus! {

/// Number of low bits of a task name that hold the task's index.
pub const INDEX_BITS: u16 = 10;

/// Number of indices a task name can hold.
pub const INDEX_LIMIT: usize = 1024;

/// Largest number of tasks. The last index is never a task's, so that no
/// task, in any generation, is named like the kernel.
pub const MAX_TASKS: usize = 1023;

/// Number of distinct generations (generations count modulo this).
pub const GENERATIONS: u16 = 64;

/// Return code: success.
pub const RC_OK: u32 = 0;

/// Return code: the peer restarted (or was stale) before the operation completed.
pub const RC_PEER_DIED: u32 = 1;

/// Return code of SEND: the reply did not fit and was truncated.
pub const RC_TRUNCATED: u32 = 2;

/// Return code of a borrow: the lender is not waiting on the caller.
pub const RC_DEFUNCT_LENDER: u32 = 1;

/// Return code of a borrow: the lease lacks the needed attribute.
pub const RC_DENIED: u32 = 2;

/// Return code of a borrow: lease index or offset out of range.
pub const RC_OUT_OF_RANGE: u32 = 3;

/// Lease attribute bit: the borrower may read.
pub const LEASE_READ: u32 = 1;

/// Lease attribute bit: the borrower may write.
pub const LEASE_WRITE: u32 = 2;

/// A task's identity: a low index into the task table and a high generation.
#[derive(Clone, Copy, Debug, PartialEq, Eq, Structural)]
pub struct TaskName(pub u16);

pub open spec fn name_index(v: u16) -> nat {
    (v % 1024) as nat
}

pub open spec fn name_generation(v: u16) -> nat {
    (v / 1024) as nat
}

/// The reserved identity of the kernel, used as the sender of notifications.
pub const KERNEL_NAME: u16 = 0xFFFF;

impl TaskName {
    /// The kernel's reserved identity.
    pub fn kernel() -> (r: TaskName)
        ensures
            r.0 == KERNEL_NAME,
    {
        TaskName(KERNEL_NAME)
    }

    /// Builds the name of the task at `index` in generation `generation`.
    pub fn for_index_and_gen(index: usize, generation: u16) -> (r: TaskName)
        requires
            index < INDEX_LIMIT,
            generation < GENERATIONS,
        ensures
            name_index(r.0) == index,
            name_generation(r.0) == generation,
            r.0 == generation * 1024 + index,
    {
        let i: u16 = index as u16;
        let v: u16 = (generation << 10u16) | i;
        assert(v % 1024 == i && v / 1024 == generation && v == generation * 1024 + i) by (bit_vector)
            requires
                v == (generation << 10u16) | i,
                i < 1024,
                generation < 64,
        ;
        TaskName(v)
    }

    /// The task-table index this name refers to.
    pub fn index(&self) -> (r: usize)
        ensures
            r == name_index(self.0),
            r < INDEX_LIMIT,
    {
        let v: u16 = self.0;
        let r: u16 = v & 0x3FFu16;
        assert(r == v % 1024) by (bit_vector)
            requires
                r == v & 0x3FFu16,
        ;
        r as usize
    }

    /// The generation this name was issued in.
    pub fn generation(&self) -> (r: u16)
        ensures
            r == name_generation(self.0),
            r < GENERATIONS,
    {
        let v: u16 = self.0;
        let r: u16 = v >> 10u16;
        assert(r == v / 1024) by (bit_vector)
            requires
                r == v >> 10u16,
        ;
        r
    }
}

/// The generation that follows `g`, wrapping at the generation count.
pub open spec fn next_generation(g: nat) -> nat {
    (g + 1) % (GENERATIONS as nat)
}

/// Things that can go wrong when sending, under normal operation.
#[derive(Clone, Copy, Debug, PartialEq, Eq, Structural)]
pub enum SendError {
    /// The peer restarted since it was last addressed.
    DeathComesForUsAll,
    /// The peer's reply was larger than the offered buffer; its prefix was kept.
    OverlyEnthusiasticResponse,
}

/// Interprets the `(rc, len)` that SEND returns: the reply's length on
/// success, else why it failed.
pub fn send_result(rc: u32, len: usize) -> (r: Result<usize, SendError>)
    requires
        rc == RC_OK || rc == RC_PEER_DIED || rc == RC_TRUNCATED,
    ensures
        rc == RC_OK ==> r == Ok::<usize, SendError>(len),
        rc == RC_PEER_DIED ==> r == Err::<usize, SendError>(SendError::DeathComesForUsAll),
        rc == RC_TRUNCATED ==> r == Err::<usize, SendError>(SendError::OverlyEnthusiasticResponse),
{
    if rc == RC_OK {
        Ok(len)
    } else if rc == RC_PEER_DIED {
        Err(SendError::DeathComesForUsAll)
    } else {
        Err(SendError::OverlyEnthusiasticResponse)
    }
}

/// Interprets the return code of a closed RECV.
pub fn closed_recv_result(rc: u32) -> (r: Result<(), ClosedRecvError>)
    ensures
        rc == RC_OK ==> r is Ok,
        rc != RC_OK ==> r == Err::<(), ClosedRecvError>(ClosedRecvError::Dead),
{
    if rc == RC_OK {
        Ok(())
    } else {
        Err(ClosedRecvError::Dead)
    }
}

/// Failure of a closed receive.
#[derive(Clone, Copy, Debug, PartialEq, Eq, Structural)]
pub enum ClosedRecvError {
    /// The named sender is stale or restarted while waited on.
    Dead,
}

/// Packs the first word of SEND's arguments: the target in the high half,
/// the operation code in the low half.
pub fn pack_target_operation(target: TaskName, operation: u16) -> (r: u32)
    ensures
        r == target.0 as nat * 65536 + operation as nat,
{
    let t: u32 = target.0 as u32;
    let o: u32 = operation as u32;
    let r: u32 = (t << 16u32) | o;
    assert(r == t * 65536 + o) by (bit_vector)
        requires
            r == (t << 16u32) | o,
            t < 65536,
            o < 65536,
    ;
    r
}

/// Recovers target and operation from the first word of SEND's arguments.
pub fn unpack_target_operation(w: u32) -> (r: (TaskName, u16))
    ensures
        w == (r.0).0 as nat * 65536 + r.1 as nat,
{
    let t: u32 = w >> 16u32;
    let o: u32 = w & 0xFFFFu32;
    assert(w == t * 65536 + o && t < 65536 && o < 65536) by (bit_vector)
        requires
            t == w >> 16u32,
            o == w & 0xFFFFu32,
    ;
    (TaskName(t as u16), o as u16)
}

/// Packs an `(rc, len)` pair into one 64-bit value: rc low, len high.
pub fn pack_rc_len(rc: u32, len: u32) -> (r: u64)
    ensures
        r == len as nat * 0x1_0000_0000 + rc as nat,
{
    join_u64(rc, len)
}

/// Splits a packed `(rc, len)` value: rc from the low 32 bits, len from the high.
pub fn split_rc_len(v: u64) -> (r: (u32, usize))
    ensures
        r.0 == v % 0x1_0000_0000,
        r.1 == v / 0x1_0000_0000,
{
    let (lo, hi) = split_u64(v);
    (lo, hi as usize)
}

/// Joins two 32-bit halves into a 64-bit value.
pub fn join_u64(lo: u32, hi: u32) -> (r: u64)
    ensures
        r == hi as nat * 0x1_0000_0000 + lo as nat,
{
    let l: u64 = lo as u64;
    let h: u64 = hi as u64;
    let r: u64 = l | (h << 32u64);
    assert(r == h * 0x1_0000_0000 + l) by (bit_vector)
        requires
            r == l | (h << 32u64),
            l < 0x1_0000_0000,
            h < 0x1_0000_0000,
    ;
    r
}

/// Splits a 64-bit value into its low and high 32-bit halves.
pub fn split_u64(v: u64) -> (r: (u32, u32))
    ensures
        r.0 == v % 0x1_0000_0000,
        r.1 == v / 0x1_0000_0000,
{
    let lo: u64 = v & 0xFFFF_FFFFu64;
    let hi: u64 = v >> 32u64;
    assert(lo == v % 0x1_0000_0000 && hi == v / 0x1_0000_0000) by (bit_vector)
        requires
            lo == v & 0xFFFF_FFFFu64,
            hi == v >> 32u64,
    ;
    (lo as u32, hi as u32)
}

/// Encodes the optional sender of a RECV: zero for an open receive, else the
/// top bit set over the sender's name.
pub fn pack_recv_sender(sender: Option<TaskName>) -> (r: u32)
    ensures
        sender is None ==> r == 0,
        sender is Some ==> r == 0x8000_0000 + (sender->0).0 as nat,
{
    match sender {
        None => 0,
        Some(t) => {
            let v: u32 = t.0 as u32;
            let r: u32 = 0x8000_0000u32 | v;
            assert(r == 0x8000_0000 + v) by (bit_vector)
                requires
                    r == 0x8000_0000u32 | v,
                    v < 65536,
            ;
            r
        },
    }
}

/// Decodes the optional sender of a RECV, the inverse of `pack_recv_sender`.
pub fn unpack_recv_sender(w: u32) -> (r: Option<TaskName>)
    ensures
        w < 0x8000_0000 ==> r is None,
        w >= 0x8000_0000 ==> r == Some(TaskName((w % 65536) as u16)),
{
    if w & 0x8000_0000u32 == 0 {
        assert(w < 0x8000_0000) by (bit_vector)
            requires
                w & 0x8000_0000u32 == 0,
        ;
        None
    } else {
        let v: u32 = w & 0xFFFFu32;
        assert(w >= 0x8000_0000 && v == w % 65536) by (bit_vector)
            requires
                w & 0x8000_0000u32 != 0,
                v == w & 0xFFFFu32,
        ;
        Some(TaskName(v as u16))
    }
}

/// Keeps only the lease attribute bits that are defined (read and write).
pub fn lease_attributes_from_bits_truncate(bits: u32) -> (r: u32)
    ensures
        r == bits % 4,
{
    let r: u32 = bits & 3u32;
    assert(r == bits % 4) by (bit_vector)
        requires
            r == bits & 3u32,
    ;
    r
}

} // verus!
