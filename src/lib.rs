//! Core of a small statically-configured microkernel: task identities, the
//! send/receive/reply rendezvous, memory leases, notifications and timers,
//! fault escalation and priority scheduling, over a model of task memory.
pub mod abi;
pub mod task;
pub mod kernel;
pub mod ipc;
pub mod lease;
pub mod timer;
pub mod control;
pub mod laws;
pub mod dispatch;
