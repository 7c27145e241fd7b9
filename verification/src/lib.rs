//! Cooperative multi-threaded execution engine of an emulator that runs the
//! binary of another architecture: thread records, the emulated mutex, the
//! supervisor-call dispatcher and the round-robin scheduler, all as explicit
//! state machines over plain values.

pub mod cpu;
pub mod environment;
pub mod errno;
pub mod fault;
pub mod frameworks;
pub mod libc;
pub mod thread_support;
