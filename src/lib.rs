//! Control core of a small uniprocessor teaching kernel: the round-robin task
//! manager, the trap dispatcher and the memory check of the write system call,
//! each stated as a verified state machine that the surrounding kernel drives.

pub mod ftrace;
pub mod syscall;
pub mod task;
pub mod trap;
