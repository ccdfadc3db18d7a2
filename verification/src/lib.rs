//! Core of a small round-robin kernel for Cortex-M microcontrollers.
//!
//! The library holds the kernel's bookkeeping: the lazily initialised
//! globals (`toinit`), the task stacks and their saved register frames
//! (`scheduler::task`), the round-robin ready queue (`scheduler`), the
//! system-call decoding and dispatch (`syscall`), the serial driver's
//! buffering (`drivers`) and the checks made before the first task starts
//! (`kernel`). Register access, inline assembly and interrupt plumbing live
//! in the application around it.
pub mod allocator;
pub mod control;
pub mod drivers;
pub mod kernel;
pub mod scheduler;
pub mod syscall;
pub mod toinit;
