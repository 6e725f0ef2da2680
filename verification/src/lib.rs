//! A minimal bare-metal runtime core for a single RISC-V hart.
//!
//! The crate models the pieces that must be right at the hardware-register
//! level when there is no operating system underneath: a memory-mapped UART
//! driver with its one-time initialization discipline, the process-wide
//! console singleton that serializes access to it, the boot-to-runtime
//! handoff, and the fault-termination protocol that reports a diagnostic and
//! halts the core forever.

pub mod boot;
pub mod console;
pub mod fault;
pub mod registers;
pub mod uart;
