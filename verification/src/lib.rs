//! Verified core of a small single-address-space kernel: the process model
//! and round-robin scheduler, the interrupt-vector table and fault
//! classifier, the legacy interrupt-controller driver, the boot-log buffer,
//! the serial-port protocol decisions, and the initial-ramdisk archive
//! parser.
//!
//! Hardware access (port I/O, the table-load instruction, the boot
//! protocol) is performed by an unverified shell around this library; the
//! library computes every decision and every byte that the shell writes,
//! and its contracts pin those down exactly.

pub mod init;
pub mod initrd;
pub mod interrupts;
pub mod logger;
pub mod process;
pub mod scheduler;
pub mod serial;
pub mod smp;
pub mod text;
