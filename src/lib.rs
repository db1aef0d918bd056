//! A verified core for a bare-metal RISC-V bootloader: a legacy virtio-blk
//! driver over MMIO, a split virtqueue, an ELF64 loader and the supervisor
//! handoff rules. Register and memory traffic is performed by the caller;
//! this crate decides what to read and write and checks every value that
//! comes back.
pub mod error;
pub mod queue;
pub mod elf;
pub mod platform;
pub mod blk;
pub mod loader;
pub mod boot;
pub mod mmio;
pub mod console;
pub mod sbi;
pub mod debug;
