//! The fixed addresses of the platform, in one place.
use vstd::prelude::*;

verus! {

/// UART transmit register.
pub const UART_BASE: u64 = 0x1000_0000;
/// Offset of the UART line-status register.
pub const UART_LSR_OFFSET: u64 = 5;
/// Transmit-holding-empty bit of the line-status register.
pub const UART_TX_READY: u8 = 0x20;
/// First virtio MMIO slot.
pub const VIRTIO_MMIO_BASE: usize = 0x1000_1000;
/// Distance between virtio MMIO slots.
pub const VIRTIO_MMIO_STRIDE: usize = 0x1000;
/// Number of virtio MMIO slots that are probed.
pub const VIRTIO_MMIO_SLOTS: usize = 8;
/// Request header of the block read in flight (16 bytes).
pub const BLK_REQ_ADDR: u64 = 0x8007_0800;
/// Data buffer of the block read in flight (one sector).
pub const BLK_DATA_ADDR: u64 = 0x8007_0810;
/// Status byte of the block read in flight.
pub const BLK_STATUS_ADDR: u64 = 0x8007_0a10;
/// The ring and request area shared with the device.
pub const DMA_RING_START: u64 = 0x8007_0000;
pub const DMA_RING_END: u64 = 0x8007_2000;
/// Staging buffer that the kernel image is streamed into.
pub const SAFE_BUFFER_BASE: u64 = 0x8100_0000;
pub const BUFFER_SIZE: usize = 0x10_0000;
/// Device-tree blob handed to the kernel.
pub const DTB_ADDR: u64 = 0x8700_0000;
/// Entry used when the image's own entry point is implausible.
pub const DEFAULT_KERNEL_ENTRY: u64 = 0x8040_0000;
/// Window of plausible kernel entry points.
pub const KERNEL_ENTRY_MIN: u64 = 0x8000_0000;
pub const KERNEL_ENTRY_END: u64 = 0x9000_0000;

} // verus!
