use vstd::prelude::*;
use crate::error::KernelError;

verus! {

/// Where the kernel starts and which RAM it may use.
#[derive(Debug, Clone, Copy)]
pub struct BootConfig {
    pub kernel_entry: u64,
    pub memory_start: u64,
    pub memory_size: u64,
}

pub const DEFAULT_KERNEL_ENTRY_POINT: u64 = 0x8020_0000;
pub const MEMORY_START: u64 = 0x8000_0000;
pub const MEMORY_SIZE: u64 = 128 * 1024 * 1024;

impl Default for BootConfig {
    fn default() -> (r: BootConfig)
        ensures
            r.kernel_entry == DEFAULT_KERNEL_ENTRY_POINT,
            r.memory_start == MEMORY_START,
            r.memory_size == MEMORY_SIZE,
    {
        BootConfig {
            kernel_entry: DEFAULT_KERNEL_ENTRY_POINT,
            memory_start: MEMORY_START,
            memory_size: MEMORY_SIZE,
        }
    }
}

impl BootConfig {
    /// The default configuration with the kernel's own entry point.
    pub fn from_kernel_info(entry_point: u64, _kernel_size: usize) -> (r: Result<Self, KernelError>)
        ensures
            r matches Ok(c) && c.kernel_entry == entry_point && c.memory_start == MEMORY_START
                && c.memory_size == MEMORY_SIZE,
    {
        Ok(BootConfig { kernel_entry: entry_point, memory_start: MEMORY_START, memory_size: MEMORY_SIZE })
    }

    /// Refuses an entry point below the start of RAM.
    pub fn validate(&self) -> (r: Result<(), KernelError>)
        ensures
            r is Ok <==> self.kernel_entry >= self.memory_start,
            r matches Err(e) ==> (e matches KernelError::ElfError(m) && m@ == "Invalid kernel entry point"@),
    {
        if self.kernel_entry < self.memory_start {
            return Err(KernelError::ElfError("Invalid kernel entry point"));
        }
        Ok(())
    }
}

} // verus!
