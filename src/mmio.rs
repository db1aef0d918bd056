//! The register surface of one virtio MMIO slot. Reads and writes are
//! returned as [`BusOp`]s for the caller to perform; values read are
//! handed back to the checks.
use vstd::prelude::*;
use crate::blk::{
    BusOp, VIRTIO_DEVICE_FEATURES, VIRTIO_DEVICE_ID, VIRTIO_DRIVER_FEATURES, VIRTIO_MAGIC_VALUE,
    VIRTIO_STATUS, read_reg, write_reg,
};
use crate::error::{Result, VirtioError};

verus! {

/// The version register's value on a legacy transport.
pub const VIRTIO_LEGACY_VERSION: u32 = 1;

/// One virtio MMIO register window.
pub struct VirtioMmio {
    pub base_addr: usize,
}

impl VirtioMmio {
    /// Adopts the window at `addr`, given what its MAGIC register reads.
    pub fn new(addr: usize, magic: u32) -> (r: Result<Self>)
        ensures
            r is Ok <==> magic == VIRTIO_MAGIC_VALUE,
            r is Err ==> r == Err::<Self, VirtioError>(VirtioError::InvalidMagic),
            r matches Ok(m) ==> m.base_addr == addr,
    {
        let mmio = VirtioMmio { base_addr: addr };
        if !mmio.check_magic(magic) {
            return Err(VirtioError::InvalidMagic);
        }
        Ok(mmio)
    }

    /// Checks what the MAGIC register read.
    pub fn verify_device(&self, magic: u32) -> (r: Result<()>)
        ensures
            r is Ok <==> magic == VIRTIO_MAGIC_VALUE,
            r is Err ==> r == Err::<(), VirtioError>(VirtioError::InvalidMagic),
    {
        if magic != VIRTIO_MAGIC_VALUE {
            return Err(VirtioError::InvalidMagic);
        }
        Ok(())
    }

    /// A read of the register at `offset`.
    pub fn read_reg(&self, offset: usize) -> (r: BusOp)
        ensures
            r == read_reg(offset),
    {
        BusOp::ReadReg { offset }
    }

    /// A write of `value` to the register at `offset`.
    pub fn write_reg(&mut self, offset: usize, value: u32) -> (r: BusOp)
        ensures
            r == write_reg(offset, value),
            *final(self) == *old(self),
    {
        BusOp::WriteReg { offset, value }
    }

    /// Whether the MAGIC register read "virt".
    pub fn check_magic(&self, magic: u32) -> (r: bool)
        ensures
            r == (magic == VIRTIO_MAGIC_VALUE),
    {
        magic == VIRTIO_MAGIC_VALUE
    }

    /// Whether the VERSION register read the legacy transport's version.
    pub fn check_version(&self, version: u32) -> (r: bool)
        ensures
            r == (version == VIRTIO_LEGACY_VERSION),
    {
        version == VIRTIO_LEGACY_VERSION
    }

    /// The read of the DEVICE_ID register.
    pub fn device_id(&self) -> (r: BusOp)
        ensures
            r == read_reg(VIRTIO_DEVICE_ID),
    {
        self.read_reg(VIRTIO_DEVICE_ID)
    }

    /// The read of the DEVICE_FEATURES register.
    pub fn device_features(&self) -> (r: BusOp)
        ensures
            r == read_reg(VIRTIO_DEVICE_FEATURES),
    {
        self.read_reg(VIRTIO_DEVICE_FEATURES)
    }

    /// The write of `features` to DRIVER_FEATURES.
    pub fn set_driver_features(&mut self, features: u32) -> (r: BusOp)
        ensures
            r == write_reg(VIRTIO_DRIVER_FEATURES, features),
            *final(self) == *old(self),
    {
        self.write_reg(VIRTIO_DRIVER_FEATURES, features)
    }

    /// The write of `status` to STATUS.
    pub fn set_status(&mut self, status: u8) -> (r: BusOp)
        ensures
            r == write_reg(VIRTIO_STATUS, status as u32),
            *final(self) == *old(self),
    {
        self.write_reg(VIRTIO_STATUS, status as u32)
    }

}

} // verus!
