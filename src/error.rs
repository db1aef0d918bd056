use vstd::prelude::*;

verus! {

/// Errors of the virtio transport and of the virtqueue.
#[derive(Debug, Clone, Copy, PartialEq, Eq, Structural)]
pub enum VirtioError {
    DeviceNotFound,
    InvalidMagic,
    UnsupportedVersion,
    UnsupportedDevice,
    DeviceError,
    InitFailed,
    FeaturesNegotiationFailed,
    QueueSetupFailed,
    ConfigAccessFailed,
    DmaError,
    IoError,
    BufferTooSmall,
    InvalidParam,
    QueueFull,
    QueueEmpty,
    DescriptorChainTooLong,
    InvalidDescriptor,
    Timeout,
    NotReady,
    AlreadyInitialized,
    FileSystemError,
    CryptoError,
    NetworkError,
    BlockError,
    OutOfMemory,
    MemoryNotAligned,
    InternalError,
    UnsupportedOperation,
}

/// Result of a virtio operation.
pub type Result<T> = core::result::Result<T, VirtioError>;

/// Same as [`Result`], under the name the block layer uses.
pub type VirtioResult<T> = core::result::Result<T, VirtioError>;

impl VirtioError {
    /// The human-readable message of each error.
    pub open spec fn message(self) -> Seq<char> {
        match self {
            VirtioError::DeviceNotFound => "Virtio device not found"@,
            VirtioError::InvalidMagic => "Invalid Virtio magic value"@,
            VirtioError::UnsupportedVersion => "Unsupported Virtio version"@,
            VirtioError::UnsupportedDevice => "Unsupported device type"@,
            VirtioError::DeviceError => "device error"@,
            VirtioError::InitFailed => "Device initialization failed"@,
            VirtioError::FeaturesNegotiationFailed => "Features negotiation failed"@,
            VirtioError::QueueSetupFailed => "Virtqueue setup failed"@,
            VirtioError::ConfigAccessFailed => "Device configuration access failed"@,
            VirtioError::DmaError => "DMA transfer error"@,
            VirtioError::IoError => "I/O operation error"@,
            VirtioError::BufferTooSmall => "Buffer too small for operation"@,
            VirtioError::InvalidParam => "Invalid parameter"@,
            VirtioError::QueueFull => "Virtqueue is full"@,
            VirtioError::QueueEmpty => "virtqueue is empty"@,
            VirtioError::DescriptorChainTooLong => "Descriptor chain too long"@,
            VirtioError::InvalidDescriptor => "Invalid descriptor"@,
            VirtioError::Timeout => "Operation timeout"@,
            VirtioError::NotReady => "Device not ready"@,
            VirtioError::AlreadyInitialized => "Device already initialized"@,
            VirtioError::FileSystemError => "Filesystem error"@,
            VirtioError::CryptoError => "Cryptographic operation error"@,
            VirtioError::NetworkError => "Network operation error"@,
            VirtioError::BlockError => "Block device operation error"@,
            VirtioError::OutOfMemory => "Out of memory"@,
            VirtioError::MemoryNotAligned => "Memory not properly aligned"@,
            VirtioError::InternalError => "Internal virtio error"@,
            VirtioError::UnsupportedOperation => "Unsupported operation"@,
        }
    }

    /// Errors after which the same operation may simply be tried again.
    pub open spec fn recoverable(self) -> bool {
        self == VirtioError::QueueFull || self == VirtioError::Timeout
            || self == VirtioError::NotReady || self == VirtioError::BufferTooSmall
    }

    /// Errors that leave the device in a state only a reset clears.
    pub open spec fn needs_reset(self) -> bool {
        self == VirtioError::InitFailed || self == VirtioError::FeaturesNegotiationFailed
            || self == VirtioError::QueueSetupFailed || self == VirtioError::DmaError
            || self == VirtioError::InternalError
    }

    pub fn as_str(&self) -> (r: &'static str)
        ensures
            r@ == self.message(),
    {
        match self {
            VirtioError::DeviceNotFound => "Virtio device not found",
            VirtioError::InvalidMagic => "Invalid Virtio magic value",
            VirtioError::UnsupportedVersion => "Unsupported Virtio version",
            VirtioError::UnsupportedDevice => "Unsupported device type",
            VirtioError::DeviceError => "device error",
            VirtioError::InitFailed => "Device initialization failed",
            VirtioError::FeaturesNegotiationFailed => "Features negotiation failed",
            VirtioError::QueueSetupFailed => "Virtqueue setup failed",
            VirtioError::ConfigAccessFailed => "Device configuration access failed",
            VirtioError::DmaError => "DMA transfer error",
            VirtioError::IoError => "I/O operation error",
            VirtioError::BufferTooSmall => "Buffer too small for operation",
            VirtioError::InvalidParam => "Invalid parameter",
            VirtioError::QueueFull => "Virtqueue is full",
            VirtioError::QueueEmpty => "virtqueue is empty",
            VirtioError::DescriptorChainTooLong => "Descriptor chain too long",
            VirtioError::InvalidDescriptor => "Invalid descriptor",
            VirtioError::Timeout => "Operation timeout",
            VirtioError::NotReady => "Device not ready",
            VirtioError::AlreadyInitialized => "Device already initialized",
            VirtioError::FileSystemError => "Filesystem error",
            VirtioError::CryptoError => "Cryptographic operation error",
            VirtioError::NetworkError => "Network operation error",
            VirtioError::BlockError => "Block device operation error",
            VirtioError::OutOfMemory => "Out of memory",
            VirtioError::MemoryNotAligned => "Memory not properly aligned",
            VirtioError::InternalError => "Internal virtio error",
            VirtioError::UnsupportedOperation => "Unsupported operation",
        }
    }

    pub fn is_recoverable(&self) -> (r: bool)
        ensures
            r == self.recoverable(),
    {
        match self {
            VirtioError::QueueFull | VirtioError::Timeout | VirtioError::NotReady
            | VirtioError::BufferTooSmall => true,
            _ => false,
        }
    }

    pub fn requires_reset(&self) -> (r: bool)
        ensures
            r == self.needs_reset(),
    {
        match self {
            VirtioError::InitFailed | VirtioError::FeaturesNegotiationFailed
            | VirtioError::QueueSetupFailed | VirtioError::DmaError
            | VirtioError::InternalError => true,
            _ => false,
        }
    }
}

/// Errors of the block device layer.
#[derive(Debug, Clone, Copy, PartialEq, Eq, Structural)]
pub enum BlkError {
    VirtioError(VirtioError),
    ReadOnly,
    InvalidSector,
    CapacityExceeded,
    UnsupportedOperation,
    MediaChanged,
}

impl BlkError {
    pub open spec fn message(self) -> Seq<char> {
        match self {
            BlkError::VirtioError(_) => "Underlying virtio error"@,
            BlkError::ReadOnly => "Block device is read-only"@,
            BlkError::InvalidSector => "Invalid sector access"@,
            BlkError::CapacityExceeded => "Capacity exceeded"@,
            BlkError::UnsupportedOperation => "Unsupported block operation"@,
            BlkError::MediaChanged => "Media changed"@,
        }
    }

    pub fn as_str(&self) -> (r: &'static str)
        ensures
            r@ == self.message(),
    {
        match self {
            BlkError::VirtioError(_) => "Underlying virtio error",
            BlkError::ReadOnly => "Block device is read-only",
            BlkError::InvalidSector => "Invalid sector access",
            BlkError::CapacityExceeded => "Capacity exceeded",
            BlkError::UnsupportedOperation => "Unsupported block operation",
            BlkError::MediaChanged => "Media changed",
        }
    }
}

impl From<VirtioError> for BlkError {
    fn from(err: VirtioError) -> (r: BlkError)
        ensures
            r == BlkError::VirtioError(err),
    {
        BlkError::VirtioError(err)
    }
}

impl vstd::std_specs::convert::FromSpecImpl<VirtioError> for BlkError {
    open spec fn obeys_from_spec() -> bool {
        true
    }

    open spec fn from_spec(v: VirtioError) -> BlkError {
        BlkError::VirtioError(v)
    }
}

/// Errors of the network device layer.
#[derive(Debug, Clone, Copy, PartialEq, Eq, Structural)]
pub enum NetError {
    VirtioError(VirtioError),
    InvalidPacket,
    InsufficientBuffer,
    LinkDown,
    InvalidMacAddress,
}

impl From<VirtioError> for NetError {
    fn from(err: VirtioError) -> (r: NetError)
        ensures
            r == NetError::VirtioError(err),
    {
        NetError::VirtioError(err)
    }
}

impl vstd::std_specs::convert::FromSpecImpl<VirtioError> for NetError {
    open spec fn obeys_from_spec() -> bool {
        true
    }

    open spec fn from_spec(v: VirtioError) -> NetError {
        NetError::VirtioError(v)
    }
}

/// The block layer reports transport errors unchanged.
pub fn from_virtio_error(err: VirtioError) -> (r: VirtioError)
    ensures
        r == err,
{
    err
}

/// Errors of the kernel loader.
#[derive(Debug, Clone, Copy)]
pub enum KernelError {
    DeviceNotFound,
    DeviceInitFailed,
    FileSystemError(&'static str),
    KernelNotFound,
    ReadError,
    OutOfMemory,
    VirtioError(VirtioError),
    ElfError(&'static str),
    InvalidFormat,
    SegmentLoadError,
    FsError(&'static str),
    InitFailed,
    IoError,
    BufferTooSmall,
}

impl From<VirtioError> for KernelError {
    fn from(err: VirtioError) -> (r: KernelError)
        ensures
            r == KernelError::VirtioError(err),
    {
        KernelError::VirtioError(err)
    }
}

impl vstd::std_specs::convert::FromSpecImpl<VirtioError> for KernelError {
    open spec fn obeys_from_spec() -> bool {
        true
    }

    open spec fn from_spec(v: VirtioError) -> KernelError {
        KernelError::VirtioError(v)
    }
}

} // verus!
