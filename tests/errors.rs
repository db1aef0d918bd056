use rvboot::error::{from_virtio_error, BlkError, KernelError, NetError, VirtioError};

#[test]
fn test_error_display() {
    assert_eq!(VirtioError::DeviceNotFound.as_str(), "Virtio device not found");
    assert_eq!(VirtioError::QueueFull.as_str(), "Virtqueue is full");
}

#[test]
fn test_error_recoverable() {
    assert!(VirtioError::QueueFull.is_recoverable());
    assert!(!VirtioError::InitFailed.is_recoverable());
}

#[test]
fn test_error_requires_reset() {
    assert!(VirtioError::InitFailed.requires_reset());
    assert!(!VirtioError::QueueFull.requires_reset());
}

#[test]
fn test_blk_error_conversion() {
    let virtio_err = VirtioError::DmaError;
    let blk_err: BlkError = virtio_err.into();
    assert_eq!(blk_err, BlkError::VirtioError(VirtioError::DmaError));
}

#[test]
fn recoverable_and_reset_sets() {
    for e in [VirtioError::Timeout, VirtioError::NotReady, VirtioError::BufferTooSmall] {
        assert!(e.is_recoverable());
        assert!(!e.requires_reset());
    }
    for e in [
        VirtioError::FeaturesNegotiationFailed,
        VirtioError::QueueSetupFailed,
        VirtioError::DmaError,
        VirtioError::InternalError,
    ] {
        assert!(e.requires_reset());
        assert!(!e.is_recoverable());
    }
    assert!(!VirtioError::IoError.is_recoverable());
    assert!(!VirtioError::IoError.requires_reset());
}

#[test]
fn messages_of_other_errors() {
    assert_eq!(VirtioError::MemoryNotAligned.as_str(), "Memory not properly aligned");
    assert_eq!(VirtioError::QueueEmpty.as_str(), "virtqueue is empty");
    assert_eq!(BlkError::ReadOnly.as_str(), "Block device is read-only");
    assert_eq!(BlkError::VirtioError(VirtioError::IoError).as_str(), "Underlying virtio error");
}

#[test]
fn conversions_wrap_the_transport_error() {
    let n: NetError = VirtioError::Timeout.into();
    assert_eq!(n, NetError::VirtioError(VirtioError::Timeout));
    let k: KernelError = VirtioError::IoError.into();
    assert!(matches!(k, KernelError::VirtioError(VirtioError::IoError)));
    assert_eq!(from_virtio_error(VirtioError::QueueFull), VirtioError::QueueFull);
}
