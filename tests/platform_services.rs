use rvboot::blk::{BusOp, VirtioBlk, VIRTIO_DEVICE_FEATURES, VIRTIO_DEVICE_ID, VIRTIO_DRIVER_FEATURES, VIRTIO_STATUS};
use rvboot::console::{print_bool, print_decimal, print_hex, print_hex16, print_hex32, print_hex64, print_ptr, print_uint};
use rvboot::error::VirtioError;
use rvboot::mmio::VirtioMmio;
use rvboot::sbi::{
    handle_base_extension, handle_console_extension, handle_mmode_ecall_direct, handle_sbi_call_direct,
    handle_timer_extension, handle_trap, handle_unknown_trap_direct, handle_vendor_extension, TrapAction,
    SBI_ERR_NOT_SUPPORTED,
};

#[test]
fn hex_formatting() {
    assert_eq!(print_hex64(0x0123_4567_89ab_cdef), b"0123456789abcdef".to_vec());
    assert_eq!(print_hex64(0), b"0000000000000000".to_vec());
    assert_eq!(print_ptr(0x8020_0000), b"0000000080200000".to_vec());
    assert_eq!(print_hex16(0xbeef), b"BEEF".to_vec());
    assert_eq!(print_hex16(0x0a1), b"00A1".to_vec());
    assert_eq!(VirtioBlk::print_hex64(u64::MAX), b"ffffffffffffffff".to_vec());
    assert_eq!(print_bool(true), "true");
    assert_eq!(print_bool(false), "false");
}

#[test]
fn mmio_register_accesses() {
    assert_eq!(VirtioMmio::new(0x1000_1000, 0).err(), Some(VirtioError::InvalidMagic));
    let mut m = VirtioMmio::new(0x1000_1000, 0x7472_6976).unwrap();
    assert_eq!(m.base_addr, 0x1000_1000);
    assert!(m.check_magic(0x7472_6976));
    assert!(!m.check_magic(0x7472_6977));
    assert!(m.check_version(1));
    assert!(!m.check_version(2));
    assert!(m.verify_device(0x7472_6976).is_ok());
    assert!(matches!(m.device_id(), BusOp::ReadReg { offset: VIRTIO_DEVICE_ID }));
    assert!(matches!(m.device_features(), BusOp::ReadReg { offset: VIRTIO_DEVICE_FEATURES }));
    assert!(matches!(m.set_driver_features(0), BusOp::WriteReg { offset: VIRTIO_DRIVER_FEATURES, value: 0 }));
    assert!(matches!(m.set_status(3), BusOp::WriteReg { offset: VIRTIO_STATUS, value: 3 }));
}

#[test]
fn queue_memory_helpers() {
    let d = VirtioBlk::new(0x1000_1000, 0x7472_6976, 2).unwrap();
    assert_eq!(d.allocate_queue_memory(8), Ok((0x8007_0000, 0x8007_0080, 0x8007_1000)));
    assert_eq!(d.allocate_queue_memory(256), Err(VirtioError::DmaError));
    assert_eq!(d.calculate_legacy_pfn(0x8007_0000), 0x80070);
    assert!(d.validate_legacy_dma_region(0x8000_0000, 512));
    assert!(!d.validate_legacy_dma_region(0x7fff_ffff, 1));
    assert!(!d.validate_legacy_dma_region(0x87ff_ffff, 2));
    assert!(d.debug_memory_layout(0x8007_0000, 0x8007_0080, 0x8007_1000));
    assert!(!d.debug_memory_layout(0x8007_0010, 0x8007_0080, 0x8007_1000));
}

#[test]
fn sbi_extensions() {
    assert_eq!(handle_base_extension(0, 0, 0), (0, 2));
    assert_eq!(handle_base_extension(1, 0, 0), (0, 0x5253_5342));
    assert_eq!(handle_base_extension(2, 0, 0), (0, 1));
    assert_eq!(handle_base_extension(3, 0, 0), (SBI_ERR_NOT_SUPPORTED, 0));
    assert_eq!(handle_console_extension(0, 0x141, 0), ((0, 0), Some(0x41)));
    assert_eq!(handle_console_extension(1, 0, 0), ((0, u64::MAX), None));
    assert_eq!(handle_timer_extension(0, 5, 0), (0, 0));
    assert_eq!(handle_timer_extension(1, 5, 0), (SBI_ERR_NOT_SUPPORTED, 0));
    assert_eq!(handle_vendor_extension(0, 0, 0), (SBI_ERR_NOT_SUPPORTED, 0));
}

#[test]
fn trap_dispatch() {
    match handle_sbi_call_direct(0x10, 0, 0, 0, 0x8020_0000) {
        TrapAction::Resume { pc, ret, output } => {
            assert_eq!(pc, 0x8020_0004);
            assert_eq!(ret, (0, 2));
            assert_eq!(output, None);
        }
        other => panic!("unexpected {:?}", other),
    }
    match handle_sbi_call_direct(0x1234, 0, 0, 0, 0x100) {
        TrapAction::Resume { ret, .. } => assert_eq!(ret, (SBI_ERR_NOT_SUPPORTED, 0)),
        other => panic!("unexpected {:?}", other),
    }
    assert!(matches!(handle_sbi_call_direct(0x5352_5354, 0, 0, 0, 0), TrapAction::Shutdown));
    match handle_trap(9, 0x8020_0000, b'x' as u64, 0, 0, 0x01) {
        TrapAction::Resume { output, .. } => assert_eq!(output, Some(b'x')),
        other => panic!("unexpected {:?}", other),
    }
    assert!(matches!(handle_trap(0xb, 0x10, 0, 0, 0, 0), TrapAction::Skip { pc: 0x14 }));
    assert!(matches!(handle_mmode_ecall_direct(u64::MAX - 1), TrapAction::Skip { pc: 2 }));
    assert!(matches!(handle_unknown_trap_direct(1, 0x10), TrapAction::Skip { pc: 0x14 }));
    assert!(matches!(handle_unknown_trap_direct(2, 0x10), TrapAction::Shutdown));
    assert!(matches!(handle_trap(0x8000_0000_0000_0005, 0x10, 0, 0, 0, 0), TrapAction::Shutdown));
}

#[test]
fn decimal_and_short_hex_formatting() {
    assert_eq!(print_decimal(0), b"0".to_vec());
    assert_eq!(print_decimal(1_234_567), b"1234567".to_vec());
    assert_eq!(print_uint(u32::MAX), b"4294967295".to_vec());
    assert_eq!(print_uint(10), b"10".to_vec());
    assert_eq!(print_hex(0x7f), b"7F".to_vec());
    assert_eq!(print_hex(0x0a), b"0A".to_vec());
    assert_eq!(print_hex32(0x8007_0000), b"80070000".to_vec());
}
