use rvboot::debug::{debug_write_str, set_debug_marker, DebugBuffer, DebugMarker, DebugWrite, PerfCounter};

#[test]
fn markers_record_code_and_cycle() {
    assert_eq!(DebugMarker::BootloaderStart.code(), 0xdead_beef);
    assert_eq!(DebugMarker::JumpToKernel.code(), 0x4000_0001);
    assert_eq!(
        set_debug_marker(DebugMarker::ElfParseFailed, 77),
        vec![
            DebugWrite::Word { addr: 0x8000_0000, word: 0x2000_0003 },
            DebugWrite::DoubleWord { addr: 0x8000_0008, dword: 77 },
        ]
    );
}

#[test]
fn strings_are_length_prefixed_and_terminated() {
    let w = debug_write_str(0x100, "ab");
    assert_eq!(
        w,
        vec![
            DebugWrite::Word { addr: 0x100, word: 2 },
            DebugWrite::Byte { addr: 0x104, byte: b'a' },
            DebugWrite::Byte { addr: 0x105, byte: b'b' },
            DebugWrite::Byte { addr: 0x106, byte: 0 },
        ]
    );
    let long = "x".repeat(300);
    let w = debug_write_str(0x100, &long);
    assert_eq!(w.len(), 257);
    assert_eq!(w[0], DebugWrite::Word { addr: 0x100, word: 256 });
}

#[test]
fn perf_counter_wraps() {
    let p = PerfCounter::new("load", u64::MAX - 1);
    assert_eq!(p.elapsed(3), 5);
    let w = p.print_elapsed(3);
    assert_eq!(w[0], DebugWrite::DoubleWord { addr: 0x8000_0020, dword: 5 });
    assert_eq!(w[1], DebugWrite::Word { addr: 0x8000_0030, word: 4 });
}

#[test]
fn debug_buffer_messages() {
    let mut b = DebugBuffer::init();
    assert_eq!(b.magic, 0xdead_beef);
    b.set_message("hello");
    assert_eq!(&b.message[..6], b"hello\0");
    b.set_error(7, &"y".repeat(400));
    assert_eq!(b.error_code, 7);
    assert!(b.message[..255].iter().all(|&c| c == b'y'));
    assert_eq!(b.message[255], 0);
}
