use rvboot::boot::BootConfig;
use rvboot::elf::{read_u16_le, read_u32_le, read_u64_le, ElfParser, LoadSegment};
use rvboot::error::KernelError;
use rvboot::loader::{checked_entry_point, load_segment};

fn put(img: &mut [u8], at: usize, bytes: &[u8]) {
    img[at..at + bytes.len()].copy_from_slice(bytes);
}

/// An ELF64 image with one PT_LOAD segment of `filesz` file bytes at
/// `0x1000`, a memory size of `memsz`, loaded at `vaddr`; the image holds
/// `len` bytes in all.
fn image(entry: u64, vaddr: u64, filesz: u64, memsz: u64, len: usize) -> Vec<u8> {
    let mut img = vec![0u8; len];
    put(&mut img, 0, &[0x7f, b'E', b'L', b'F', 2, 1, 1]);
    put(&mut img, 16, &2u16.to_le_bytes());
    put(&mut img, 18, &0xf3u16.to_le_bytes());
    put(&mut img, 20, &1u32.to_le_bytes());
    put(&mut img, 24, &entry.to_le_bytes());
    put(&mut img, 32, &64u64.to_le_bytes());
    put(&mut img, 52, &64u16.to_le_bytes());
    put(&mut img, 54, &56u16.to_le_bytes());
    put(&mut img, 56, &1u16.to_le_bytes());
    put(&mut img, 64, &1u32.to_le_bytes());
    put(&mut img, 68, &5u32.to_le_bytes());
    put(&mut img, 72, &0x1000u64.to_le_bytes());
    put(&mut img, 80, &vaddr.to_le_bytes());
    put(&mut img, 88, &vaddr.to_le_bytes());
    put(&mut img, 96, &filesz.to_le_bytes());
    put(&mut img, 104, &memsz.to_le_bytes());
    put(&mut img, 112, &0x1000u64.to_le_bytes());
    for i in 0x1000..len {
        img[i] = (i % 251) as u8 + 1;
    }
    img
}

#[test]
fn little_endian_readers() {
    let b = [0x01, 0x02, 0x03, 0x04, 0x05, 0x06, 0x07, 0x08];
    assert_eq!(read_u16_le(&b, 0), 0x0201);
    assert_eq!(read_u32_le(&b, 4), 0x0807_0605);
    assert_eq!(read_u64_le(&b, 0), 0x0807_0605_0403_0201);
}

#[test]
fn parses_header_and_segments() {
    let img = image(0x8020_0000, 0x8020_0000, 512, 1024, 0x1200);
    let p = ElfParser::new(&img).unwrap();
    assert_eq!(p.entry_point(), 0x8020_0000);
    assert!(p.validate().is_ok());
    let segs = p.load_segments().unwrap();
    assert_eq!(
        segs,
        vec![LoadSegment { vaddr: 0x8020_0000, offset: 0x1000, file_len: 512, memsz: 1024, flags: 5, align: 0x1000 }]
    );
    assert_eq!(p.segment_bytes(&segs[0]), img[0x1000..0x1200].to_vec());
}

#[test]
fn rejects_bad_headers() {
    let good = image(0x8020_0000, 0x8020_0000, 512, 1024, 0x1200);
    assert_eq!(ElfParser::new(&good[..63]).err(), Some("ELF image too small"));
    let mut bad = good.clone();
    bad[0] = 0;
    assert_eq!(ElfParser::new(&bad).err(), Some("invalid ELF magic"));
    let mut bad = good.clone();
    bad[4] = 1;
    assert_eq!(ElfParser::new(&bad).err(), Some("not a 64-bit ELF image"));
    let mut bad = good.clone();
    bad[5] = 2;
    assert_eq!(ElfParser::new(&bad).err(), Some("not a little-endian ELF image"));
    let mut bad = good.clone();
    bad[52] = 52;
    assert_eq!(ElfParser::new(&bad).err(), Some("unexpected ELF header size"));
    let mut bad = good.clone();
    bad[54] = 32;
    assert_eq!(ElfParser::new(&bad).err(), Some("unexpected program header size"));
    let mut bad = good.clone();
    put(&mut bad, 32, &0x11f0u64.to_le_bytes());
    assert_eq!(ElfParser::new(&bad).err(), Some("program header table out of range"));
}

#[test]
fn truncated_segment_is_clamped() {
    // p_filesz says 1024 but only 512 bytes of it were staged
    let img = image(0x8020_0000, 0x8020_0000, 1024, 2048, 0x1200);
    let p = ElfParser::new(&img).unwrap();
    let segs = p.load_segments().unwrap();
    assert_eq!(segs[0].file_len, 512);
    let bytes = p.segment_bytes(&segs[0]);
    let mem = load_segment(segs[0].vaddr, &bytes, segs[0].memsz).unwrap();
    assert_eq!(mem.len(), 2048);
    assert_eq!(&mem[..512], &img[0x1000..0x1200]);
    assert!(mem[512..].iter().all(|&b| b == 0));
}

#[test]
fn segment_starting_past_the_image_is_an_error() {
    let mut img = image(0x8020_0000, 0x8020_0000, 512, 1024, 0x1200);
    put(&mut img, 72, &0x2000u64.to_le_bytes());
    let p = ElfParser::new(&img).unwrap();
    assert_eq!(p.load_segments().err(), Some("segment offset out of range"));
}

#[test]
fn segment_is_file_bytes_then_zeros() {
    let src: Vec<u8> = (1..=200u8).collect();
    let mem = load_segment(0x8020_0000, &src, 300).unwrap();
    assert_eq!(mem.len(), 300);
    assert_eq!(&mem[..200], &src[..]);
    assert!(mem[200..].iter().all(|&b| b == 0));
    // a memory size below the file size keeps the file bytes
    assert_eq!(load_segment(0x8020_0000, &src, 10).unwrap(), src);
}

#[test]
fn segment_destinations_that_are_refused() {
    let src = [1u8; 16];
    assert!(matches!(load_segment(0x800, &src, 16), Err(KernelError::SegmentLoadError)));
    assert!(matches!(load_segment(u64::MAX - 8, &src, 16), Err(KernelError::SegmentLoadError)));
    assert!(matches!(load_segment(0x8007_1ff8, &src, 16), Err(KernelError::SegmentLoadError)));
    assert!(matches!(load_segment(0x80ff_fff0, &src, 0x100), Err(KernelError::SegmentLoadError)));
    assert!(load_segment(0x8007_2000, &src, 16).is_ok());
    assert!(load_segment(0x1000, &src, 16).is_ok());
}

#[test]
fn entry_point_sanity() {
    assert_eq!(checked_entry_point(0x8020_0000), (0x8020_0000, false));
    assert_eq!(checked_entry_point(0x8000_0000), (0x8000_0000, false));
    assert_eq!(checked_entry_point(0x8fff_ffff), (0x8fff_ffff, false));
    assert_eq!(checked_entry_point(0x7000_0000), (0x8040_0000, true));
    assert_eq!(checked_entry_point(0x9000_0000), (0x8040_0000, true));
    assert_eq!(checked_entry_point(0), (0x8040_0000, true));
}

#[test]
fn boot_config_checks_the_entry() {
    let c = BootConfig::from_kernel_info(0x8020_0000, 4096).unwrap();
    assert_eq!(c.kernel_entry, 0x8020_0000);
    assert_eq!(c.memory_start, 0x8000_0000);
    assert_eq!(c.memory_size, 128 * 1024 * 1024);
    assert!(c.validate().is_ok());
    let low = BootConfig::from_kernel_info(0x7000_0000, 0).unwrap();
    assert!(matches!(low.validate(), Err(KernelError::ElfError("Invalid kernel entry point"))));
    let d = BootConfig::default();
    assert_eq!(d.kernel_entry, 0x8020_0000);
}
