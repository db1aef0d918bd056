use vstd::prelude::*;

verus! {

/// Program header type of a loadable segment.
pub const PT_LOAD: u32 = 1;
/// Size of the ELF64 file header.
pub const EHDR_SIZE: usize = 64;
/// Size of one ELF64 program header.
pub const PHDR_SIZE: usize = 56;

pub open spec fn le_u16(s: Seq<u8>, o: int) -> int {
    s[o] + s[o + 1] * 0x100
}

pub open spec fn le_u32(s: Seq<u8>, o: int) -> int {
    s[o] + s[o + 1] * 0x100 + s[o + 2] * 0x10000 + s[o + 3] * 0x1000000
}

pub open spec fn le_u64(s: Seq<u8>, o: int) -> int {
    le_u32(s, o) + le_u32(s, o + 4) * 0x1_0000_0000
}

/// Reads a little-endian `u16` at `o`.
pub fn read_u16_le(data: &[u8], o: usize) -> (r: u16)
    requires
        o + 2 <= data@.len(),
    ensures
        r == le_u16(data@, o as int),
{
    data[o] as u16 + data[o + 1] as u16 * 0x100
}

/// Reads a little-endian `u32` at `o`.
pub fn read_u32_le(data: &[u8], o: usize) -> (r: u32)
    requires
        o + 4 <= data@.len(),
    ensures
        r == le_u32(data@, o as int),
{
    data[o] as u32 + data[o + 1] as u32 * 0x100 + data[o + 2] as u32 * 0x10000 + data[o + 3] as u32
        * 0x1000000
}

/// Reads a little-endian `u64` at `o`.
pub fn read_u64_le(data: &[u8], o: usize) -> (r: u64)
    requires
        o + 8 <= data@.len(),
    ensures
        r == le_u64(data@, o as int),
{
    // the slice's length is a usize, so `o + 4` below cannot overflow
    let _len = data.len();
    let lo = read_u32_le(data, o);
    let hi = read_u32_le(data, o + 4);
    lo as u64 + hi as u64 * 0x1_0000_0000
}

/// The file header fields this loader reads.
pub open spec fn e_entry(s: Seq<u8>) -> int {
    le_u64(s, 24)
}

pub open spec fn e_phoff(s: Seq<u8>) -> int {
    le_u64(s, 32)
}

pub open spec fn e_phnum(s: Seq<u8>) -> int {
    le_u16(s, 56)
}

pub open spec fn has_elf_magic(s: Seq<u8>) -> bool {
    s.len() >= 4 && s[0] == 0x7f && s[1] == 0x45 && s[2] == 0x4c && s[3] == 0x46
}

/// The first check an image fails, with its message; `None` for an image
/// this parser accepts: ELF64, little-endian, a 64-byte header, 56-byte
/// program headers, and a program header table inside the image.
pub open spec fn elf_error(s: Seq<u8>) -> Option<Seq<char>> {
    if s.len() < EHDR_SIZE {
        Some("ELF image too small"@)
    } else if !has_elf_magic(s) {
        Some("invalid ELF magic"@)
    } else if s[4] != 2 {
        Some("not a 64-bit ELF image"@)
    } else if s[5] != 1 {
        Some("not a little-endian ELF image"@)
    } else if le_u16(s, 52) != EHDR_SIZE {
        Some("unexpected ELF header size"@)
    } else if le_u16(s, 54) != PHDR_SIZE {
        Some("unexpected program header size"@)
    } else if e_phoff(s) + e_phnum(s) * PHDR_SIZE > s.len() {
        Some("program header table out of range"@)
    } else {
        None
    }
}

/// ELF64 file header.
#[derive(Debug, Copy, Clone)]
pub struct Elf64Ehdr {
    pub e_ident: [u8; 16],
    pub e_type: u16,
    pub e_machine: u16,
    pub e_version: u32,
    pub e_entry: u64,
    pub e_phoff: u64,
    pub e_shoff: u64,
    pub e_flags: u32,
    pub e_ehsize: u16,
    pub e_phentsize: u16,
    pub e_phnum: u16,
    pub e_shentsize: u16,
    pub e_shnum: u16,
    pub e_shstrndx: u16,
}

/// ELF64 program header.
#[derive(Debug, Copy, Clone)]
pub struct Elf64Phdr {
    pub p_type: u32,
    pub p_flags: u32,
    pub p_offset: u64,
    pub p_vaddr: u64,
    pub p_paddr: u64,
    pub p_filesz: u64,
    pub p_memsz: u64,
    pub p_align: u64,
}

/// A loadable segment: where it goes, which bytes of the image it holds
/// (clamped to the image), and how much memory it takes.
#[derive(Debug, Copy, Clone, PartialEq, Eq, Structural)]
pub struct LoadSegment {
    pub vaddr: u64,
    pub offset: usize,
    pub file_len: usize,
    pub memsz: u64,
    pub flags: u32,
    pub align: u64,
}

/// Where program header `i` starts.
pub open spec fn phdr_at(s: Seq<u8>, i: int) -> int {
    e_phoff(s) + i * PHDR_SIZE
}

pub open spec fn is_load(s: Seq<u8>, i: int) -> bool {
    le_u32(s, phdr_at(s, i)) == PT_LOAD
}

/// The segment program header `i` describes, its file bytes clamped to
/// the image.
pub open spec fn segment_at(s: Seq<u8>, i: int) -> LoadSegment {
    let o = phdr_at(s, i);
    let off = le_u64(s, o + 8);
    let filesz = le_u64(s, o + 32);
    LoadSegment {
        vaddr: le_u64(s, o + 16) as u64,
        offset: off as usize,
        file_len: (if off + filesz > s.len() { s.len() - off } else { filesz }) as usize,
        memsz: le_u64(s, o + 40) as u64,
        flags: le_u32(s, o + 4) as u32,
        align: le_u64(s, o + 48) as u64,
    }
}

/// The loadable segments among the first `n` program headers, in order.
pub open spec fn load_list(s: Seq<u8>, n: int) -> Seq<LoadSegment>
    decreases n,
{
    if n <= 0 {
        Seq::empty()
    } else if is_load(s, n - 1) {
        load_list(s, n - 1).push(segment_at(s, n - 1))
    } else {
        load_list(s, n - 1)
    }
}

/// Whether a loadable segment among the first `n` program headers starts
/// beyond the end of the image.
pub open spec fn some_offset_out(s: Seq<u8>, n: int) -> bool {
    exists|i: int| 0 <= i < n && is_load(s, i) && le_u64(s, phdr_at(s, i) + 8) > s.len()
}

/// A view of an ELF64 image held in a borrowed byte slice.
pub struct ElfParser<'a> {
    data: &'a [u8],
}

impl<'a> ElfParser<'a> {
    pub closed spec fn bytes(&self) -> Seq<u8> {
        self.data@
    }

    /// Accepts `data` when it passes every header check; the error names
    /// the first check that fails.
    pub fn new(data: &'a [u8]) -> (r: Result<Self, &'static str>)
        ensures
            r is Ok <==> elf_error(data@) is None,
            r matches Ok(p) ==> p.bytes() == data@,
            r matches Err(m) ==> elf_error(data@) == Some(m@),
    {
        if data.len() < EHDR_SIZE {
            return Err("ELF image too small");
        }
        if !(data[0] == 0x7f && data[1] == 0x45 && data[2] == 0x4c && data[3] == 0x46) {
            return Err("invalid ELF magic");
        }
        if data[4] != 2 {
            return Err("not a 64-bit ELF image");
        }
        if data[5] != 1 {
            return Err("not a little-endian ELF image");
        }
        if read_u16_le(data, 52) as usize != EHDR_SIZE {
            return Err("unexpected ELF header size");
        }
        if read_u16_le(data, 54) as usize != PHDR_SIZE {
            return Err("unexpected program header size");
        }
        let phoff = read_u64_le(data, 32);
        let phnum = read_u16_le(data, 56);
        if phoff > data.len() as u64 || (data.len() as u64 - phoff) < phnum as u64 * 56 {
            return Err("program header table out of range");
        }
        Ok(ElfParser { data })
    }

    /// The image's entry point, `e_entry`.
    pub fn entry_point(&self) -> (r: u64)
        requires
            elf_error(self.bytes()) is None,
        ensures
            r == e_entry(self.bytes()),
    {
        read_u64_le(self.data, 24)
    }


    /// The loadable segments, in program header order. A segment whose file
    /// bytes run past the image is clamped to the image: the staging buffer
    /// may hold less than the file when the tail is only zero-fill. A
    /// segment that starts past the image is an error.
    pub fn load_segments(&self) -> (r: Result<Vec<LoadSegment>, &'static str>)
        requires
            elf_error(self.bytes()) is None,
        ensures
            r is Err <==> some_offset_out(self.bytes(), e_phnum(self.bytes())),
            r matches Err(m) ==> m@ == "segment offset out of range"@,
            r matches Ok(v) ==> v@ == load_list(self.bytes(), e_phnum(self.bytes())),
    {
        let ghost s = self.data@;
        let len = self.data.len();
        let phoff = read_u64_le(self.data, 32) as usize;
        let phnum = read_u16_le(self.data, 56);
        let mut segs: Vec<LoadSegment> = Vec::new();
        let mut i: u16 = 0;
        while i < phnum
            invariant
                s == self.data@,
                len == s.len(),
                elf_error(s) is None,
                phoff == e_phoff(s),
                phnum == e_phnum(s),
                0 <= i <= phnum,
                segs@ == load_list(s, i as int),
                !some_offset_out(s, i as int),
            decreases phnum - i,
        {
            let o = phoff + i as usize * PHDR_SIZE;
            assert(o == phdr_at(s, i as int));
            assert(o + PHDR_SIZE <= len) by (nonlinear_arith)
                requires
                    o == phoff + i * 56,
                    i < phnum,
                    phoff + phnum * 56 <= len,
            ;
            let p_type = read_u32_le(self.data, o);
            if p_type == PT_LOAD {
                let off = read_u64_le(self.data, o + 8);
                if off > len as u64 {
                    assert(some_offset_out(s, phnum as int)) by {
                        assert(0 <= i < phnum && is_load(s, i as int));
                    }
                    return Err("segment offset out of range");
                }
                let filesz = read_u64_le(self.data, o + 32);
                let file_len: usize = if filesz > (len - off as usize) as u64 {
                    len - off as usize
                } else {
                    filesz as usize
                };
                let seg = LoadSegment {
                    vaddr: read_u64_le(self.data, o + 16),
                    offset: off as usize,
                    file_len,
                    memsz: read_u64_le(self.data, o + 40),
                    flags: read_u32_le(self.data, o + 4),
                    align: read_u64_le(self.data, o + 48),
                };
                assert(seg == segment_at(s, i as int));
                segs.push(seg);
            }
            assert(!some_offset_out(s, i + 1)) by {
                if some_offset_out(s, i + 1) {
                    let j = choose|j: int| 0 <= j < i + 1 && is_load(s, j) && le_u64(s, phdr_at(s, j) + 8) > s.len();
                    assert(j == i);
                }
            }
            i = i + 1;
        }
        Ok(segs)
    }

    /// The file bytes of a segment that `load_segments` returned.
    pub fn segment_bytes(&self, seg: &LoadSegment) -> (r: Vec<u8>)
        requires
            seg.offset + seg.file_len <= self.bytes().len(),
        ensures
            r@ == self.bytes().subrange(seg.offset as int, seg.offset + seg.file_len),
    {
        let len = self.data.len();
        let mut out: Vec<u8> = Vec::new();
        let mut k: usize = 0;
        while k < seg.file_len
            invariant
                len == self.data@.len(),
                seg.offset + seg.file_len <= self.data@.len(),
                0 <= k <= seg.file_len,
                out@ == self.data@.subrange(seg.offset as int, seg.offset + k),
            decreases seg.file_len - k,
        {
            out.push(self.data[seg.offset + k]);
            k = k + 1;
            assert(out@ =~= self.data@.subrange(seg.offset as int, seg.offset + k));
        }
        out
    }

    /// The image was checked when the parser was made.
    pub fn validate(&self) -> (r: Result<(), &'static str>)
        ensures
            r is Ok,
    {
        Ok(())
    }
}

} // verus!
