//! Finding the kernel image on the disk, staging it, and turning its
//! loadable segments into the bytes to store before the jump.
use vstd::prelude::*;
use crate::blk::{SECTOR_SIZE, VirtioBlk};
use crate::elf::{
    ElfParser, LoadSegment, e_entry, e_phnum, elf_error, has_elf_magic, is_load, le_u64, load_list,
    phdr_at, segment_at, some_offset_out,
};
use crate::error::KernelError;
use crate::platform::{
    BUFFER_SIZE, DEFAULT_KERNEL_ENTRY, DMA_RING_END, DMA_RING_START, DTB_ADDR, KERNEL_ENTRY_END,
    KERNEL_ENTRY_MIN, SAFE_BUFFER_BASE,
};

verus! {

/// Sectors searched for the ELF signature: 0 through 99.
pub const ELF_SCAN_LIMIT: u32 = 100;
/// Where the image is assumed to start when no sector shows the signature.
pub const ELF_FALLBACK_SECTOR: u32 = 1;
/// Segments may not be stored below this address.
pub const MIN_SEGMENT_ADDR: u64 = 0x1000;
/// The hart that boots the kernel.
pub const BOOT_HART_ID: u64 = 0;

/// Whether `e` is a plausible kernel entry point.
pub open spec fn entry_in_window(e: int) -> bool {
    KERNEL_ENTRY_MIN <= e < KERNEL_ENTRY_END
}

/// The entry point the kernel is started at.
pub open spec fn sane_entry(e: int) -> u64 {
    if entry_in_window(e) {
        e as u64
    } else {
        DEFAULT_KERNEL_ENTRY
    }
}

/// Whether `[a, a + n)` meets `[b, e)`.
pub open spec fn overlaps(a: int, n: int, b: int, e: int) -> bool {
    n > 0 && a < e && b < a + n
}

/// Whether a segment of `file_len` file bytes and `memsz` bytes of memory
/// may be stored at `vaddr`: not in the lowest page, not past the end of
/// the address space, and clear of the ring and of the staging buffer.
pub open spec fn segment_loadable(vaddr: u64, file_len: int, memsz: u64) -> bool {
    let n = if memsz > file_len { memsz as int } else { file_len };
    &&& vaddr >= MIN_SEGMENT_ADDR
    &&& vaddr + n <= u64::MAX
    &&& !overlaps(vaddr as int, n, DMA_RING_START as int, DMA_RING_END as int)
    &&& !overlaps(vaddr as int, n, SAFE_BUFFER_BASE as int, SAFE_BUFFER_BASE + BUFFER_SIZE)
}

/// The bytes a segment occupies in memory: its file bytes, then zeros up
/// to its memory size.
pub open spec fn segment_image(src: Seq<u8>, memsz: u64) -> Seq<u8> {
    if memsz > src.len() {
        src + Seq::new((memsz - src.len()) as nat, |i: int| 0u8)
    } else {
        src
    }
}

/// The entry point to jump to, and whether it is the fallback: an entry
/// outside `[0x8000_0000, 0x9000_0000)` is replaced by the default.
pub fn checked_entry_point(entry: u64) -> (r: (u64, bool))
    ensures
        r.0 == sane_entry(entry as int),
        r.1 == !entry_in_window(entry as int),
{
    if entry >= KERNEL_ENTRY_MIN && entry < KERNEL_ENTRY_END {
        (entry, false)
    } else {
        (DEFAULT_KERNEL_ENTRY, true)
    }
}

/// The bytes to store at `vaddr` for a segment whose file bytes are `src`
/// and whose memory size is `memsz`: `src`, then zeros up to `memsz`.
pub fn load_segment(vaddr: u64, src: &[u8], memsz: u64) -> (r: Result<Vec<u8>, KernelError>)
    ensures
        r is Ok <==> segment_loadable(vaddr, src@.len() as int, memsz),
        r is Err ==> r == Err::<Vec<u8>, KernelError>(KernelError::SegmentLoadError),
        r matches Ok(img) ==> img@ == segment_image(src@, memsz),
{
    let file_len = src.len();
    if vaddr < MIN_SEGMENT_ADDR {
        return Err(KernelError::SegmentLoadError);
    }
    let n: u64 = if memsz > file_len as u64 {
        memsz
    } else {
        file_len as u64
    };
    if n > u64::MAX - vaddr {
        return Err(KernelError::SegmentLoadError);
    }
    if n > 0 && vaddr < DMA_RING_END && DMA_RING_START < vaddr + n {
        return Err(KernelError::SegmentLoadError);
    }
    if n > 0 && vaddr < SAFE_BUFFER_BASE + BUFFER_SIZE as u64 && SAFE_BUFFER_BASE < vaddr + n {
        return Err(KernelError::SegmentLoadError);
    }
    let mut img: Vec<u8> = Vec::new();
    let mut k: usize = 0;
    while k < file_len
        invariant
            file_len == src@.len(),
            0 <= k <= file_len,
            img@ == src@.subrange(0, k as int),
        decreases file_len - k,
    {
        img.push(src[k]);
        k = k + 1;
        assert(img@ =~= src@.subrange(0, k as int));
    }
    assert(img@ =~= src@);
    if memsz > file_len as u64 {
        let zeros = memsz - file_len as u64;
        let mut z: u64 = 0;
        while z < zeros
            invariant
                zeros == memsz - src@.len(),
                0 <= z <= zeros,
                img@ == src@ + Seq::new(z as nat, |i: int| 0u8),
            decreases zeros - z,
        {
            img.push(0);
            z = z + 1;
            assert(img@ =~= src@ + Seq::new(z as nat, |i: int| 0u8));
        }
    }
    Ok(img)
}

/// Loadable segments are stored as their file bytes followed by zeros: a
/// segment of `p_filesz` bytes that lie inside the image and a memory size
/// of at least that holds the file region `[p_offset, p_offset + p_filesz)`
/// byte for byte, then `p_memsz - p_filesz` zero bytes.
pub proof fn lemma_segment_contents(s: Seq<u8>, seg: LoadSegment, img: Seq<u8>)
    requires
        seg.offset + seg.file_len <= s.len(),
        seg.memsz >= seg.file_len,
        img == segment_image(s.subrange(seg.offset as int, seg.offset + seg.file_len), seg.memsz),
    ensures
        img.len() == seg.memsz,
        forall|k: int| 0 <= k < seg.file_len ==> img[k] == s[seg.offset + k],
        forall|k: int| seg.file_len <= k < seg.memsz ==> img[k] == 0,
{
}


/// Whether every segment in `l` may be stored where it asks to go.
pub open spec fn all_loadable(l: Seq<LoadSegment>) -> bool {
    forall|i: int| 0 <= i < l.len() ==> segment_loadable(#[trigger] l[i].vaddr, l[i].file_len as int, l[i].memsz)
}

/// The file bytes of segment `seg` of image `s`.
pub open spec fn segment_file_bytes(s: Seq<u8>, seg: LoadSegment) -> Seq<u8> {
    s.subrange(seg.offset as int, seg.offset + seg.file_len)
}

/// The segments of an image that passed its checks lie inside it.
pub proof fn lemma_load_list_in_bounds(s: Seq<u8>, n: int)
    requires
        !some_offset_out(s, n),
        s.len() <= usize::MAX,
    ensures
        forall|i: int| 0 <= i < load_list(s, n).len() ==> (#[trigger] load_list(s, n)[i]).offset
            + load_list(s, n)[i].file_len <= s.len(),
    decreases n,
{
    if n > 0 {
        assert(!some_offset_out(s, n - 1)) by {
            if some_offset_out(s, n - 1) {
                let j = choose|j: int| 0 <= j < n - 1 && is_load(s, j) && le_u64(s, phdr_at(s, j) + 8) > s.len();
                assert(0 <= j < n && is_load(s, j));
            }
        }
        lemma_load_list_in_bounds(s, n - 1);
        if is_load(s, n - 1) {
            let seg = segment_at(s, n - 1);
            assert(le_u64(s, phdr_at(s, n - 1) + 8) <= s.len()) by {
                if le_u64(s, phdr_at(s, n - 1) + 8) > s.len() {
                    assert(some_offset_out(s, n));
                }
            }
            assert(seg.offset + seg.file_len <= s.len());
            assert(load_list(s, n) == load_list(s, n - 1).push(seg));
        }
        assert forall|i: int| 0 <= i < load_list(s, n).len() implies (#[trigger] load_list(s, n)[i]).offset
            + load_list(s, n)[i].file_len <= s.len() by {
            if i < load_list(s, n - 1).len() {
                assert(load_list(s, n)[i] == load_list(s, n - 1)[i]);
            }
        }
    }
}

/// What booting from a staged image `s` comes to: the parser's message for
/// a bad image, `SegmentLoadError` for a segment that may not be stored,
/// else a plan whose entry point passed the sanity check and whose
/// segments are the image's loadable segments, materialized.
pub open spec fn boot_plan_ok(s: Seq<u8>, plan: BootPlan) -> bool {
    let l = load_list(s, e_phnum(s));
    &&& plan.entry == sane_entry(e_entry(s))
    &&& plan.entry_fallback == !entry_in_window(e_entry(s))
    &&& plan.hart_id == BOOT_HART_ID
    &&& plan.dtb_addr == DTB_ADDR
    &&& plan.segments@.len() == l.len()
    &&& forall|i: int|
        0 <= i < l.len() ==> (#[trigger] plan.segments@[i]).vaddr == l[i].vaddr
            && plan.segments@[i].bytes@ == segment_image(segment_file_bytes(s, l[i]), l[i].memsz)
}

/// What the handoff needs: the entry point (and whether it is the
/// fallback), the argument registers, and the bytes of each segment.
pub struct BootPlan {
    pub entry: u64,
    pub entry_fallback: bool,
    pub hart_id: u64,
    pub dtb_addr: u64,
    pub segments: Vec<SegmentImage>,
}

/// The bytes to store at `vaddr`.
pub struct SegmentImage {
    pub vaddr: u64,
    pub bytes: Vec<u8>,
}

/// Progress of the search for the sector where the image starts.
#[derive(Debug, Clone, Copy, PartialEq, Eq, Structural)]
pub enum ScanStep {
    /// The image starts at this sector.
    Found(u32),
    /// Read this sector and pass it in next.
    ReadNext(u32),
    /// No sector showed the signature; the image is taken to start here.
    Fallback(u32),
}

/// Loads a kernel image from a block device into the staging buffer.
pub struct KernelLoader {
    pub blk_device: VirtioBlk,
    pub device_initialized: bool,
    pub elf_start_sector: Option<u32>,
    pub bytes_loaded: usize,
    pub sectors_to_read: u32,
    pub staging: Vec<u8>,
}

impl KernelLoader {
    pub open spec fn wf(&self) -> bool {
        &&& self.blk_device.wf()
        &&& self.bytes_loaded == self.staging@.len()
        &&& self.bytes_loaded <= BUFFER_SIZE
    }

    pub fn new(blk_device: VirtioBlk) -> (r: Self)
        requires
            blk_device.wf(),
        ensures
            r.wf(),
            r.blk_device == blk_device,
            !r.device_initialized,
            r.elf_start_sector is None,
            r.bytes_loaded == 0,
    {
        KernelLoader {
            blk_device,
            device_initialized: false,
            elf_start_sector: None,
            bytes_loaded: 0,
            sectors_to_read: 0,
            staging: Vec::new(),
        }
    }

    /// Whether `data` starts with the ELF magic `7f 45 4c 46`.
    pub fn is_elf_signature(data: &[u8]) -> (r: bool)
        ensures
            r == has_elf_magic(data@),
    {
        data.len() >= 4 && data[0] == 0x7f && data[1] == 0x45 && data[2] == 0x4c && data[3] == 0x46
    }

    /// One step of the search for the image: `data` is what sector `sector`
    /// holds (empty when it could not be read). Sector 0 is read first,
    /// then 1 through 99; the first that starts with the ELF magic is the
    /// start, and with none the start is sector 1.
    pub fn detect_elf_start_sector(&mut self, sector: u32, data: &[u8]) -> (r: ScanStep)
        requires
            sector < ELF_SCAN_LIMIT,
        ensures
            has_elf_magic(data@) ==> r == ScanStep::Found(sector),
            !has_elf_magic(data@) && sector + 1 < ELF_SCAN_LIMIT ==> r == ScanStep::ReadNext(
                (sector + 1) as u32,
            ),
            !has_elf_magic(data@) && sector + 1 >= ELF_SCAN_LIMIT ==> r == ScanStep::Fallback(
                ELF_FALLBACK_SECTOR,
            ),
            final(self).elf_start_sector == (match r {
                ScanStep::Found(s) => Some(s),
                ScanStep::Fallback(s) => Some(s),
                ScanStep::ReadNext(_) => old(self).elf_start_sector,
            }),
            final(self).blk_device == old(self).blk_device,
            final(self).staging == old(self).staging,
            final(self).bytes_loaded == old(self).bytes_loaded,
    {
        if Self::is_elf_signature(data) {
            self.elf_start_sector = Some(sector);
            return ScanStep::Found(sector);
        }
        if sector + 1 < ELF_SCAN_LIMIT {
            return ScanStep::ReadNext(sector + 1);
        }
        self.elf_start_sector = Some(ELF_FALLBACK_SECTOR);
        ScanStep::Fallback(ELF_FALLBACK_SECTOR)
    }

    /// Empties the staging buffer for an image starting at `start_sector`
    /// and returns how many sectors to read: the rest of the disk, at most
    /// what the staging buffer holds. Nothing to read is an I/O error.
    pub fn begin_load(&mut self, start_sector: u32) -> (r: Result<u32, KernelError>)
        requires
            old(self).wf(),
        ensures
            final(self).wf(),
            start_sector >= old(self).blk_device.config.capacity ==> r == Err::<u32, KernelError>(
                KernelError::IoError,
            ) && *final(self) == *old(self),
            start_sector < old(self).blk_device.config.capacity ==> {
                let rest = old(self).blk_device.config.capacity - start_sector;
                let cap = (BUFFER_SIZE / SECTOR_SIZE) as int;
                &&& r == Ok::<u32, KernelError>((if rest < cap { rest } else { cap }) as u32)
                &&& final(self).staging@ == Seq::<u8>::empty()
                &&& final(self).elf_start_sector == Some(start_sector)
                &&& final(self).sectors_to_read == r->Ok_0
            },
            final(self).blk_device == old(self).blk_device,
    {
        let capacity = self.blk_device.config.capacity;
        if start_sector as u64 >= capacity {
            return Err(KernelError::IoError);
        }
        let rest = capacity - start_sector as u64;
        let cap = (BUFFER_SIZE / SECTOR_SIZE) as u64;
        let count: u32 = if rest < cap {
            rest as u32
        } else {
            cap as u32
        };
        self.staging = Vec::new();
        self.bytes_loaded = 0;
        self.elf_start_sector = Some(start_sector);
        self.sectors_to_read = count;
        Ok(count)
    }

    /// Appends the next sector's bytes to the staging buffer: sector `i`
    /// of the image lands at offset `i * 512`.
    pub fn store_sector(&mut self, data: &[u8]) -> (r: Result<(), KernelError>)
        requires
            old(self).wf(),
        ensures
            final(self).wf(),
            data@.len() != SECTOR_SIZE ==> r == Err::<(), KernelError>(KernelError::IoError),
            data@.len() == SECTOR_SIZE && old(self).bytes_loaded + SECTOR_SIZE > BUFFER_SIZE ==> r
                == Err::<(), KernelError>(KernelError::BufferTooSmall),
            r is Ok <==> data@.len() == SECTOR_SIZE && old(self).bytes_loaded + SECTOR_SIZE <= BUFFER_SIZE,
            r is Err ==> *final(self) == *old(self),
            r is Ok ==> final(self).staging@ == old(self).staging@ + data@ && final(self).bytes_loaded
                == old(self).bytes_loaded + SECTOR_SIZE,
            final(self).blk_device == old(self).blk_device,
            final(self).elf_start_sector == old(self).elf_start_sector,
    {
        if data.len() != SECTOR_SIZE {
            return Err(KernelError::IoError);
        }
        if self.bytes_loaded + SECTOR_SIZE > BUFFER_SIZE {
            return Err(KernelError::BufferTooSmall);
        }
        let ghost before = self.staging@;
        let mut k: usize = 0;
        while k < SECTOR_SIZE
            invariant
                data@.len() == SECTOR_SIZE,
                0 <= k <= SECTOR_SIZE,
                self.staging@ == before + data@.subrange(0, k as int),
                before == old(self).staging@,
                old(self).wf(),
                self.bytes_loaded == old(self).bytes_loaded,
                self.bytes_loaded + SECTOR_SIZE <= BUFFER_SIZE,
                self.blk_device == old(self).blk_device,
                self.elf_start_sector == old(self).elf_start_sector,
            decreases SECTOR_SIZE - k,
        {
            self.staging.push(data[k]);
            k = k + 1;
            assert(self.staging@ =~= before + data@.subrange(0, k as int));
        }
        assert(data@.subrange(0, SECTOR_SIZE as int) =~= data@);
        self.bytes_loaded = self.bytes_loaded + SECTOR_SIZE;
        Ok(())
    }

    /// Parses the staged image and prepares the handoff: entry point
    /// (replaced by the default when implausible) and the bytes of every
    /// loadable segment.
    pub fn find_and_load_kernel(&self) -> (r: Result<BootPlan, KernelError>)
        ensures
            elf_error(self.staging@) matches Some(m) ==> (r matches Err(KernelError::ElfError(msg))
                && msg@ == m),
            elf_error(self.staging@) is None && some_offset_out(
                self.staging@,
                e_phnum(self.staging@),
            ) ==> (r matches Err(KernelError::ElfError(msg)) && msg@
                == "segment offset out of range"@),
            elf_error(self.staging@) is None && !some_offset_out(
                self.staging@,
                e_phnum(self.staging@),
            ) ==> {
                &&& r is Ok <==> all_loadable(load_list(self.staging@, e_phnum(self.staging@)))
                &&& r is Err ==> r == Err::<BootPlan, KernelError>(KernelError::SegmentLoadError)
            },
            r matches Ok(plan) ==> boot_plan_ok(self.staging@, plan),
    {
        let ghost s = self.staging@;
        let staged_len = self.staging.len();
        let data = self.staging.as_slice();
        let parser = match ElfParser::new(data) {
            Ok(p) => p,
            Err(m) => {
                return Err(KernelError::ElfError(m));
            },
        };
        let (entry, entry_fallback) = checked_entry_point(parser.entry_point());
        let segs = match parser.load_segments() {
            Ok(v) => v,
            Err(m) => {
                return Err(KernelError::ElfError(m));
            },
        };
        let ghost l = load_list(s, e_phnum(s));
        proof {
            assert(s.len() == staged_len);
            lemma_load_list_in_bounds(s, e_phnum(s));
        }
        let mut images: Vec<SegmentImage> = Vec::new();
        let mut i: usize = 0;
        while i < segs.len()
            invariant
                parser.bytes() == s,
                self.staging@ == s,
                elf_error(s) is None,
                !some_offset_out(s, e_phnum(s)),
                l == load_list(s, e_phnum(s)),
                segs@ == l,
                forall|j: int| 0 <= j < l.len() ==> (#[trigger] l[j]).offset + l[j].file_len <= s.len(),
                0 <= i <= segs@.len(),
                images@.len() == i,
                forall|j: int| 0 <= j < i ==> segment_loadable(#[trigger] l[j].vaddr, l[j].file_len as int, l[j].memsz),
                forall|j: int|
                    0 <= j < i ==> (#[trigger] images@[j]).vaddr == l[j].vaddr && images@[j].bytes@
                        == segment_image(segment_file_bytes(s, l[j]), l[j].memsz),
            decreases segs@.len() - i,
        {
            let seg = segs[i];
            let bytes = parser.segment_bytes(&seg);
            let img = match load_segment(seg.vaddr, bytes.as_slice(), seg.memsz) {
                Ok(img) => img,
                Err(e) => {
                    assert(!all_loadable(l)) by {
                        assert(!segment_loadable(l[i as int].vaddr, l[i as int].file_len as int, l[i as int].memsz));
                    }
                    return Err(e);
                },
            };
            images.push(SegmentImage { vaddr: seg.vaddr, bytes: img });
            i = i + 1;
        }
        Ok(BootPlan { entry, entry_fallback, hart_id: BOOT_HART_ID, dtb_addr: DTB_ADDR, segments: images })
    }

    pub fn get_elf_start_sector(&self) -> (r: Option<u32>)
        ensures
            r == self.elf_start_sector,
    {
        self.elf_start_sector
    }

    /// The staged image, and where the ELF data starts in it (always at
    /// offset 0: the bulk read begins at the image's start sector).
    pub fn get_elf_data_with_offset(&self) -> (r: (&[u8], usize))
        ensures
            r.0@ == self.staging@,
            r.1 == 0,
    {
        (self.staging.as_slice(), 0)
    }
}

/// Makes a loader for the device the probe found.
pub fn create_kernel_loader(device: Option<VirtioBlk>) -> (r: Result<KernelLoader, KernelError>)
    requires
        device matches Some(d) ==> d.wf(),
    ensures
        device is None ==> r == Err::<KernelLoader, KernelError>(KernelError::DeviceNotFound),
        device matches Some(d) ==> (r matches Ok(l) && l.wf() && l.blk_device == d && l.bytes_loaded
            == 0 && l.elf_start_sector is None),
{
    match device {
        Some(d) => Ok(KernelLoader::new(d)),
        None => Err(KernelError::DeviceNotFound),
    }
}

/// Prepares the handoff from what `loader` has staged.
pub fn find_and_load_kernel(loader: &KernelLoader) -> (r: Result<BootPlan, KernelError>)
    ensures
        elf_error(loader.staging@) matches Some(m) ==> (r matches Err(KernelError::ElfError(msg))
            && msg@ == m),
        elf_error(loader.staging@) is None && some_offset_out(
            loader.staging@,
            e_phnum(loader.staging@),
        ) ==> (r matches Err(KernelError::ElfError(msg)) && msg@ == "segment offset out of range"@),
        elf_error(loader.staging@) is None && !some_offset_out(
            loader.staging@,
            e_phnum(loader.staging@),
        ) ==> {
            &&& r is Ok <==> all_loadable(load_list(loader.staging@, e_phnum(loader.staging@)))
            &&& r is Err ==> r == Err::<BootPlan, KernelError>(KernelError::SegmentLoadError)
        },
        r matches Ok(plan) ==> boot_plan_ok(loader.staging@, plan),
{
    loader.find_and_load_kernel()
}

} // verus!
