//! Legacy virtio-blk over MMIO. The driver never touches the bus itself:
//! each step hands back the register accesses, memory stores and fences to
//! perform, in order, and takes in what was read.
use vstd::prelude::*;
use crate::error::{Result, VirtioError};
use crate::platform::{BLK_DATA_ADDR, BLK_REQ_ADDR, BLK_STATUS_ADDR, VIRTIO_MMIO_BASE, VIRTIO_MMIO_SLOTS, VIRTIO_MMIO_STRIDE};
use crate::queue::{
    Descriptor, QUEUE_DESC_BASE, QUEUE_USED_BASE, UsedElem, VIRTQ_DESC_F_NEXT, VIRTQ_DESC_F_WRITE,
    Virtqueue,
};

verus! {

pub const VIRTIO_MAGIC: usize = 0x000;
pub const VIRTIO_VERSION: usize = 0x004;
pub const VIRTIO_DEVICE_ID: usize = 0x008;
pub const VIRTIO_VENDOR_ID: usize = 0x00c;
pub const VIRTIO_DEVICE_FEATURES: usize = 0x010;
pub const VIRTIO_DRIVER_FEATURES: usize = 0x020;
pub const VIRTIO_GUEST_PAGE_SIZE: usize = 0x028;
pub const VIRTIO_QUEUE_SEL: usize = 0x030;
pub const VIRTIO_QUEUE_NUM_MAX: usize = 0x034;
pub const VIRTIO_QUEUE_NUM: usize = 0x038;
pub const VIRTIO_QUEUE_ALIGN: usize = 0x03c;
pub const VIRTIO_QUEUE_PFN: usize = 0x040;
pub const VIRTIO_QUEUE_NOTIFY: usize = 0x050;
pub const VIRTIO_ISR_STATUS: usize = 0x060;
pub const VIRTIO_STATUS: usize = 0x070;
pub const VIRTIO_CONFIG: usize = 0x100;

/// "virt" read as a little-endian word.
pub const VIRTIO_MAGIC_VALUE: u32 = 0x7472_6976;
pub const VIRTIO_DEVICE_ID_BLOCK: u32 = 2;

pub const VIRTIO_STATUS_ACKNOWLEDGE: u32 = 1;
pub const VIRTIO_STATUS_DRIVER: u32 = 2;
pub const VIRTIO_STATUS_DRIVER_OK: u32 = 4;
pub const VIRTIO_STATUS_FEATURES_OK: u32 = 8;
pub const VIRTIO_STATUS_FAILED: u32 = 0x80;

pub const VIRTIO_BLK_T_IN: u32 = 0;
pub const VIRTIO_BLK_S_OK: u8 = 0;
pub const VIRTIO_BLK_S_IOERR: u8 = 1;
pub const VIRTIO_BLK_S_UNSUPP: u8 = 2;

pub const SECTOR_SIZE: usize = 512;
pub const GUEST_PAGE_SIZE: u32 = 4096;
/// The largest ring this driver asks for.
pub const QUEUE_SIZE_LIMIT: u32 = 8;
/// Attempts of one block read before its error is reported.
pub const MAX_READ_ATTEMPTS: u32 = 100;

/// One access to the device or to memory shared with it.
#[derive(Debug, Clone)]
pub enum BusOp {
    /// Store a 32-bit value in the device register at `offset`.
    WriteReg { offset: usize, value: u32 },
    /// Load the device register at `offset`; the value is handed to the
    /// driver's next step.
    ReadReg { offset: usize },
    /// Store bytes in guest memory.
    WriteMemory { addr: u64, bytes: Vec<u8> },
    /// Store a cell of the descriptor table.
    WriteDescriptor { index: u16, desc: Descriptor },
    /// Store a chain head in a slot of the available ring.
    WriteAvailSlot { slot: u16, head: u16 },
    /// Store the available ring's index, publishing the slots before it.
    WriteAvailIdx { idx: u16 },
    /// Order the stores before it ahead of those after it.
    ReleaseFence,
    /// Order all memory and device accesses (`fence iorw, iorw`).
    FullFence,
}

/// Where initialization stands.
#[derive(Debug, Clone, Copy, PartialEq, Eq, Structural)]
pub enum InitPhase {
    Reset,
    CheckDriver,
    SetFeaturesOk,
    CheckFeaturesOk,
    SetQueue,
    CheckQueue,
    CheckDriverOk,
    CapacityLow,
    CapacityHigh,
    Ready,
}

/// Device configuration space.
#[derive(Debug, Clone, Copy, Default)]
pub struct VirtioBlkConfig {
    pub capacity: u64,
}

/// What the device offers, in sectors.
#[derive(Debug, Clone)]
pub struct BlkDeviceInfo {
    pub sector_size: u32,
    pub total_sectors: u64,
}

/// A read that was submitted and not yet completed.
#[derive(Debug, Clone, Copy, PartialEq, Eq, Structural)]
pub struct PendingRead {
    pub head: u16,
    pub sector: u64,
}

/// Progress of a submitted read.
#[derive(Debug, Clone, Copy, PartialEq, Eq, Structural)]
pub enum ReadPoll {
    /// The device has not completed the request yet.
    Pending,
    /// The sector is in the caller's buffer.
    Done,
}

/// The little-endian bytes of `x`, `n` of them.
pub open spec fn le_bytes(x: nat, n: nat) -> Seq<u8>
    decreases n,
{
    if n == 0 {
        Seq::empty()
    } else {
        seq![(x % 256) as u8] + le_bytes(x / 256, (n - 1) as nat)
    }
}

/// The 16-byte header of a read of `sector`: type, reserved word, sector.
pub open spec fn read_header(sector: u64) -> Seq<u8> {
    le_bytes(VIRTIO_BLK_T_IN as nat, 4) + le_bytes(0, 4) + le_bytes(sector as nat, 8)
}

/// The largest power of two that is at most `max` and at most the limit.
pub open spec fn queue_size_for(max: u32) -> u16 {
    if max >= 8 {
        8
    } else if max >= 4 {
        4
    } else if max >= 2 {
        2
    } else {
        1
    }
}

/// The page frame number the transport is given for the ring.
pub open spec fn ring_pfn() -> u32 {
    (QUEUE_DESC_BASE / 4096) as u32
}

/// The error a completed request's status byte stands for.
pub open spec fn status_error(status: u8) -> VirtioError {
    if status == VIRTIO_BLK_S_UNSUPP {
        VirtioError::UnsupportedOperation
    } else {
        VirtioError::IoError
    }
}

pub open spec fn write_reg(offset: usize, value: u32) -> BusOp {
    BusOp::WriteReg { offset, value }
}

pub open spec fn read_reg(offset: usize) -> BusOp {
    BusOp::ReadReg { offset }
}

/// The phase that follows `p` when its step succeeds.
pub open spec fn next_phase(p: InitPhase) -> InitPhase {
    match p {
        InitPhase::Reset => InitPhase::CheckDriver,
        InitPhase::CheckDriver => InitPhase::SetFeaturesOk,
        InitPhase::SetFeaturesOk => InitPhase::CheckFeaturesOk,
        InitPhase::CheckFeaturesOk => InitPhase::SetQueue,
        InitPhase::SetQueue => InitPhase::CheckQueue,
        InitPhase::CheckQueue => InitPhase::CheckDriverOk,
        InitPhase::CheckDriverOk => InitPhase::CapacityLow,
        InitPhase::CapacityLow => InitPhase::CapacityHigh,
        InitPhase::CapacityHigh => InitPhase::Ready,
        InitPhase::Ready => InitPhase::Ready,
    }
}

/// The initialization protocol, one step per phase: given the value of the
/// last register read (`input`) and the status saved after feature
/// negotiation, the accesses to perform next, or why initialization fails.
pub open spec fn init_ops(phase: InitPhase, input: u32, status: u32) -> core::result::Result<Seq<BusOp>, VirtioError> {
    match phase {
        InitPhase::Reset => Ok(
            seq![
                write_reg(VIRTIO_STATUS, 0),
                write_reg(VIRTIO_STATUS, VIRTIO_STATUS_ACKNOWLEDGE),
                write_reg(VIRTIO_STATUS, VIRTIO_STATUS_ACKNOWLEDGE | VIRTIO_STATUS_DRIVER),
                read_reg(VIRTIO_STATUS),
            ],
        ),
        InitPhase::CheckDriver => if input & 3 != 3 {
            Err(VirtioError::InitFailed)
        } else {
            Ok(
                seq![
                    read_reg(VIRTIO_DEVICE_FEATURES),
                    write_reg(VIRTIO_DRIVER_FEATURES, 0),
                    read_reg(VIRTIO_STATUS),
                ],
            )
        },
        InitPhase::SetFeaturesOk => Ok(
            seq![write_reg(VIRTIO_STATUS, input | VIRTIO_STATUS_FEATURES_OK), read_reg(VIRTIO_STATUS)],
        ),
        InitPhase::CheckFeaturesOk => if input & VIRTIO_STATUS_FAILED != 0 {
            Err(VirtioError::FeaturesNegotiationFailed)
        } else {
            Ok(
                seq![
                    write_reg(VIRTIO_GUEST_PAGE_SIZE, GUEST_PAGE_SIZE),
                    write_reg(VIRTIO_QUEUE_SEL, 0),
                    read_reg(VIRTIO_QUEUE_NUM_MAX),
                ],
            )
        },
        InitPhase::SetQueue => if input == 0 {
            Err(VirtioError::QueueSetupFailed)
        } else {
            Ok(
                seq![
                    write_reg(VIRTIO_QUEUE_NUM, queue_size_for(input) as u32),
                    write_reg(VIRTIO_QUEUE_PFN, ring_pfn()),
                    read_reg(VIRTIO_QUEUE_PFN),
                ],
            )
        },
        InitPhase::CheckQueue => if input != ring_pfn() {
            Err(VirtioError::QueueSetupFailed)
        } else {
            Ok(
                seq![
                    write_reg(VIRTIO_STATUS, status | VIRTIO_STATUS_DRIVER_OK),
                    read_reg(VIRTIO_STATUS),
                ],
            )
        },
        InitPhase::CheckDriverOk => if input & VIRTIO_STATUS_DRIVER_OK == 0 {
            Err(VirtioError::InitFailed)
        } else {
            Ok(seq![read_reg(VIRTIO_CONFIG)])
        },
        InitPhase::CapacityLow => Ok(seq![read_reg((VIRTIO_CONFIG + 4) as usize)]),
        InitPhase::CapacityHigh => Ok(Seq::empty()),
        InitPhase::Ready => Ok(Seq::empty()),
    }
}


pub open spec fn notify_op() -> BusOp {
    write_reg(VIRTIO_QUEUE_NOTIFY, 0)
}

/// A store into memory the device reads: a request buffer, a descriptor
/// or an available-ring slot.
pub open spec fn stores_shared(op: BusOp) -> bool {
    op is WriteMemory || op is WriteDescriptor || op is WriteAvailSlot
}

/// Every store of the available ring's index follows a release fence that
/// itself follows every shared store, and is followed by a notify.
pub open spec fn publishes_safely(ops: Seq<BusOp>) -> bool {
    forall|k: int|
        0 <= k < ops.len() && (#[trigger] ops[k]) is WriteAvailIdx ==> {
            &&& k >= 1
            &&& ops[k - 1] == BusOp::ReleaseFence
            &&& forall|j: int| 0 <= j < ops.len() && stores_shared(#[trigger] ops[j]) ==> j < k - 1
            &&& exists|l: int| k < l < ops.len() && ops[l] == notify_op()
        }
}

/// The accesses that submit a read of `sector` through the chain `c`:
/// request header, status byte, the three descriptors, then the
/// available-ring slot and index, each behind a release fence, and the
/// notify behind a full fence.
pub open spec fn read_submission(ops: Seq<BusOp>, sector: u64, c: Seq<u16>, slot: u16, idx: u16) -> bool {
    &&& ops.len() == 12
    &&& ops[0] matches BusOp::WriteMemory { addr, bytes } && addr == BLK_REQ_ADDR && bytes@
        == read_header(sector)
    &&& ops[1] matches BusOp::WriteMemory { addr, bytes } && addr == BLK_STATUS_ADDR && bytes@ == seq![
        0xffu8,
    ]
    &&& ops[2] == BusOp::WriteDescriptor {
        index: c[0],
        desc: Descriptor { addr: BLK_REQ_ADDR, len: 16, flags: VIRTQ_DESC_F_NEXT, next: c[1] },
    }
    &&& ops[3] == BusOp::WriteDescriptor {
        index: c[1],
        desc: Descriptor {
            addr: BLK_DATA_ADDR,
            len: SECTOR_SIZE as u32,
            flags: VIRTQ_DESC_F_NEXT | VIRTQ_DESC_F_WRITE,
            next: c[2],
        },
    }
    &&& ops[4] == BusOp::WriteDescriptor {
        index: c[2],
        desc: Descriptor { addr: BLK_STATUS_ADDR, len: 1, flags: VIRTQ_DESC_F_WRITE, next: 0 },
    }
    &&& ops[5] == BusOp::ReleaseFence
    &&& ops[6] == BusOp::WriteAvailSlot { slot, head: c[0] }
    &&& ops[7] == BusOp::ReleaseFence
    &&& ops[8] == BusOp::WriteAvailIdx { idx }
    &&& ops[9] == BusOp::ReleaseFence
    &&& ops[10] == BusOp::FullFence
    &&& ops[11] == notify_op()
}

/// The accesses of a read submission publish the request only behind a
/// release fence and always notify the device afterwards.
pub proof fn lemma_submission_publishes_safely(ops: Seq<BusOp>, sector: u64, c: Seq<u16>, slot: u16, idx: u16)
    requires
        read_submission(ops, sector, c, slot, idx),
    ensures
        publishes_safely(ops),
{
    assert forall|k: int| 0 <= k < ops.len() && (#[trigger] ops[k]) is WriteAvailIdx implies {
        &&& k >= 1
        &&& ops[k - 1] == BusOp::ReleaseFence
        &&& forall|j: int| 0 <= j < ops.len() && stores_shared(#[trigger] ops[j]) ==> j < k - 1
        &&& exists|l: int| k < l < ops.len() && ops[l] == notify_op()
    } by {
        assert(k == 8);
        assert(ops[11] == notify_op());
    }
}


/// The number little-endian bytes `s` stand for.
pub open spec fn le_value(s: Seq<u8>) -> nat
    decreases s.len(),
{
    if s.len() == 0 {
        0
    } else {
        s[0] as nat + 256 * le_value(s.drop_first())
    }
}

/// The sector a request header asks for: its bytes 8 to 16.
pub open spec fn header_sector(h: Seq<u8>) -> nat {
    le_value(h.subrange(8, 16))
}

proof fn lemma_le_bytes_len(x: nat, n: nat)
    ensures
        le_bytes(x, n).len() == n,
    decreases n,
{
    if n > 0 {
        lemma_le_bytes_len(x / 256, (n - 1) as nat);
    }
}

/// Writing `x` in `n` little-endian bytes and reading them back gives `x`.
proof fn lemma_le_round_trip(x: nat, n: nat)
    requires
        x < vstd::arithmetic::power::pow(256, n),
    ensures
        le_value(le_bytes(x, n)) == x,
    decreases n,
{
    if n == 0 {
        vstd::arithmetic::power::lemma_pow0(256);
    } else {
        let p = vstd::arithmetic::power::pow(256, (n - 1) as nat);
        vstd::arithmetic::power::lemma_pow_positive(256, (n - 1) as nat);
        assert(vstd::arithmetic::power::pow(256, n) == 256 * p) by {
            vstd::arithmetic::power::lemma_pow_adds(256, 1, (n - 1) as nat);
            vstd::arithmetic::power::lemma_pow1(256);
        }
        assert(x / 256 < p) by (nonlinear_arith)
            requires
                x < 256 * p,
                p > 0,
        ;
        lemma_le_round_trip(x / 256, (n - 1) as nat);
        let b = le_bytes(x, n);
        assert(b.drop_first() =~= le_bytes(x / 256, (n - 1) as nat));
        assert(x == x % 256 + 256 * (x / 256)) by (nonlinear_arith);
    }
}

/// A read request header names the sector it was built for.
pub proof fn lemma_header_names_sector(sector: u64)
    ensures
        header_sector(read_header(sector)) == sector,
{
    lemma_le_bytes_len(VIRTIO_BLK_T_IN as nat, 4);
    lemma_le_bytes_len(0, 4);
    lemma_le_bytes_len(sector as nat, 8);
    assert(read_header(sector).subrange(8, 16) =~= le_bytes(sector as nat, 8));
    assert(vstd::arithmetic::power::pow(256, 8) == 0x1_0000_0000_0000_0000) by {
        reveal_with_fuel(vstd::arithmetic::power::pow, 9);
    }
    lemma_le_round_trip(sector as nat, 8);
}

/// A read returns what the disk stores: when the device serves a read
/// submission by writing the sector its header names into the data
/// descriptor's buffer, the bytes that `complete_read` hands back are that
/// sector of the disk.
pub proof fn lemma_read_round_trip(
    ops: Seq<BusOp>,
    sector: u64,
    c: Seq<u16>,
    slot: u16,
    idx: u16,
    disk: Seq<Seq<u8>>,
    data: Seq<u8>,
    buffer: Seq<u8>,
)
    requires
        read_submission(ops, sector, c, slot, idx),
        ops[0] matches BusOp::WriteMemory { bytes, .. } && header_sector(bytes@) < disk.len()
            && data.subrange(0, SECTOR_SIZE as int) == disk[header_sector(bytes@) as int],
        buffer == data.subrange(0, SECTOR_SIZE as int),
    ensures
        buffer == disk[sector as int],
{
    lemma_header_names_sector(sector);
}

/// Whether the used ring the device shows can follow from what the queue
/// published: one element per slot, and no more completions than requests.
pub open spec fn used_ok(q: Virtqueue, used_idx: u16, ring: Seq<UsedElem>) -> bool {
    ring.len() == q.queue_size && crate::queue::pending(q.last_used_idx, used_idx)
        <= crate::queue::pending(q.last_used_idx, q.avail.idx)
}

/// The element the driver takes next from `ring`.
pub open spec fn next_used(q: Virtqueue, ring: Seq<UsedElem>) -> UsedElem {
    ring[(q.last_used_idx % q.queue_size) as int]
}

/// The base address of MMIO slot `i`.
pub open spec fn slot_base(i: int) -> usize {
    (VIRTIO_MMIO_BASE + i * VIRTIO_MMIO_STRIDE) as usize
}

/// Whether a slot whose registers read (`magic`, `device_id`) holds a
/// block device.
pub open spec fn is_block_slot(magic: u32, device_id: u32) -> bool {
    magic == VIRTIO_MAGIC_VALUE && device_id == VIRTIO_DEVICE_ID_BLOCK
}

/// The bases of the block devices among the first `n` slots, in order.
pub open spec fn block_slots(slots: Seq<(u32, u32)>, n: int) -> Seq<usize>
    decreases n,
{
    if n <= 0 {
        Seq::empty()
    } else if is_block_slot(slots[n - 1].0, slots[n - 1].1) {
        block_slots(slots, n - 1).push(slot_base(n - 1))
    } else {
        block_slots(slots, n - 1)
    }
}


/// Appends the `n` little-endian bytes of `x`.
fn push_le(out: &mut Vec<u8>, x: u64, n: usize)
    ensures
        final(out)@ == old(out)@ + le_bytes(x as nat, n as nat),
{
    let mut v = x;
    let mut k: usize = 0;
    while k < n
        invariant
            0 <= k <= n,
            out@ + le_bytes(v as nat, (n - k) as nat) == old(out)@ + le_bytes(x as nat, n as nat),
        decreases n - k,
    {
        let ghost before = out@;
        out.push((v % 256) as u8);
        assert(le_bytes(v as nat, (n - k) as nat) == seq![(v % 256) as u8] + le_bytes(
            (v / 256) as nat,
            (n - k - 1) as nat,
        ));
        assert(out@ + le_bytes((v / 256) as nat, (n - k - 1) as nat) =~= before + le_bytes(
            v as nat,
            (n - k) as nat,
        ));
        v = v / 256;
        k = k + 1;
    }
    assert(out@ =~= out@ + le_bytes(v as nat, 0));
}

/// The request header of a read of `sector`.
pub fn request_header(sector: u64) -> (r: Vec<u8>)
    ensures
        r@ == read_header(sector),
{
    let mut out: Vec<u8> = Vec::new();
    push_le(&mut out, VIRTIO_BLK_T_IN as u64, 4);
    push_le(&mut out, 0, 4);
    push_le(&mut out, sector, 8);
    assert(out@ =~= read_header(sector));
    out
}

/// Whether a read that failed with `err` on attempt `attempt` (counting
/// from 0) is tried again: only timeouts and I/O errors are, and only
/// within the attempt budget.
pub fn should_retry(attempt: u32, err: VirtioError) -> (r: bool)
    ensures
        r == ((err == VirtioError::Timeout || err == VirtioError::IoError) && attempt + 1
            < MAX_READ_ATTEMPTS),
{
    (err == VirtioError::Timeout || err == VirtioError::IoError) && attempt < MAX_READ_ATTEMPTS - 1
}

/// A block device on a legacy virtio MMIO transport.
pub struct VirtioBlk {
    pub base_addr: usize,
    pub initialized: bool,
    pub config: VirtioBlkConfig,
    pub virtqueue: Option<Virtqueue>,
    pub queue_ready: bool,
    pub use_real_io: bool,
    pub current_queue_sel: u32,
    pub phase: InitPhase,
    pub status: u32,
    pub queue_size: u16,
    pub capacity_low: u32,
    pub pending: Option<PendingRead>,
}

impl VirtioBlk {
    pub open spec fn wf(&self) -> bool {
        &&& (self.virtqueue matches Some(q) ==> q.wf())
        &&& (self.initialized <==> self.phase == InitPhase::Ready)
        &&& (self.phase == InitPhase::CheckDriverOk || self.phase == InitPhase::CapacityLow
            || self.phase == InitPhase::CapacityHigh || self.phase == InitPhase::Ready)
            ==> self.virtqueue is Some
        &&& self.phase == InitPhase::CheckQueue ==> (self.queue_size == 1 || self.queue_size == 2
            || self.queue_size == 4 || self.queue_size == 8)
        &&& (self.pending matches Some(p) ==> {
            &&& self.initialized
            &&& self.virtqueue matches Some(q)
            &&& q.chains().contains_key(p.head)
            &&& q.chains()[p.head].len() == 3
        })
    }

    /// A device at `base_addr` that nothing has been done with yet.
    pub open spec fn fresh(&self, base_addr: usize) -> bool {
        &&& self.base_addr == base_addr
        &&& !self.initialized
        &&& self.virtqueue is None
        &&& !self.queue_ready
        &&& !self.use_real_io
        &&& self.current_queue_sel == 0
        &&& self.phase == InitPhase::Reset
        &&& self.pending is None
    }

    /// Adopts the device at `base_addr`, given what its MAGIC and DEVICE_ID
    /// registers read: the magic must be "virt" and the device a block
    /// device; an id of 0 marks an empty slot.
    pub fn new(base_addr: usize, magic: u32, device_id: u32) -> (r: Result<Self>)
        ensures
            magic != VIRTIO_MAGIC_VALUE ==> r == Err::<Self, VirtioError>(VirtioError::InvalidMagic),
            magic == VIRTIO_MAGIC_VALUE && device_id == 0 ==> r == Err::<Self, VirtioError>(
                VirtioError::DeviceNotFound,
            ),
            magic == VIRTIO_MAGIC_VALUE && device_id != 0 && device_id != VIRTIO_DEVICE_ID_BLOCK
                ==> r == Err::<Self, VirtioError>(VirtioError::UnsupportedDevice),
            r is Ok <==> is_block_slot(magic, device_id),
            r matches Ok(d) ==> d.wf() && d.fresh(base_addr),
    {
        if magic != VIRTIO_MAGIC_VALUE {
            return Err(VirtioError::InvalidMagic);
        }
        if device_id == 0 {
            return Err(VirtioError::DeviceNotFound);
        }
        if device_id != VIRTIO_DEVICE_ID_BLOCK {
            return Err(VirtioError::UnsupportedDevice);
        }
        Ok(VirtioBlk {
            base_addr,
            initialized: false,
            config: VirtioBlkConfig { capacity: 0 },
            virtqueue: None,
            queue_ready: false,
            use_real_io: false,
            current_queue_sel: 0,
            phase: InitPhase::Reset,
            status: 0,
            queue_size: 0,
            capacity_low: 0,
            pending: None,
        })
    }

    /// [`VirtioBlk::new`] at the platform's first MMIO slot.
    pub fn with_default_addr(magic: u32, device_id: u32) -> (r: Result<Self>)
        ensures
            r is Ok <==> is_block_slot(magic, device_id),
            r matches Ok(d) ==> d.wf() && d.fresh(VIRTIO_MMIO_BASE),
            magic != VIRTIO_MAGIC_VALUE ==> r == Err::<Self, VirtioError>(VirtioError::InvalidMagic),
            magic == VIRTIO_MAGIC_VALUE && device_id == 0 ==> r == Err::<Self, VirtioError>(
                VirtioError::DeviceNotFound,
            ),
            magic == VIRTIO_MAGIC_VALUE && device_id != 0 && device_id != VIRTIO_DEVICE_ID_BLOCK
                ==> r == Err::<Self, VirtioError>(VirtioError::UnsupportedDevice),
    {
        Self::new(VIRTIO_MMIO_BASE, magic, device_id)
    }

    /// The bases of the block devices among the probed slots, in slot
    /// order; `slots[i]` holds what slot `i`'s MAGIC and DEVICE_ID read.
    /// Initialization is tried on them in this order.
    pub fn probe_all_devices(slots: &Vec<(u32, u32)>) -> (r: Vec<usize>)
        requires
            slots@.len() <= VIRTIO_MMIO_SLOTS,
        ensures
            r@ == block_slots(slots@, slots@.len() as int),
    {
        let mut found: Vec<usize> = Vec::new();
        let mut i: usize = 0;
        while i < slots.len()
            invariant
                slots@.len() <= VIRTIO_MMIO_SLOTS,
                0 <= i <= slots@.len(),
                found@ == block_slots(slots@, i as int),
            decreases slots@.len() - i,
        {
            let (magic, device_id) = slots[i];
            if magic == VIRTIO_MAGIC_VALUE && device_id == VIRTIO_DEVICE_ID_BLOCK {
                found.push(VIRTIO_MMIO_BASE + i * VIRTIO_MMIO_STRIDE);
            }
            i = i + 1;
        }
        found
    }

    /// The device in the first slot that holds a block device.
    pub fn with_probe(slots: &Vec<(u32, u32)>) -> (r: Result<Self>)
        requires
            slots@.len() <= VIRTIO_MMIO_SLOTS,
        ensures
            block_slots(slots@, slots@.len() as int).len() == 0 ==> r == Err::<Self, VirtioError>(
                VirtioError::DeviceNotFound,
            ),
            block_slots(slots@, slots@.len() as int).len() > 0 ==> (r matches Ok(d) && d.wf()
                && d.fresh(block_slots(slots@, slots@.len() as int)[0])),
    {
        let found = Self::probe_all_devices(slots);
        if found.len() == 0 {
            return Err(VirtioError::DeviceNotFound);
        }
        Ok(VirtioBlk {
            base_addr: found[0],
            initialized: false,
            config: VirtioBlkConfig { capacity: 0 },
            virtqueue: None,
            queue_ready: false,
            use_real_io: false,
            current_queue_sel: 0,
            phase: InitPhase::Reset,
            status: 0,
            queue_size: 0,
            capacity_low: 0,
            pending: None,
        })
    }

    /// Selects queue `queue_index`: the register write to make.
    pub fn select_queue(&mut self, queue_index: u32) -> (r: BusOp)
        ensures
            r == write_reg(VIRTIO_QUEUE_SEL, queue_index),
            *final(self) == (VirtioBlk { current_queue_sel: queue_index, ..*old(self) }),
    {
        self.current_queue_sel = queue_index;
        BusOp::WriteReg { offset: VIRTIO_QUEUE_SEL, value: queue_index }
    }


    /// One step of initialization. `input` is the value of the last
    /// register read the previous step asked for (anything on the first
    /// step). Returns the accesses to perform, in order; an empty list once
    /// the device is ready. A failed check sends the device back to reset.
    pub fn initialize(&mut self, input: u32) -> (r: Result<Vec<BusOp>>)
        requires
            old(self).wf(),
        ensures
            final(self).wf(),
            init_ops(old(self).phase, input, old(self).status) matches Ok(s) ==> (r matches Ok(ops)
                && ops@ == s),
            init_ops(old(self).phase, input, old(self).status) matches Err(e) ==> r == Err::<
                Vec<BusOp>,
                VirtioError,
            >(e),
            r is Ok ==> final(self).phase == next_phase(old(self).phase),
            r is Err ==> final(self).phase == InitPhase::Reset,
            old(self).phase == InitPhase::CheckFeaturesOk && r is Ok ==> final(self).status == input,
            old(self).phase == InitPhase::SetQueue && r is Ok ==> final(self).queue_size
                == queue_size_for(input),
            old(self).phase == InitPhase::CheckQueue && r is Ok ==> (final(self).virtqueue matches Some(q)
                && q.queue_size == old(self).queue_size && q.num_free == q.queue_size
                && q.chains() == Map::<u16, Seq<u16>>::empty() && q.avail.idx == 0
                && q.last_used_idx == 0 && final(self).queue_ready),
            old(self).phase == InitPhase::CapacityLow ==> final(self).capacity_low == input,
            old(self).phase == InitPhase::CapacityHigh ==> final(self).config.capacity == input as u64
                * 0x1_0000_0000 + old(self).capacity_low,
            old(self).phase != InitPhase::CapacityHigh ==> final(self).config == old(self).config,
            final(self).base_addr == old(self).base_addr,
            final(self).pending == old(self).pending,
            old(self).phase == InitPhase::Ready ==> *final(self) == *old(self),
    {
        let mut ops: Vec<BusOp> = Vec::new();
        match self.phase {
            InitPhase::Reset => {
                ops.push(BusOp::WriteReg { offset: VIRTIO_STATUS, value: 0 });
                ops.push(BusOp::WriteReg { offset: VIRTIO_STATUS, value: VIRTIO_STATUS_ACKNOWLEDGE });
                ops.push(
                    BusOp::WriteReg {
                        offset: VIRTIO_STATUS,
                        value: VIRTIO_STATUS_ACKNOWLEDGE | VIRTIO_STATUS_DRIVER,
                    },
                );
                ops.push(BusOp::ReadReg { offset: VIRTIO_STATUS });
                self.phase = InitPhase::CheckDriver;
            },
            InitPhase::CheckDriver => {
                // both ACKNOWLEDGE and DRIVER must read back
                if input & 3 != 3 {
                    self.phase = InitPhase::Reset;
                    return Err(VirtioError::InitFailed);
                }
                ops.push(BusOp::ReadReg { offset: VIRTIO_DEVICE_FEATURES });
                ops.push(BusOp::WriteReg { offset: VIRTIO_DRIVER_FEATURES, value: 0 });
                ops.push(BusOp::ReadReg { offset: VIRTIO_STATUS });
                self.phase = InitPhase::SetFeaturesOk;
            },
            InitPhase::SetFeaturesOk | InitPhase::CheckFeaturesOk => {
                return self.feature_negotiation_legacy(input);
            },
            InitPhase::SetQueue | InitPhase::CheckQueue => {
                return self.initialize_virtqueue_legacy(input);
            },
            InitPhase::CheckDriverOk => {
                if input & VIRTIO_STATUS_DRIVER_OK == 0 {
                    self.phase = InitPhase::Reset;
                    return Err(VirtioError::InitFailed);
                }
                ops.push(BusOp::ReadReg { offset: VIRTIO_CONFIG });
                self.phase = InitPhase::CapacityLow;
            },
            InitPhase::CapacityLow | InitPhase::CapacityHigh => {
                return self.read_configuration_simple(input);
            },
            InitPhase::Ready => {},
        }
        assert(ops@ =~= init_ops(old(self).phase, input, old(self).status)->Ok_0);
        Ok(ops)
    }


    /// Submits a read of sector `block_id` through a fresh chain of three
    /// descriptors (header, data, status) and returns the accesses that
    /// hand it to the device. One read is in flight at a time.
    pub fn read_block(&mut self, block_id: u64) -> (r: Result<Vec<BusOp>>)
        requires
            old(self).wf(),
        ensures
            final(self).wf(),
            !old(self).initialized || old(self).pending is Some ==> r == Err::<Vec<BusOp>, VirtioError>(
                VirtioError::NotReady,
            ),
            old(self).initialized && old(self).pending is None && block_id >= old(self).config.capacity
                ==> r == Err::<Vec<BusOp>, VirtioError>(VirtioError::IoError),
            old(self).initialized && old(self).pending is None && block_id < old(self).config.capacity
                ==> (r is Ok <==> old(self).virtqueue->Some_0.num_free >= 3),
            old(self).initialized && old(self).pending is None && block_id < old(self).config.capacity
                && old(self).virtqueue->Some_0.num_free < 3 ==> r == Err::<Vec<BusOp>, VirtioError>(
                VirtioError::QueueFull,
            ),
            r is Err ==> *final(self) == *old(self),
            r matches Ok(ops) ==> {
                let oq = old(self).virtqueue->Some_0;
                let fq = final(self).virtqueue->Some_0;
                let head = oq.free_head;
                &&& final(self).pending == Some(PendingRead { head, sector: block_id })
                &&& fq.chains() == oq.chains().insert(head, oq.free_list().subrange(0, 3))
                &&& fq.num_free == oq.num_free - 3
                &&& fq.avail.idx == (oq.avail.idx + 1) % 0x10000
                &&& read_submission(
                    ops@,
                    block_id,
                    fq.chains()[head],
                    (oq.avail.idx % oq.queue_size) as u16,
                    fq.avail.idx,
                )
            },
            final(self).config == old(self).config,
            final(self).initialized == old(self).initialized,
    {
        if !self.initialized || self.pending.is_some() {
            return Err(VirtioError::NotReady);
        }
        if block_id >= self.config.capacity {
            return Err(VirtioError::IoError);
        }
        let mut vq = match self.virtqueue.take() {
            Some(vq) => vq,
            None => {
                return Err(VirtioError::NotReady);
            },
        };
        let ghost oq = vq;
        let head = match vq.alloc_desc_chain(3) {
            Ok(h) => h,
            Err(e) => {
                self.virtqueue = Some(vq);
                return Err(e);
            },
        };
        let ghost c = vq.chains()[head];
        proof {
            vq.lemma_chain_links(head);
            assert(c.len() == 3);
            assert(c.contains(c[0]) && c.contains(c[1]) && c.contains(c[2]));
            assert(vq.in_flight(c[0]) && vq.in_flight(c[1]) && vq.in_flight(c[2]));
            assert(1u16 & 4u16 == 0 && 3u16 & 4u16 == 0 && 2u16 & 4u16 == 0) by (bit_vector);
            assert(1u16 & 1u16 != 0 && 3u16 & 1u16 != 0 && 2u16 & 1u16 == 0) by (bit_vector);
            assert(VIRTQ_DESC_F_NEXT | VIRTQ_DESC_F_WRITE == 3u16) by (bit_vector);
        }
        let h1 = match vq.get_descriptor(head) {
            Some(d) => d.next,
            None => 0,
        };
        let h2 = match vq.get_descriptor(h1) {
            Some(d) => d.next,
            None => 0,
        };
        let d0 = Descriptor { addr: BLK_REQ_ADDR, len: 16, flags: VIRTQ_DESC_F_NEXT, next: h1 };
        let d1 = Descriptor {
            addr: BLK_DATA_ADDR,
            len: SECTOR_SIZE as u32,
            flags: VIRTQ_DESC_F_NEXT | VIRTQ_DESC_F_WRITE,
            next: h2,
        };
        let d2 = Descriptor { addr: BLK_STATUS_ADDR, len: 1, flags: VIRTQ_DESC_F_WRITE, next: 0 };
        let set0 = vq.set_descriptor(head, d0.addr, d0.len, d0.flags, d0.next);
        proof {
            assert(set0 is Ok);
            vq.lemma_chain_links(head);
            assert(vq.in_flight(c[1]));
        }
        let set1 = vq.set_descriptor(h1, d1.addr, d1.len, d1.flags, d1.next);
        proof {
            assert(set1 is Ok);
            vq.lemma_chain_links(head);
            assert(vq.in_flight(c[2]));
        }
        let set2 = vq.set_descriptor(h2, d2.addr, d2.len, d2.flags, d2.next);
        proof {
            assert(set2 is Ok);
        }
        let slot = vq.avail.idx % vq.queue_size;
        let published = vq.add_to_avail(head);
        proof {
            assert(published is Ok);
        }
        let mut ops: Vec<BusOp> = Vec::new();
        ops.push(BusOp::WriteMemory { addr: BLK_REQ_ADDR, bytes: request_header(block_id) });
        let mut status_byte: Vec<u8> = Vec::new();
        status_byte.push(0xff);
        ops.push(BusOp::WriteMemory { addr: BLK_STATUS_ADDR, bytes: status_byte });
        ops.push(BusOp::WriteDescriptor { index: head, desc: d0 });
        ops.push(BusOp::WriteDescriptor { index: h1, desc: d1 });
        ops.push(BusOp::WriteDescriptor { index: h2, desc: d2 });
        ops.push(BusOp::ReleaseFence);
        ops.push(BusOp::WriteAvailSlot { slot, head });
        ops.push(BusOp::ReleaseFence);
        ops.push(BusOp::WriteAvailIdx { idx: vq.avail.idx });
        ops.push(BusOp::ReleaseFence);
        ops.push(BusOp::FullFence);
        ops.push(BusOp::WriteReg { offset: VIRTIO_QUEUE_NOTIFY, value: 0 });
        self.virtqueue = Some(vq);
        self.pending = Some(PendingRead { head, sector: block_id });
        Ok(ops)
    }


    /// Takes in what the device shows after a notify: the used ring's index
    /// and elements, the request's status byte and the data buffer's bytes.
    /// While the read is not completed the result is `Pending`. Once it is,
    /// its chain goes back to the free list and the status decides: 0 puts
    /// the sector in `buffer`, 2 is an unsupported request, anything else
    /// an I/O error.
    pub fn complete_read(
        &mut self,
        used_idx: u16,
        used_ring: Vec<UsedElem>,
        status: u8,
        data: &[u8],
        buffer: &mut Vec<u8>,
    ) -> (r: Result<ReadPoll>)
        requires
            old(self).wf(),
        ensures
            final(self).wf(),
            final(self).config == old(self).config,
            final(self).initialized == old(self).initialized,
            old(self).pending is None ==> r == Err::<ReadPoll, VirtioError>(VirtioError::NotReady)
                && *final(self) == *old(self),
            old(self).pending is Some && !used_ok(old(self).virtqueue->Some_0, used_idx, used_ring@)
                ==> r == Err::<ReadPoll, VirtioError>(VirtioError::InvalidParam) && *final(self)
                == *old(self),
            old(self).pending is Some && used_ok(old(self).virtqueue->Some_0, used_idx, used_ring@)
                && used_idx == old(self).virtqueue->Some_0.last_used_idx ==> r == Ok::<
                ReadPoll,
                VirtioError,
            >(ReadPoll::Pending) && final(self).pending == old(self).pending,
            old(self).pending is Some && used_ok(old(self).virtqueue->Some_0, used_idx, used_ring@)
                && used_idx != old(self).virtqueue->Some_0.last_used_idx && next_used(
                old(self).virtqueue->Some_0,
                used_ring@,
            ).id != old(self).pending->Some_0.head ==> r == Ok::<ReadPoll, VirtioError>(
                ReadPoll::Pending,
            ) && final(self).pending == old(self).pending,
            old(self).pending is Some && used_ok(old(self).virtqueue->Some_0, used_idx, used_ring@)
                && used_idx != old(self).virtqueue->Some_0.last_used_idx && next_used(
                old(self).virtqueue->Some_0,
                used_ring@,
            ).id == old(self).pending->Some_0.head ==> {
                let oq = old(self).virtqueue->Some_0;
                let fq = final(self).virtqueue->Some_0;
                &&& final(self).pending is None
                &&& fq.chains() == oq.chains().remove(old(self).pending->Some_0.head)
                &&& fq.num_free == oq.num_free + 3
                &&& status != VIRTIO_BLK_S_OK ==> r == Err::<ReadPoll, VirtioError>(
                    status_error(status),
                )
                &&& status == VIRTIO_BLK_S_OK && data@.len() < SECTOR_SIZE ==> r == Err::<
                    ReadPoll,
                    VirtioError,
                >(VirtioError::DmaError)
                &&& status == VIRTIO_BLK_S_OK && data@.len() >= SECTOR_SIZE ==> r == Ok::<
                    ReadPoll,
                    VirtioError,
                >(ReadPoll::Done) && final(buffer)@ == data@.subrange(0, SECTOR_SIZE as int)
            },
    {
        let p = match self.pending {
            Some(p) => p,
            None => {
                return Err(VirtioError::NotReady);
            },
        };
        let mut vq = match self.virtqueue.take() {
            Some(vq) => vq,
            None => {
                return Err(VirtioError::NotReady);
            },
        };
        match vq.observe_used(used_idx, used_ring) {
            Ok(()) => {},
            Err(e) => {
                self.virtqueue = Some(vq);
                return Err(e);
            },
        }
        let elem = match vq.get_used_elem() {
            Some(e) => e,
            None => {
                self.virtqueue = Some(vq);
                return Ok(ReadPoll::Pending);
            },
        };
        if elem.id != p.head as u32 {
            self.virtqueue = Some(vq);
            return Ok(ReadPoll::Pending);
        }
        proof {
            vq.lemma_chain_links(p.head);
        }
        let freed = vq.free_desc_chain(p.head);
        proof {
            assert(freed is Ok);
        }
        self.virtqueue = Some(vq);
        self.pending = None;
        if status != VIRTIO_BLK_S_OK {
            if status == VIRTIO_BLK_S_UNSUPP {
                return Err(VirtioError::UnsupportedOperation);
            }
            return Err(VirtioError::IoError);
        }
        if data.len() < SECTOR_SIZE {
            return Err(VirtioError::DmaError);
        }
        buffer.clear();
        let mut k: usize = 0;
        while k < SECTOR_SIZE
            invariant
                SECTOR_SIZE <= data@.len(),
                0 <= k <= SECTOR_SIZE,
                buffer@ == data@.subrange(0, k as int),
            decreases SECTOR_SIZE - k,
        {
            buffer.push(data[k]);
            k = k + 1;
            assert(buffer@ =~= data@.subrange(0, k as int));
        }
        self.use_real_io = true;
        Ok(ReadPoll::Done)
    }

    /// Gives up the read in flight (its time ran out): the chain goes back
    /// to the free list so that a retry finds the ring as it was.
    pub fn cancel_read(&mut self) -> (r: Result<()>)
        requires
            old(self).wf(),
        ensures
            final(self).wf(),
            r is Ok <==> old(self).pending is Some,
            r is Err ==> r == Err::<(), VirtioError>(VirtioError::NotReady) && *final(self) == *old(
                self,
            ),
            r is Ok ==> {
                let oq = old(self).virtqueue->Some_0;
                let fq = final(self).virtqueue->Some_0;
                &&& final(self).pending is None
                &&& fq.chains() == oq.chains().remove(old(self).pending->Some_0.head)
                &&& fq.num_free == oq.num_free + 3
            },
            final(self).config == old(self).config,
            final(self).initialized == old(self).initialized,
    {
        let p = match self.pending {
            Some(p) => p,
            None => {
                return Err(VirtioError::NotReady);
            },
        };
        let mut vq = match self.virtqueue.take() {
            Some(vq) => vq,
            None => {
                return Err(VirtioError::NotReady);
            },
        };
        proof {
            vq.lemma_chain_links(p.head);
        }
        let freed = vq.free_desc_chain(p.head);
        proof {
            assert(freed is Ok);
        }
        self.virtqueue = Some(vq);
        self.pending = None;
        Ok(())
    }

    /// Feature negotiation, legacy style: accept no optional feature, set
    /// FEATURES_OK, and refuse a device that reports failure. A device that
    /// does not keep FEATURES_OK is tolerated, as legacy devices may not
    /// model the bit.
    fn feature_negotiation_legacy(&mut self, input: u32) -> (r: Result<Vec<BusOp>>)
        requires
            old(self).wf(),
            old(self).phase == InitPhase::SetFeaturesOk || old(self).phase == InitPhase::CheckFeaturesOk,
        ensures
            final(self).wf(),
            init_ops(old(self).phase, input, old(self).status) matches Ok(s) ==> (r matches Ok(ops)
                && ops@ == s),
            init_ops(old(self).phase, input, old(self).status) matches Err(e) ==> r == Err::<
                Vec<BusOp>,
                VirtioError,
            >(e),
            r is Ok ==> final(self).phase == next_phase(old(self).phase),
            r is Err ==> final(self).phase == InitPhase::Reset,
            final(self).base_addr == old(self).base_addr,
            final(self).pending == old(self).pending,
            old(self).phase == InitPhase::CheckFeaturesOk && r is Ok ==> final(self).status == input,
            final(self).config == old(self).config,
            final(self).virtqueue == old(self).virtqueue,
            final(self).initialized == old(self).initialized,
    {
        let mut ops: Vec<BusOp> = Vec::new();
        if self.phase == InitPhase::SetFeaturesOk {
            ops.push(BusOp::WriteReg { offset: VIRTIO_STATUS, value: input | VIRTIO_STATUS_FEATURES_OK });
            ops.push(BusOp::ReadReg { offset: VIRTIO_STATUS });
            self.phase = InitPhase::CheckFeaturesOk;
        } else {
            if input & VIRTIO_STATUS_FAILED != 0 {
                self.phase = InitPhase::Reset;
                return Err(VirtioError::FeaturesNegotiationFailed);
            }
            self.status = input;
            ops.push(BusOp::WriteReg { offset: VIRTIO_GUEST_PAGE_SIZE, value: GUEST_PAGE_SIZE });
            let sel = self.select_queue(0);
            ops.push(sel);
            ops.push(BusOp::ReadReg { offset: VIRTIO_QUEUE_NUM_MAX });
            self.phase = InitPhase::SetQueue;
        }
        assert(ops@ =~= init_ops(old(self).phase, input, old(self).status)->Ok_0);
        Ok(ops)
    }

    /// Queue 0: pick a ring size no larger than the device allows, hand the
    /// ring's page frame number over, and build the queue once the device
    /// reads the same number back.
    fn initialize_virtqueue_legacy(&mut self, input: u32) -> (r: Result<Vec<BusOp>>)
        requires
            old(self).wf(),
            old(self).phase == InitPhase::SetQueue || old(self).phase == InitPhase::CheckQueue,
        ensures
            final(self).wf(),
            init_ops(old(self).phase, input, old(self).status) matches Ok(s) ==> (r matches Ok(ops)
                && ops@ == s),
            init_ops(old(self).phase, input, old(self).status) matches Err(e) ==> r == Err::<
                Vec<BusOp>,
                VirtioError,
            >(e),
            r is Ok ==> final(self).phase == next_phase(old(self).phase),
            r is Err ==> final(self).phase == InitPhase::Reset,
            final(self).base_addr == old(self).base_addr,
            final(self).pending == old(self).pending,
            old(self).phase == InitPhase::SetQueue && r is Ok ==> final(self).queue_size
                == queue_size_for(input),
            old(self).phase == InitPhase::CheckQueue && r is Ok ==> (final(self).virtqueue matches Some(q)
                && q.queue_size == old(self).queue_size && q.num_free == q.queue_size
                && q.chains() == Map::<u16, Seq<u16>>::empty() && q.avail.idx == 0
                && q.last_used_idx == 0 && final(self).queue_ready),
            final(self).config == old(self).config,
            final(self).initialized == old(self).initialized,
    {
        let mut ops: Vec<BusOp> = Vec::new();
        if self.phase == InitPhase::SetQueue {
            if input == 0 {
                self.phase = InitPhase::Reset;
                return Err(VirtioError::QueueSetupFailed);
            }
            let q: u16 = if input >= QUEUE_SIZE_LIMIT {
                8
            } else if input >= 4 {
                4
            } else if input >= 2 {
                2
            } else {
                1
            };
            self.queue_size = q;
            let pfn = self.calculate_legacy_pfn(QUEUE_DESC_BASE);
            ops.push(BusOp::WriteReg { offset: VIRTIO_QUEUE_NUM, value: q as u32 });
            ops.push(BusOp::WriteReg { offset: VIRTIO_QUEUE_PFN, value: pfn });
            ops.push(BusOp::ReadReg { offset: VIRTIO_QUEUE_PFN });
            self.phase = InitPhase::CheckQueue;
        } else {
            assert(1u16 & 0u16 == 0 && 2u16 & 1u16 == 0 && 4u16 & 3u16 == 0 && 8u16 & 7u16 == 0) by (bit_vector);
            let pfn = self.calculate_legacy_pfn(QUEUE_DESC_BASE);
            if input != pfn {
                self.phase = InitPhase::Reset;
                return Err(VirtioError::QueueSetupFailed);
            }
            let q = self.queue_size;
            if q == 0 || q > 8 || q & (q - 1) != 0 {
                self.phase = InitPhase::Reset;
                return Err(VirtioError::QueueSetupFailed);
            }
            let (desc_addr, avail_addr, used_addr) = match self.allocate_queue_memory(q) {
                Ok(t) => t,
                Err(e) => {
                    self.phase = InitPhase::Reset;
                    return Err(e);
                },
            };
            let vq = match Virtqueue::new(desc_addr as usize, avail_addr as usize, used_addr as usize, q) {
                Ok(vq) => vq,
                Err(e) => {
                    self.phase = InitPhase::Reset;
                    return Err(e);
                },
            };
            self.virtqueue = Some(vq);
            self.queue_ready = true;
            ops.push(BusOp::WriteReg { offset: VIRTIO_STATUS, value: self.status | VIRTIO_STATUS_DRIVER_OK });
            ops.push(BusOp::ReadReg { offset: VIRTIO_STATUS });
            self.phase = InitPhase::CheckDriverOk;
        }
        assert(ops@ =~= init_ops(old(self).phase, input, old(self).status)->Ok_0);
        Ok(ops)
    }

    /// The capacity from the configuration space, in two 32-bit halves.
    fn read_configuration_simple(&mut self, input: u32) -> (r: Result<Vec<BusOp>>)
        requires
            old(self).wf(),
            old(self).phase == InitPhase::CapacityLow || old(self).phase == InitPhase::CapacityHigh,
        ensures
            final(self).wf(),
            init_ops(old(self).phase, input, old(self).status) matches Ok(s) ==> (r matches Ok(ops)
                && ops@ == s),
            init_ops(old(self).phase, input, old(self).status) matches Err(e) ==> r == Err::<
                Vec<BusOp>,
                VirtioError,
            >(e),
            r is Ok ==> final(self).phase == next_phase(old(self).phase),
            r is Err ==> final(self).phase == InitPhase::Reset,
            final(self).base_addr == old(self).base_addr,
            final(self).pending == old(self).pending,
            old(self).phase == InitPhase::CapacityLow ==> final(self).capacity_low == input,
            old(self).phase == InitPhase::CapacityHigh ==> final(self).config.capacity == input as u64
                * 0x1_0000_0000 + old(self).capacity_low,
            old(self).phase == InitPhase::CapacityLow ==> final(self).config == old(self).config,
            final(self).initialized == (final(self).phase == InitPhase::Ready),
    {
        let mut ops: Vec<BusOp> = Vec::new();
        if self.phase == InitPhase::CapacityLow {
            self.capacity_low = input;
            ops.push(BusOp::ReadReg { offset: VIRTIO_CONFIG + 4 });
            self.phase = InitPhase::CapacityHigh;
        } else {
            self.config.capacity = input as u64 * 0x1_0000_0000 + self.capacity_low as u64;
            self.initialized = true;
            self.phase = InitPhase::Ready;
        }
        assert(ops@ =~= init_ops(old(self).phase, input, old(self).status)->Ok_0);
        Ok(ops)
    }

    /// The 16 lower-case hex digits the console shows for `value`.
    pub fn print_hex64(value: u64) -> (r: Vec<u8>)
        ensures
            r@ == crate::console::hex_digits(value as nat, 16, false),
    {
        crate::console::print_hex64(value)
    }

    /// The legacy page frame number of a ring at `desc_addr`.
    pub fn calculate_legacy_pfn(&self, desc_addr: u64) -> (r: u32)
        ensures
            r == (desc_addr / 4096) as u32,
    {
        (desc_addr / 4096) as u32
    }

    /// The ring regions for a queue of `queue_size`: the descriptor table at
    /// its fixed base, the available ring right after it, the used ring at
    /// its fixed base. Fails when the first two would run into the third.
    pub fn allocate_queue_memory(&self, queue_size: u16) -> (r: Result<(u64, u64, u64)>)
        ensures
            r is Ok <==> QUEUE_DESC_BASE + 18 * queue_size + 6 <= QUEUE_USED_BASE,
            r is Err ==> r == Err::<(u64, u64, u64), VirtioError>(VirtioError::DmaError),
            r matches Ok(t) ==> t == (QUEUE_DESC_BASE, (QUEUE_DESC_BASE + 16 * queue_size) as u64, QUEUE_USED_BASE),
    {
        let desc_addr = QUEUE_DESC_BASE;
        let avail_addr = desc_addr + queue_size as u64 * 16;
        let used_addr = QUEUE_USED_BASE;
        if avail_addr + 6 + queue_size as u64 * 2 > used_addr {
            return Err(VirtioError::DmaError);
        }
        Ok((desc_addr, avail_addr, used_addr))
    }

    /// Whether `size` bytes at `addr` lie in the RAM the device can reach,
    /// `[0x8000_0000, 0x8800_0000)`.
    pub fn validate_legacy_dma_region(&self, addr: u64, size: u32) -> (r: bool)
        ensures
            r == (addr >= 0x8000_0000 && addr + size <= 0x8800_0000),
    {
        addr >= 0x8000_0000 && addr <= 0x8800_0000 && size as u64 <= 0x8800_0000 - addr
    }

    /// Whether ring addresses meet the legacy transport's needs: a
    /// page-aligned descriptor table (so its page frame number names it), a
    /// 2-aligned available ring and a 4-aligned used ring.
    pub fn debug_memory_layout(&self, desc_addr: u64, avail_addr: u64, used_addr: u64) -> (r: bool)
        ensures
            r == (desc_addr % 4096 == 0 && avail_addr % 2 == 0 && used_addr % 4 == 0),
    {
        desc_addr % 4096 == 0 && avail_addr % 2 == 0 && used_addr % 4 == 0
    }

    pub fn get_device_info(&self) -> (r: BlkDeviceInfo)
        ensures
            r.sector_size == SECTOR_SIZE,
            r.total_sectors == self.config.capacity,
    {
        BlkDeviceInfo { sector_size: 512, total_sectors: self.config.capacity }
    }

    /// Whether a read has completed on the device.
    pub fn supports_real_disk_access(&self) -> (r: bool)
        ensures
            r == self.use_real_io,
    {
        self.use_real_io
    }
}

} // verus!
