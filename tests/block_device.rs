use std::collections::HashMap;

use rvboot::blk::{
    should_retry, BusOp, ReadPoll, VirtioBlk, VIRTIO_CONFIG, VIRTIO_DEVICE_FEATURES, VIRTIO_QUEUE_NOTIFY,
    VIRTIO_QUEUE_NUM, VIRTIO_QUEUE_NUM_MAX, VIRTIO_QUEUE_PFN, VIRTIO_STATUS,
};
use rvboot::error::{KernelError, VirtioError};
use rvboot::loader::{create_kernel_loader, find_and_load_kernel, KernelLoader, ScanStep};
use rvboot::platform::{BLK_DATA_ADDR, BLK_STATUS_ADDR};
use rvboot::queue::{Descriptor, UsedElem, VIRTQ_DESC_F_NEXT};

/// A legacy virtio-blk device backed by sectors in memory.
struct SimDevice {
    disk: Vec<[u8; 512]>,
    status: u32,
    queue_num: u32,
    pfn: u32,
    accept_pfn: bool,
    keeps_driver_ok: bool,
    mem: HashMap<u64, u8>,
    descs: HashMap<u16, Descriptor>,
    avail: HashMap<u16, u16>,
    avail_idx: u16,
    seen_idx: u16,
    used_idx: u16,
    used_ring: Vec<UsedElem>,
    io_errors_left: u32,
    notifies: u32,
}

impl SimDevice {
    fn new(disk: Vec<[u8; 512]>) -> Self {
        SimDevice {
            disk,
            status: 0,
            queue_num: 0,
            pfn: 0,
            accept_pfn: true,
            keeps_driver_ok: true,
            mem: HashMap::new(),
            descs: HashMap::new(),
            avail: HashMap::new(),
            avail_idx: 0,
            seen_idx: 0,
            used_idx: 0,
            used_ring: Vec::new(),
            io_errors_left: 0,
            notifies: 0,
        }
    }

    fn read_mem(&self, addr: u64, len: usize) -> Vec<u8> {
        (0..len as u64).map(|i| *self.mem.get(&(addr + i)).unwrap_or(&0)).collect()
    }

    fn write_mem(&mut self, addr: u64, bytes: &[u8]) {
        for (i, b) in bytes.iter().enumerate() {
            self.mem.insert(addr + i as u64, *b);
        }
    }

    fn read_reg(&self, offset: usize) -> u32 {
        let capacity = self.disk.len() as u64;
        match offset {
            VIRTIO_STATUS => self.status,
            VIRTIO_DEVICE_FEATURES => 0x1234,
            VIRTIO_QUEUE_NUM_MAX => 8,
            VIRTIO_QUEUE_PFN => self.pfn,
            VIRTIO_CONFIG => capacity as u32,
            o if o == VIRTIO_CONFIG + 4 => (capacity >> 32) as u32,
            _ => 0,
        }
    }

    fn write_reg(&mut self, offset: usize, value: u32) {
        match offset {
            VIRTIO_STATUS => {
                self.status = if self.keeps_driver_ok { value } else { value & !4 };
            }
            VIRTIO_QUEUE_NUM => {
                self.queue_num = value;
                self.used_ring = vec![UsedElem::default(); value as usize];
            }
            VIRTIO_QUEUE_PFN => {
                if self.accept_pfn {
                    self.pfn = value;
                }
            }
            VIRTIO_QUEUE_NOTIFY => self.serve(),
            _ => {}
        }
    }

    /// Serves every chain published since the last notify.
    fn serve(&mut self) {
        self.notifies += 1;
        while self.seen_idx != self.avail_idx {
            let slot = self.seen_idx % self.queue_num as u16;
            let head = self.avail[&slot];
            let d0 = self.descs[&head];
            let d1 = self.descs[&d0.next];
            let d2 = self.descs[&d1.next];
            assert_eq!(d0.flags & VIRTQ_DESC_F_NEXT, VIRTQ_DESC_F_NEXT);
            let header = self.read_mem(d0.addr, 16);
            assert_eq!(&header[..8], &[0u8; 8]);
            let sector = u64::from_le_bytes(header[8..16].try_into().unwrap());
            let status = if self.io_errors_left > 0 {
                self.io_errors_left -= 1;
                1
            } else {
                let data = self.disk[sector as usize];
                self.write_mem(d1.addr, &data);
                0
            };
            self.write_mem(d2.addr, &[status]);
            let used_slot = (self.used_idx % self.queue_num as u16) as usize;
            self.used_ring[used_slot] = UsedElem { id: head as u32, len: 513 };
            self.used_idx = self.used_idx.wrapping_add(1);
            self.seen_idx = self.seen_idx.wrapping_add(1);
        }
    }

    /// Performs one access; a register read yields its value.
    fn perform(&mut self, op: &BusOp) -> Option<u32> {
        match op {
            BusOp::WriteReg { offset, value } => self.write_reg(*offset, *value),
            BusOp::ReadReg { offset } => return Some(self.read_reg(*offset)),
            BusOp::WriteMemory { addr, bytes } => self.write_mem(*addr, bytes),
            BusOp::WriteDescriptor { index, desc } => {
                self.descs.insert(*index, *desc);
            }
            BusOp::WriteAvailSlot { slot, head } => {
                self.avail.insert(*slot, *head);
            }
            BusOp::WriteAvailIdx { idx } => self.avail_idx = *idx,
            BusOp::ReleaseFence | BusOp::FullFence => {}
        }
        None
    }
}

fn init(dev: &mut VirtioBlk, sim: &mut SimDevice) -> Result<(), VirtioError> {
    let mut input = 0;
    loop {
        let ops = dev.initialize(input)?;
        if ops.is_empty() {
            return Ok(());
        }
        for op in &ops {
            if let Some(v) = sim.perform(op) {
                input = v;
            }
        }
    }
}

/// Reads one sector with the retry policy, as a caller of the driver does.
fn read(dev: &mut VirtioBlk, sim: &mut SimDevice, sector: u64) -> Result<Vec<u8>, VirtioError> {
    let mut attempt = 0;
    loop {
        let result = (|| {
            let ops = dev.read_block(sector)?;
            for op in &ops {
                sim.perform(op);
            }
            let data = sim.read_mem(BLK_DATA_ADDR, 512);
            let status = sim.read_mem(BLK_STATUS_ADDR, 1)[0];
            let mut buf = Vec::new();
            match dev.complete_read(sim.used_idx, sim.used_ring.clone(), status, &data, &mut buf)? {
                ReadPoll::Done => Ok(buf),
                ReadPoll::Pending => {
                    dev.cancel_read()?;
                    Err(VirtioError::Timeout)
                }
            }
        })();
        match result {
            Ok(buf) => return Ok(buf),
            Err(e) if should_retry(attempt, e) => attempt += 1,
            Err(e) => return Err(e),
        }
    }
}

fn sector_of(byte: u8) -> [u8; 512] {
    [byte; 512]
}

fn ready_device(sim: &mut SimDevice) -> VirtioBlk {
    let mut dev = VirtioBlk::new(0x1000_1000, 0x7472_6976, 2).unwrap();
    init(&mut dev, sim).unwrap();
    dev
}

#[test]
fn probing_picks_block_devices_in_slot_order() {
    let slots = vec![(0x7472_6976, 0), (0x7472_6976, 1), (0, 2), (0x7472_6976, 2), (0x7472_6976, 2)];
    assert_eq!(VirtioBlk::probe_all_devices(&slots), vec![0x1000_4000, 0x1000_5000]);
    assert_eq!(VirtioBlk::with_probe(&slots).unwrap().base_addr, 0x1000_4000);
    assert_eq!(VirtioBlk::with_probe(&vec![(0x7472_6976, 0)]).err(), Some(VirtioError::DeviceNotFound));
}

#[test]
fn new_checks_magic_and_device_id() {
    assert_eq!(VirtioBlk::new(0x1000_1000, 0x1234, 2).err(), Some(VirtioError::InvalidMagic));
    assert_eq!(VirtioBlk::new(0x1000_1000, 0x7472_6976, 0).err(), Some(VirtioError::DeviceNotFound));
    assert_eq!(VirtioBlk::new(0x1000_1000, 0x7472_6976, 1).err(), Some(VirtioError::UnsupportedDevice));
    let d = VirtioBlk::with_default_addr(0x7472_6976, 2).unwrap();
    assert_eq!(d.base_addr, 0x1000_1000);
    assert!(!d.initialized);
}

#[test]
fn initialization_reaches_driver_ok() {
    let mut sim = SimDevice::new(vec![sector_of(0); 2048]);
    let dev = ready_device(&mut sim);
    assert!(dev.initialized);
    assert_eq!(sim.status & 0xf, 0xf);
    assert_eq!(sim.queue_num, 8);
    assert_eq!(sim.pfn, 0x80070);
    assert_eq!(dev.get_device_info().total_sectors, 2048);
    assert_eq!(dev.get_device_info().sector_size, 512);
    assert_eq!(dev.virtqueue.as_ref().unwrap().num_free, 8);
}

#[test]
fn initialization_failures() {
    let mut sim = SimDevice::new(vec![sector_of(0); 4]);
    sim.accept_pfn = false;
    let mut dev = VirtioBlk::new(0x1000_1000, 0x7472_6976, 2).unwrap();
    assert_eq!(init(&mut dev, &mut sim), Err(VirtioError::QueueSetupFailed));
    assert!(!dev.initialized);

    let mut sim = SimDevice::new(vec![sector_of(0); 4]);
    sim.keeps_driver_ok = false;
    let mut dev = VirtioBlk::new(0x1000_1000, 0x7472_6976, 2).unwrap();
    assert_eq!(init(&mut dev, &mut sim), Err(VirtioError::InitFailed));

    let mut dev = VirtioBlk::new(0x1000_1000, 0x7472_6976, 2).unwrap();
    dev.initialize(0).unwrap();
    assert_eq!(dev.initialize(1).err(), Some(VirtioError::InitFailed));
}

#[test]
fn read_returns_the_stored_sector() {
    let disk: Vec<[u8; 512]> = (0..16u8).map(|i| {
        let mut s = [0u8; 512];
        for (j, b) in s.iter_mut().enumerate() {
            *b = i.wrapping_mul(31).wrapping_add(j as u8);
        }
        s
    }).collect();
    let mut sim = SimDevice::new(disk.clone());
    let mut dev = ready_device(&mut sim);
    for sector in [0u64, 7, 15, 3] {
        assert_eq!(read(&mut dev, &mut sim, sector).unwrap(), disk[sector as usize].to_vec());
    }
    assert!(dev.supports_real_disk_access());
    assert_eq!(dev.virtqueue.as_ref().unwrap().num_free, 8);
    assert_eq!(read(&mut dev, &mut sim, 16), Err(VirtioError::IoError));
}

#[test]
fn read_before_initialization_is_refused() {
    let mut dev = VirtioBlk::new(0x1000_1000, 0x7472_6976, 2).unwrap();
    assert_eq!(dev.read_block(0).err(), Some(VirtioError::NotReady));
    assert_eq!(dev.cancel_read(), Err(VirtioError::NotReady));
}

#[test]
fn submission_publishes_behind_fences_then_notifies() {
    let mut sim = SimDevice::new(vec![sector_of(9); 4]);
    let mut dev = ready_device(&mut sim);
    let ops = dev.read_block(2).unwrap();
    assert_eq!(ops.len(), 12);
    let idx = ops.iter().position(|o| matches!(o, BusOp::WriteAvailIdx { .. })).unwrap();
    assert!(matches!(ops[idx], BusOp::WriteAvailIdx { idx: 1 }));
    assert!(matches!(ops[idx - 1], BusOp::ReleaseFence));
    let last_store = ops
        .iter()
        .rposition(|o| matches!(o, BusOp::WriteMemory { .. } | BusOp::WriteDescriptor { .. } | BusOp::WriteAvailSlot { .. }))
        .unwrap();
    assert!(last_store < idx - 1);
    assert!(matches!(ops[11], BusOp::WriteReg { offset: VIRTIO_QUEUE_NOTIFY, value: 0 }));
    match &ops[0] {
        BusOp::WriteMemory { bytes, .. } => assert_eq!(bytes, &vec![0, 0, 0, 0, 0, 0, 0, 0, 2, 0, 0, 0, 0, 0, 0, 0]),
        _ => panic!("the request header comes first"),
    }
    // a second read cannot start while this one is in flight
    assert_eq!(dev.read_block(1).err(), Some(VirtioError::NotReady));
    assert_eq!(dev.cancel_read(), Ok(()));
    assert_eq!(dev.virtqueue.as_ref().unwrap().num_free, 8);
}

#[test]
fn read_is_retried_after_io_errors() {
    let mut sim = SimDevice::new(vec![sector_of(0x5a); 8]);
    sim.io_errors_left = 3;
    let mut dev = ready_device(&mut sim);
    assert_eq!(read(&mut dev, &mut sim, 5).unwrap(), vec![0x5a; 512]);
    assert_eq!(sim.notifies, 4);
    assert_eq!(dev.virtqueue.as_ref().unwrap().num_free, 8);
}

#[test]
fn retry_budget_is_bounded() {
    assert!(should_retry(0, VirtioError::IoError));
    assert!(should_retry(98, VirtioError::Timeout));
    assert!(!should_retry(99, VirtioError::Timeout));
    assert!(!should_retry(0, VirtioError::DmaError));
    let mut sim = SimDevice::new(vec![sector_of(1); 2]);
    sim.io_errors_left = 1000;
    let mut dev = ready_device(&mut sim);
    assert_eq!(read(&mut dev, &mut sim, 0), Err(VirtioError::IoError));
    assert_eq!(sim.notifies, 100);
}

#[test]
fn unsupported_status_is_reported() {
    let mut sim = SimDevice::new(vec![sector_of(1); 2]);
    let mut dev = ready_device(&mut sim);
    let ops = dev.read_block(0).unwrap();
    for op in &ops {
        sim.perform(op);
    }
    let mut buf = Vec::new();
    let r = dev.complete_read(sim.used_idx, sim.used_ring.clone(), 2, &[0u8; 512], &mut buf);
    assert_eq!(r, Err(VirtioError::UnsupportedOperation));
    assert_eq!(dev.virtqueue.as_ref().unwrap().num_free, 8);
}

#[test]
fn completion_waits_for_the_device() {
    let mut sim = SimDevice::new(vec![sector_of(1); 2]);
    let mut dev = ready_device(&mut sim);
    dev.read_block(1).unwrap();
    let mut buf = Vec::new();
    let r = dev.complete_read(0, vec![UsedElem::default(); 8], 0, &[0u8; 512], &mut buf);
    assert_eq!(r, Ok(ReadPoll::Pending));
    assert_eq!(dev.complete_read(0, vec![], 0, &[0u8; 512], &mut buf), Err(VirtioError::InvalidParam));
    let short = dev.complete_read(1, vec![UsedElem { id: 0, len: 1 }; 8], 0, &[0u8; 10], &mut buf);
    assert_eq!(short, Err(VirtioError::DmaError));
}

// ---- end-to-end: scan, stage, parse ----

fn kernel_image() -> Vec<u8> {
    let mut img = vec![0u8; 0x1200];
    img[..7].copy_from_slice(&[0x7f, b'E', b'L', b'F', 2, 1, 1]);
    img[24..32].copy_from_slice(&0x8020_0000u64.to_le_bytes());
    img[32..40].copy_from_slice(&64u64.to_le_bytes());
    img[52..54].copy_from_slice(&64u16.to_le_bytes());
    img[54..56].copy_from_slice(&56u16.to_le_bytes());
    img[56..58].copy_from_slice(&1u16.to_le_bytes());
    img[64..68].copy_from_slice(&1u32.to_le_bytes());
    img[72..80].copy_from_slice(&0x1000u64.to_le_bytes());
    img[80..88].copy_from_slice(&0x8020_0000u64.to_le_bytes());
    img[96..104].copy_from_slice(&512u64.to_le_bytes());
    img[104..112].copy_from_slice(&1024u64.to_le_bytes());
    for i in 0x1000..0x1200 {
        img[i] = (i * 7 % 256) as u8;
    }
    img
}

fn disk_with_image(gap: usize, fill: u8, image: &[u8]) -> Vec<[u8; 512]> {
    let mut disk = vec![[fill; 512]; gap];
    for chunk in image.chunks(512) {
        let mut s = [0u8; 512];
        s[..chunk.len()].copy_from_slice(chunk);
        disk.push(s);
    }
    while disk.len() < 2048 {
        disk.push([0u8; 512]);
    }
    disk
}

/// Scans for the image and stages it, as the boot path does.
fn stage(disk: Vec<[u8; 512]>) -> (KernelLoader, ScanStep) {
    let mut sim = SimDevice::new(disk);
    let dev = ready_device(&mut sim);
    let mut loader = create_kernel_loader(Some(dev)).unwrap();
    let mut sector = 0u32;
    let step = loop {
        let data = read(&mut loader.blk_device, &mut sim, sector as u64).unwrap_or_default();
        match loader.detect_elf_start_sector(sector, &data) {
            ScanStep::ReadNext(next) => sector = next,
            done => break done,
        }
    };
    let start = loader.get_elf_start_sector().unwrap();
    let count = loader.begin_load(start).unwrap();
    for i in 0..count {
        let data = read(&mut loader.blk_device, &mut sim, (start + i) as u64).unwrap();
        loader.store_sector(&data).unwrap();
    }
    (loader, step)
}

#[test]
fn image_at_sector_zero_boots() {
    let img = kernel_image();
    let (loader, step) = stage(disk_with_image(0, 0, &img));
    assert_eq!(step, ScanStep::Found(0));
    assert_eq!(loader.bytes_loaded, 2048 * 512);
    let (staged, offset) = loader.get_elf_data_with_offset();
    assert_eq!(offset, 0);
    assert_eq!(&staged[..4], &[0x7f, b'E', b'L', b'F']);
    let plan = find_and_load_kernel(&loader).unwrap();
    assert_eq!(plan.entry, 0x8020_0000);
    assert!(!plan.entry_fallback);
    assert_eq!((plan.hart_id, plan.dtb_addr), (0, 0x8700_0000));
    assert_eq!(plan.segments.len(), 1);
    assert_eq!(plan.segments[0].vaddr, 0x8020_0000);
    assert_eq!(&plan.segments[0].bytes[..512], &img[0x1000..0x1200]);
    assert_eq!(plan.segments[0].bytes.len(), 1024);
    assert!(plan.segments[0].bytes[512..].iter().all(|&b| b == 0));
}

#[test]
fn image_after_a_gap_is_found() {
    let img = kernel_image();
    let (loader, step) = stage(disk_with_image(34, 0xff, &img));
    assert_eq!(step, ScanStep::Found(34));
    assert_eq!(loader.get_elf_start_sector(), Some(34));
    assert_eq!(loader.staging[0], 0x7f);
    assert_eq!(loader.bytes_loaded, (2048 - 34) * 512);
    let plan = loader.find_and_load_kernel().unwrap();
    assert_eq!(plan.entry, 0x8020_0000);
    assert_eq!(&plan.segments[0].bytes[..512], &img[0x1000..0x1200]);
}

#[test]
fn disk_without_an_image_does_not_boot() {
    let (loader, step) = stage(vec![[0u8; 512]; 2048]);
    assert_eq!(step, ScanStep::Fallback(1));
    assert!(matches!(loader.find_and_load_kernel(), Err(KernelError::ElfError("invalid ELF magic"))));
}

#[test]
fn entry_out_of_range_falls_back() {
    let mut img = kernel_image();
    img[24..32].copy_from_slice(&0x7000_0000u64.to_le_bytes());
    let (loader, _) = stage(disk_with_image(0, 0, &img));
    let plan = loader.find_and_load_kernel().unwrap();
    assert_eq!(plan.entry, 0x8040_0000);
    assert!(plan.entry_fallback);
}

#[test]
fn staging_refuses_odd_sectors_and_overflow() {
    let mut sim = SimDevice::new(vec![[0u8; 512]; 4000]);
    let dev = ready_device(&mut sim);
    let mut loader = KernelLoader::new(dev);
    assert_eq!(loader.begin_load(4000).err().map(|e| matches!(e, KernelError::IoError)), Some(true));
    assert_eq!(loader.begin_load(0).unwrap(), 2048);
    assert!(matches!(loader.store_sector(&[0u8; 100]), Err(KernelError::IoError)));
    for _ in 0..2048 {
        loader.store_sector(&[1u8; 512]).unwrap();
    }
    assert!(matches!(loader.store_sector(&[1u8; 512]), Err(KernelError::BufferTooSmall)));
    assert!(create_kernel_loader(None).is_err());
}
