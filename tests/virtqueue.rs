use rvboot::error::VirtioError;
use rvboot::queue::{UsedElem, Virtqueue, VIRTQ_DESC_F_INDIRECT, VIRTQ_DESC_F_NEXT, VIRTQ_DESC_F_WRITE};

const DESC: usize = 0x8007_0000;
const USED: usize = 0x8007_1000;

fn queue(size: u16) -> Virtqueue {
    Virtqueue::new(DESC, DESC + 16 * size as usize, USED, size).unwrap()
}

#[test]
fn new_queue_has_every_descriptor_free() {
    let q = queue(8);
    assert_eq!(q.num_free, 8);
    assert_eq!(q.free_head, 0);
    assert_eq!(q.get_avail_idx(), 0);
    assert_eq!(q.get_used_idx(), 0);
    assert!(!q.has_used());
    assert!(q.check_alignment().is_ok());
}

#[test]
fn new_queue_rejects_bad_sizes_and_layouts() {
    assert_eq!(Virtqueue::new(DESC, DESC, USED, 0).err(), Some(VirtioError::InvalidParam));
    assert_eq!(Virtqueue::new(DESC, DESC + 48, USED, 3).err(), Some(VirtioError::InvalidParam));
    assert_eq!(Virtqueue::new(DESC, DESC + 16 * 2048, USED, 2048).err(), Some(VirtioError::InvalidParam));
    assert_eq!(Virtqueue::new(DESC + 16, DESC + 16 + 128, USED, 8).err(), Some(VirtioError::MemoryNotAligned));
    assert_eq!(Virtqueue::new(DESC, DESC + 130, USED, 8).err(), Some(VirtioError::MemoryNotAligned));
    assert_eq!(Virtqueue::new(DESC, DESC + 128, USED + 4, 8).err(), Some(VirtioError::MemoryNotAligned));
    assert_eq!(Virtqueue::new(DESC, DESC + 16 * 256, USED, 256).err(), Some(VirtioError::MemoryNotAligned));
    assert_eq!(Virtqueue::validate_memory_layout(DESC, DESC + 128, USED, 8), Ok(()));
}

#[test]
fn alloc_and_free_restore_the_free_count() {
    let mut q = queue(8);
    let head = q.alloc_desc_chain(3).unwrap();
    assert_eq!(head, 0);
    assert_eq!(q.num_free, 5);
    assert_eq!(q.free_head, 3);
    let d0 = q.get_descriptor(0).unwrap();
    assert_eq!(d0.flags & VIRTQ_DESC_F_NEXT, VIRTQ_DESC_F_NEXT);
    assert_eq!(d0.next, 1);
    assert_eq!(q.get_descriptor(2).unwrap().flags & VIRTQ_DESC_F_NEXT, 0);
    assert_eq!(q.free_desc_chain(head), Ok(()));
    assert_eq!(q.num_free, 8);
    assert_eq!(q.free_head, 0);
}

#[test]
fn many_requests_leak_nothing() {
    let mut q = queue(8);
    for round in 0..100u32 {
        let a = q.alloc_desc_chain(3).unwrap();
        let b = q.alloc_desc_chain(2).unwrap();
        assert_eq!(q.num_free, 3);
        if round % 2 == 0 {
            q.free_desc_chain(a).unwrap();
            q.free_desc_chain(b).unwrap();
        } else {
            q.free_desc_chain(b).unwrap();
            q.free_desc_chain(a).unwrap();
        }
        assert_eq!(q.num_free, 8);
    }
    assert_eq!(q.alloc_desc_chain(8).map(|_| ()), Ok(()));
    assert_eq!(q.num_free, 0);
}

#[test]
fn alloc_errors() {
    let mut q = queue(4);
    assert_eq!(q.alloc_desc_chain(0), Err(VirtioError::InvalidParam));
    assert_eq!(q.alloc_desc_chain(5), Err(VirtioError::QueueFull));
    q.alloc_desc_chain(3).unwrap();
    assert_eq!(q.alloc_desc_chain(2), Err(VirtioError::QueueFull));
    assert_eq!(q.num_free, 1);
}

#[test]
fn free_rejects_what_is_not_a_chain_head() {
    let mut q = queue(4);
    assert_eq!(q.free_desc_chain(9), Err(VirtioError::InvalidParam));
    assert_eq!(q.free_desc_chain(0), Err(VirtioError::InvalidDescriptor));
    let head = q.alloc_desc_chain(2).unwrap();
    assert_eq!(q.free_desc_chain(head + 1), Err(VirtioError::InvalidDescriptor));
    assert_eq!(q.free_desc_chain(head), Ok(()));
    assert_eq!(q.free_desc_chain(head), Err(VirtioError::InvalidDescriptor));
}

#[test]
fn set_descriptor_keeps_chains_intact() {
    let mut q = queue(4);
    let head = q.alloc_desc_chain(2).unwrap();
    assert_eq!(q.set_descriptor(9, 0, 0, 0, 0), Err(VirtioError::InvalidParam));
    assert_eq!(q.set_descriptor(3, 0, 0, 0, 0), Err(VirtioError::InvalidDescriptor));
    assert_eq!(q.set_descriptor(head, 0x1000, 16, 0, 0), Err(VirtioError::InvalidDescriptor));
    assert_eq!(q.set_descriptor(head, 0x1000, 16, VIRTQ_DESC_F_NEXT, 3), Err(VirtioError::InvalidDescriptor));
    assert_eq!(
        q.set_descriptor(head + 1, 0x2000, 8, VIRTQ_DESC_F_INDIRECT, 0),
        Err(VirtioError::InvalidDescriptor)
    );
    assert_eq!(q.set_descriptor(head, 0x1000, 16, VIRTQ_DESC_F_NEXT, head + 1), Ok(()));
    assert_eq!(q.set_descriptor(head + 1, 0x2000, 512, VIRTQ_DESC_F_WRITE, 7), Ok(()));
    let d = q.get_descriptor(head + 1).unwrap();
    assert_eq!((d.addr, d.len, d.flags, d.next), (0x2000, 512, VIRTQ_DESC_F_WRITE, 7));
    assert_eq!(q.free_desc_chain(head), Ok(()));
    assert_eq!(q.num_free, 4);
}

#[test]
fn submit_and_poll_follow_the_rings() {
    let mut q = queue(2);
    assert_eq!(q.add_to_avail(0), Err(VirtioError::InvalidDescriptor));
    let head = q.alloc_desc_chain(1).unwrap();
    assert_eq!(q.add_to_avail(head), Ok(()));
    assert_eq!(q.get_avail_idx(), 1);
    assert_eq!(q.avail.ring[0], head);
    assert_eq!(q.get_used_elem(), None);
    // the device cannot have completed more than was published
    let ring = vec![UsedElem { id: head as u32, len: 512 }, UsedElem::default()];
    assert_eq!(q.observe_used(2, ring.clone()), Err(VirtioError::InvalidParam));
    assert_eq!(q.observe_used(1, vec![UsedElem::default()]), Err(VirtioError::InvalidParam));
    assert_eq!(q.observe_used(1, ring), Ok(()));
    assert!(q.has_used());
    assert_eq!(q.get_used_elem(), Some(UsedElem { id: head as u32, len: 512 }));
    assert_eq!(q.last_used_idx, 1);
    assert_eq!(q.get_used_elem(), None);
}

#[test]
fn avail_index_wraps_modulo_two_to_the_sixteen() {
    let mut q = queue(2);
    let head = q.alloc_desc_chain(1).unwrap();
    let mut seen = Vec::new();
    for _ in 0..70_000u32 {
        let before = q.get_avail_idx();
        q.add_to_avail(head).unwrap();
        assert_eq!(q.get_avail_idx(), before.wrapping_add(1));
        seen.push(q.get_avail_idx());
    }
    assert_eq!(seen[65_534], 65_535);
    assert_eq!(seen[65_535], 0);
    assert_eq!(q.avail.ring[1], head);
}
