use vstd::prelude::*;
use crate::error::{Result, VirtioError};

verus! {

/// The buffer continues in the descriptor named by `next`.
pub const VIRTQ_DESC_F_NEXT: u16 = 0x1;
/// The device writes this buffer.
pub const VIRTQ_DESC_F_WRITE: u16 = 0x2;
/// Indirect descriptor tables; never accepted here.
pub const VIRTQ_DESC_F_INDIRECT: u16 = 0x4;
/// The largest ring this driver builds.
pub const MAX_QUEUE_SIZE: u16 = 1024;
/// Physical base of the descriptor table agreed with the device.
pub const QUEUE_DESC_BASE: u64 = 0x8007_0000;
/// Physical base of the used ring agreed with the device.
pub const QUEUE_USED_BASE: u64 = 0x8007_1000;
/// Owner mark of a descriptor that is on the free list.
const FREE: u16 = 0xFFFF;

/// One cell of the descriptor table (16 bytes in guest memory).
#[derive(Clone, Copy, Debug, PartialEq, Eq, Structural)]
pub struct Descriptor {
    pub addr: u64,
    pub len: u32,
    pub flags: u16,
    pub next: u16,
}

impl Default for Descriptor {
    fn default() -> (r: Descriptor)
        ensures
            r == (Descriptor { addr: 0, len: 0, flags: 0, next: 0 }),
    {
        Descriptor { addr: 0, len: 0, flags: 0, next: 0 }
    }
}

/// One element of the used ring: a chain head and the bytes written.
#[derive(Clone, Copy, Debug, PartialEq, Eq, Structural)]
pub struct UsedElem {
    pub id: u32,
    pub len: u32,
}

impl Default for UsedElem {
    fn default() -> (r: UsedElem)
        ensures
            r == (UsedElem { id: 0, len: 0 }),
    {
        UsedElem { id: 0, len: 0 }
    }
}

/// The driver-produced ring of chain heads.
pub struct AvailableRing {
    pub flags: u16,
    pub idx: u16,
    pub ring: Vec<u16>,
}

/// The device-produced ring of completed chains, as last observed.
pub struct UsedRing {
    pub flags: u16,
    pub idx: u16,
    pub ring: Vec<UsedElem>,
}

pub open spec fn has_next(d: Descriptor) -> bool {
    d.flags & VIRTQ_DESC_F_NEXT != 0
}

/// A descriptor with the NEXT flag as its only flag.
pub open spec fn linked(d: Descriptor) -> Descriptor {
    Descriptor { addr: d.addr, len: d.len, flags: VIRTQ_DESC_F_NEXT, next: d.next }
}

/// A descriptor with no flag set.
pub open spec fn unflagged(d: Descriptor) -> Descriptor {
    Descriptor { addr: d.addr, len: d.len, flags: 0, next: d.next }
}

/// A write to a chain cell that leaves the chain's shape as it was.
pub open spec fn link_kept(old: Descriptor, new: Descriptor) -> bool {
    has_next(new) == has_next(old) && (has_next(new) ==> new.next == old.next)
}

/// How far a 16-bit ring index `to` is ahead of `from`, modulo 2^16.
pub open spec fn pending(from: u16, to: u16) -> int {
    (to - from + 0x10000) % 0x10000
}

pub open spec fn is_power_of_two(n: u16) -> bool {
    n == 1 || n == 2 || n == 4 || n == 8 || n == 16 || n == 32 || n == 64 || n == 128 || n == 256
        || n == 512 || n == 1024 || n == 2048 || n == 4096 || n == 8192 || n == 16384 || n == 32768
}

/// The fixed ring layout the legacy transport expects for a queue of `size`.
pub open spec fn layout_ok(desc_addr: usize, avail_addr: usize, used_addr: usize, size: u16) -> bool {
    &&& desc_addr == QUEUE_DESC_BASE
    &&& avail_addr == QUEUE_DESC_BASE + 16 * size
    &&& used_addr == QUEUE_USED_BASE
    &&& avail_addr + 6 + 2 * size <= used_addr
}

/// A chain of descriptors `c` headed by `h`, linked through `next` with the
/// NEXT flag on every cell but the last.
pub open spec fn chain_ok(desc: Seq<Descriptor>, owner: Seq<u16>, h: u16, c: Seq<u16>) -> bool {
    &&& c.len() >= 1
    &&& c[0] == h
    &&& c.no_duplicates()
    &&& forall|k: int| 0 <= k < c.len() ==> (#[trigger] c[k]) < desc.len() && owner[c[k] as int] == h
    &&& forall|k: int|
        0 <= k < c.len() - 1 ==> has_next(#[trigger] desc[c[k] as int]) && desc[c[k] as int].next
            == c[k + 1]
    &&& !has_next(desc[c.last() as int])
}

/// Distinct indices below `q` number at most `q`.
pub proof fn lemma_distinct_bounded(s: Seq<u16>, q: int)
    requires
        0 <= q,
        s.no_duplicates(),
        forall|k: int| 0 <= k < s.len() ==> (#[trigger] s[k]) < q,
    ensures
        s.len() <= q,
{
    let t = s.map_values(|x: u16| x as int);
    assert(t.no_duplicates());
    t.unique_seq_to_set();
    vstd::set_lib::lemma_int_range(0, q);
    assert forall|x: int| t.to_set().contains(x) implies vstd::set_lib::set_int_range(0, q).contains(x) by {
        let k = choose|k: int| 0 <= k < t.len() && t[k] == x;
        assert(s[k] < q);
    }
    vstd::set_lib::lemma_len_subset(t.to_set(), vstd::set_lib::set_int_range(0, q));
}


/// `new` is `old` after `alloc_desc_chain(num)` handed out the chain at `head`.
pub open spec fn allocated(old: Virtqueue, num: u16, new: Virtqueue, head: u16) -> bool {
    &&& new.wf()
    &&& 0 < num <= old.num_free
    &&& old.free_list().len() == old.num_free
    &&& head == old.free_head
    &&& new.num_free == old.num_free - num
    &&& new.free_list() == old.free_list().subrange(num as int, old.free_list().len() as int)
    &&& new.chains() == old.chains().insert(head, old.free_list().subrange(0, num as int))
    &&& new.queue_size == old.queue_size
}

/// `new` is `old` after `free_desc_chain(head)` took back the chain at `head`.
pub open spec fn reclaimed(old: Virtqueue, head: u16, new: Virtqueue) -> bool {
    &&& new.wf()
    &&& old.chains().contains_key(head)
    &&& new.free_head == head
    &&& new.num_free == old.num_free + old.chains()[head].len()
    &&& new.free_list() == old.chains()[head] + old.free_list()
    &&& new.chains() == old.chains().remove(head)
    &&& new.queue_size == old.queue_size
}

/// Taking a chain and giving it back leaves the number of free descriptors
/// and the chains in flight as they were.
pub proof fn lemma_request_returns_descriptors(q0: Virtqueue, n: u16, head: u16, q1: Virtqueue, q2: Virtqueue)
    requires
        q0.wf(),
        allocated(q0, n, q1, head),
        reclaimed(q1, head, q2),
    ensures
        q2.num_free == q0.num_free,
        q2.chains() == q0.chains(),
        q2.queue_size == q0.queue_size,
{
    assert(!q0.chains().contains_key(head)) by {
        if q0.chains().contains_key(head) {
            assert(q0.free_list().len() > 0);
            q0.lemma_head_is_free();
        }
    }
    assert(q2.chains() =~= q0.chains());
}

/// After any sequence of requests, each taking a chain and giving it back,
/// a queue that started with all Q descriptors free has all Q free again.
pub proof fn lemma_no_descriptor_leak(states: Seq<Virtqueue>, mids: Seq<Virtqueue>, sizes: Seq<u16>, heads: Seq<u16>)
    requires
        states.len() == mids.len() + 1,
        sizes.len() == mids.len(),
        heads.len() == mids.len(),
        states[0].wf(),
        states[0].num_free == states[0].queue_size,
        forall|i: int|
            0 <= i < mids.len() ==> allocated(states[i], #[trigger] sizes[i], mids[i], heads[i])
                && reclaimed(mids[i], heads[i], states[i + 1]),
    ensures
        states.last().num_free == states[0].queue_size,
    decreases mids.len(),
{
    if mids.len() > 0 {
        let m = mids.len() - 1;
        lemma_no_descriptor_leak(states.drop_last(), mids.drop_last(), sizes.drop_last(), heads.drop_last());
        assert(allocated(states[m], sizes[m], mids[m], heads[m]));
        assert(states.drop_last().last() == states[m]);
        if m > 0 {
            assert(allocated(states[m - 1], sizes[m - 1], mids[m - 1], heads[m - 1]));
            assert(reclaimed(mids[m - 1], heads[m - 1], states[m]));
        }
        lemma_request_returns_descriptors(states[m], sizes[m], heads[m], mids[m], states[m + 1]);
    }
}

/// A split virtqueue: descriptor table, available ring and used ring images,
/// with a free list threaded through the descriptors' `next` fields.
pub struct Virtqueue {
    pub desc_addr: u64,
    pub avail_addr: u64,
    pub used_addr: u64,
    pub desc: Vec<Descriptor>,
    pub avail: AvailableRing,
    pub used: UsedRing,
    pub queue_size: u16,
    pub free_head: u16,
    pub num_free: u16,
    pub last_used_idx: u16,
    pub desc_size: usize,
    /// For each descriptor, the head of the chain holding it, or a mark
    /// when it is on the free list.
    pub owner: Vec<u16>,
    pub free_list: Ghost<Seq<u16>>,
    pub chains: Ghost<Map<u16, Seq<u16>>>,
}

impl Virtqueue {
    /// Builds a queue of `size` descriptors over the ring regions at the
    /// given physical addresses. Every descriptor starts on the free list,
    /// in index order.
    pub fn new(desc_addr: usize, avail_addr: usize, used_addr: usize, size: u16) -> (r: Result<Self>)
        ensures
            r is Ok <==> (0 < size <= MAX_QUEUE_SIZE && is_power_of_two(size) && layout_ok(
                desc_addr,
                avail_addr,
                used_addr,
                size,
            )),
            (size == 0 || size > MAX_QUEUE_SIZE || !is_power_of_two(size)) ==> r == Err::<
                Self,
                VirtioError,
            >(VirtioError::InvalidParam),
            (0 < size <= MAX_QUEUE_SIZE && is_power_of_two(size) && !layout_ok(
                desc_addr,
                avail_addr,
                used_addr,
                size,
            )) ==> r == Err::<Self, VirtioError>(VirtioError::MemoryNotAligned),
            r matches Ok(q) ==> {
                &&& q.wf()
                &&& q.queue_size == size
                &&& q.num_free == size
                &&& q.free_head == 0
                &&& q.free_list() == Seq::new(size as nat, |i: int| i as u16)
                &&& q.chains() == Map::<u16, Seq<u16>>::empty()
                &&& q.avail.idx == 0
                &&& q.used.idx == 0
                &&& q.last_used_idx == 0
                &&& q.desc_addr == desc_addr && q.avail_addr == avail_addr && q.used_addr == used_addr
            },
    {
        if size == 0 || size > MAX_QUEUE_SIZE {
            return Err(VirtioError::InvalidParam);
        }
        assert(size & ((size - 1) as u16) == 0 <==> is_power_of_two(size)) by (bit_vector)
            requires
                size > 0,
        ;
        if size & (size - 1) != 0 {
            return Err(VirtioError::InvalidParam);
        }
        if desc_addr % 16 != 0 || avail_addr % 2 != 0 || used_addr % 4 != 0 {
            return Err(VirtioError::MemoryNotAligned);
        }
        Self::validate_memory_layout(desc_addr, avail_addr, used_addr, size)?;
        let mut desc: Vec<Descriptor> = Vec::new();
        let mut owner: Vec<u16> = Vec::new();
        let mut avail_ring: Vec<u16> = Vec::new();
        let mut used_ring: Vec<UsedElem> = Vec::new();
        let mut i: u16 = 0;
        while i < size
            invariant
                0 <= i <= size <= MAX_QUEUE_SIZE,
                desc@.len() == i,
                owner@.len() == i,
                avail_ring@.len() == i,
                used_ring@.len() == i,
                forall|j: int| 0 <= j < i ==> (#[trigger] desc@[j]).next == (if j == size - 1 { 0 } else { j + 1 }),
                forall|j: int| 0 <= j < i ==> (#[trigger] owner@[j]) == FREE,
            decreases size - i,
        {
            let next: u16 = if i == size - 1 { 0 } else { i + 1 };
            desc.push(Descriptor { addr: 0, len: 0, flags: 0, next });
            owner.push(FREE);
            avail_ring.push(0);
            used_ring.push(UsedElem { id: 0, len: 0 });
            i = i + 1;
        }
        let ghost fl = Seq::new(size as nat, |i: int| i as u16);
        let q = Virtqueue {
            desc_addr: desc_addr as u64,
            avail_addr: avail_addr as u64,
            used_addr: used_addr as u64,
            desc,
            avail: AvailableRing { flags: 0, idx: 0, ring: avail_ring },
            used: UsedRing { flags: 0, idx: 0, ring: used_ring },
            queue_size: size,
            free_head: 0,
            num_free: size,
            last_used_idx: 0,
            desc_size: 16,
            owner,
            free_list: Ghost(fl),
            chains: Ghost(Map::empty()),
        };
        proof {
            assert forall|a: int, b: int| 0 <= a < fl.len() && 0 <= b < fl.len() && a != b implies fl[a] != fl[b] by {}
            assert forall|j: int| 0 <= j < size implies (q.owner@[j] == FREE <==> fl.contains(j as u16)) by {
                assert(fl[j] == j as u16);
            }
        }
        Ok(q)
    }

    /// Takes `num` descriptors off the free list as one chain and returns
    /// its head. The chain keeps the free list's links; every cell but the
    /// last carries the NEXT flag.
    pub fn alloc_desc_chain(&mut self, num: u16) -> (r: Result<u16>)
        requires
            old(self).wf(),
        ensures
            final(self).wf(),
            r is Ok <==> 0 < num <= old(self).num_free,
            num == 0 ==> r == Err::<u16, VirtioError>(VirtioError::InvalidParam),
            0 < num && old(self).num_free < num ==> r == Err::<u16, VirtioError>(
                VirtioError::QueueFull,
            ),
            r is Err ==> *final(self) == *old(self),
            r matches Ok(head) ==> allocated(*old(self), num, *final(self), head),
            final(self).queue_size == old(self).queue_size,
            final(self).avail == old(self).avail,
            final(self).used == old(self).used,
            final(self).last_used_idx == old(self).last_used_idx,
    {
        if num == 0 {
            return Err(VirtioError::InvalidParam);
        }
        if self.num_free < num {
            return Err(VirtioError::QueueFull);
        }
        let head = self.free_head;
        let ghost fl = self.free_list@;
        let ghost old_desc = self.desc@;
        let ghost old_owner = self.owner@;
        let ghost q = self.queue_size as int;
        let ghost c = fl.subrange(0, num as int);
        proof {
            assert(fl[0] == head);
            assert(old_owner[head as int] == FREE) by {
                assert(fl.contains(head));
            }
        }
        let mut cur: u16 = head;
        let mut k: u16 = 0;
        while k + 1 < num
            invariant
                0 <= k < num <= fl.len(),
                fl == self.free_list@,
                fl.no_duplicates(),
                forall|j: int| 0 <= j < fl.len() ==> (#[trigger] fl[j]) < q,
                forall|j: int| 0 <= j < fl.len() - 1 ==> (#[trigger] old_desc[fl[j] as int]).next == fl[j + 1],
                c == fl.subrange(0, num as int),
                cur == fl[k as int],
                q == self.queue_size,
                old_desc.len() == q && old_owner.len() == q,
                self.desc@.len() == q,
                self.owner@.len() == q,
                old_owner[head as int] == FREE,
                head == fl[0],
                self.same_except_cells(*old(self)),
                forall|i: int|
                    0 <= i < q ==> #[trigger] self.desc@[i] == (if fl.subrange(0, k as int).contains(i as u16) {
                        linked(old_desc[i])
                    } else {
                        old_desc[i]
                    }),
                forall|i: int|
                    0 <= i < q ==> #[trigger] self.owner@[i] == (if fl.subrange(0, k as int).contains(i as u16) {
                        head
                    } else {
                        old_owner[i]
                    }),
            decreases num - k,
        {
            let d = self.desc[cur as usize];
            proof {
                assert(!fl.subrange(0, k as int).contains(cur)) by {
                    if fl.subrange(0, k as int).contains(cur) {
                        let j = choose|j: int| 0 <= j < k && fl.subrange(0, k as int)[j] == cur;
                        assert(fl[j] == fl[k as int]);
                    }
                }
                assert(fl.subrange(0, k + 1) =~= fl.subrange(0, k as int).push(cur));
            }
            self.owner.set(cur as usize, head);
            self.desc.set(cur as usize, Descriptor { addr: d.addr, len: d.len, flags: VIRTQ_DESC_F_NEXT, next: d.next });
            proof {
                assert forall|x: u16| fl.subrange(0, k + 1).contains(x) <==> (fl.subrange(0, k as int).contains(x) || x == cur) by {
                    if fl.subrange(0, k + 1).contains(x) {
                        let j = choose|j: int| 0 <= j < k + 1 && #[trigger] fl.subrange(0, k + 1)[j] == x;
                        if j < k {
                            assert(fl.subrange(0, k as int)[j] == x);
                        }
                    }
                    if fl.subrange(0, k as int).contains(x) {
                        let j = choose|j: int| 0 <= j < k && fl.subrange(0, k as int)[j] == x;
                        assert(fl.subrange(0, k + 1)[j] == x);
                    }
                    if x == cur {
                        assert(fl.subrange(0, k + 1)[k as int] == x);
                    }
                }
            }
            cur = d.next;
            k = k + 1;
        }
        let d = self.desc[cur as usize];
        proof {
            assert(!fl.subrange(0, k as int).contains(cur)) by {
                if fl.subrange(0, k as int).contains(cur) {
                    let j = choose|j: int| 0 <= j < k && fl.subrange(0, k as int)[j] == cur;
                    assert(fl[j] == fl[k as int]);
                }
            }
            assert(c =~= fl.subrange(0, k as int).push(cur));
        }
        self.owner.set(cur as usize, head);
        self.desc.set(cur as usize, Descriptor { addr: d.addr, len: d.len, flags: 0, next: d.next });
        self.free_head = d.next;
        self.num_free = self.num_free - num;
        let ghost rest = fl.subrange(num as int, fl.len() as int);
        self.free_list = Ghost(rest);
        self.chains = Ghost(self.chains@.insert(head, c));
        proof {
            assert forall|x: u16| c.contains(x) <==> (fl.subrange(0, k as int).contains(x) || x == cur) by {
                if c.contains(x) {
                    let j = choose|j: int| 0 <= j < c.len() && c[j] == x;
                    if j < k {
                        assert(fl.subrange(0, k as int)[j] == x);
                    }
                }
                if fl.subrange(0, k as int).contains(x) {
                    let j = choose|j: int| 0 <= j < k && fl.subrange(0, k as int)[j] == x;
                    assert(c[j] == x);
                }
                if x == cur {
                    assert(c[k as int] == x);
                }
            }
            assert(c.last() == cur);
            self.lemma_alloc_wf(old(self), head, num, c, rest);
        }
        Ok(head)
    }

    proof fn lemma_alloc_wf(&self, old: &Self, head: u16, num: u16, c: Seq<u16>, rest: Seq<u16>)
        requires
            old.wf(),
            0 < num <= old.num_free,
            head == old.free_head,
            c == old.free_list@.subrange(0, num as int),
            rest == old.free_list@.subrange(num as int, old.free_list@.len() as int),
            self.free_list@ == rest,
            self.chains@ == old.chains@.insert(head, c),
            self.num_free == old.num_free - num,
            self.free_head == old.desc@[c.last() as int].next,
            self.queue_size == old.queue_size,
            self.avail == old.avail,
            self.used == old.used,
            self.desc@.len() == old.desc@.len(),
            self.owner@.len() == old.owner@.len(),
            forall|i: int|
                0 <= i < old.queue_size ==> #[trigger] self.desc@[i] == (if c.contains(i as u16) {
                    if i == c.last() {
                        unflagged(old.desc@[i])
                    } else {
                        linked(old.desc@[i])
                    }
                } else {
                    old.desc@[i]
                }),
            forall|i: int|
                0 <= i < old.queue_size ==> #[trigger] self.owner@[i] == (if c.contains(i as u16) {
                    head
                } else {
                    old.owner@[i]
                }),
        ensures
            self.wf(),
    {
        let fl = old.free_list@;
        let q = old.queue_size as int;
        assert(VIRTQ_DESC_F_NEXT & VIRTQ_DESC_F_NEXT != 0) by (bit_vector);
        assert(0u16 & VIRTQ_DESC_F_NEXT == 0) by (bit_vector);
        assert forall|x: u16| c.contains(x) implies fl.contains(x) && old.owner@[x as int] == FREE
            && x < q by {
            let j = choose|j: int| 0 <= j < c.len() && c[j] == x;
            assert(fl[j] == x);
        }
        assert forall|x: u16| rest.contains(x) implies fl.contains(x) && !c.contains(x) by {
            let j = choose|j: int| 0 <= j < rest.len() && rest[j] == x;
            assert(fl[j + num] == x);
            if c.contains(x) {
                let j2 = choose|j2: int| 0 <= j2 < c.len() && c[j2] == x;
                assert(fl[j2] == x);
            }
        }
        assert forall|i: int| 0 <= i < q implies (self.owner@[i] == FREE <==> rest.contains(i as u16)) by {
            if c.contains(i as u16) {
                assert(!rest.contains(i as u16));
            } else if old.owner@[i] == FREE {
                assert(fl.contains(i as u16));
                let j = choose|j: int| 0 <= j < fl.len() && fl[j] == i as u16;
                if j < num {
                    assert(c[j] == i as u16);
                }
                assert(rest[j - num] == i as u16);
            }
        }
        assert(!old.chains@.contains_key(head)) by {
            if old.chains@.contains_key(head) {
                assert(chain_ok(old.desc@, old.owner@, head, old.chains@[head]));
                assert(old.chains@[head][0] == head);
                assert(c[0] == head);
                assert(c.contains(head));
            }
        }
        assert forall|i: int|
            0 <= i < q && #[trigger] self.owner@[i] != FREE implies self.chains@.contains_key(
            self.owner@[i],
        ) && self.chains@[self.owner@[i]].contains(i as u16) by {
            if !c.contains(i as u16) {
                assert(old.owner@[i] != head) by {
                    if old.owner@[i] == head {
                        assert(old.chains@.contains_key(head));
                    }
                }
            }
        }
        assert forall|h: u16| #[trigger] self.chains@.contains_key(h) implies chain_ok(
            self.desc@,
            self.owner@,
            h,
            self.chains@[h],
        ) by {
            if h == head {
                assert forall|k: int| 0 <= k < c.len() - 1 implies has_next(
                    #[trigger] self.desc@[c[k] as int],
                ) && self.desc@[c[k] as int].next == c[k + 1] by {
                    assert(c.contains(c[k]));
                    assert(c[k] != c.last());
                    assert(fl[k] == c[k]);
                }
                assert forall|k: int| 0 <= k < c.len() implies (#[trigger] c[k]) < self.desc@.len()
                    && self.owner@[c[k] as int] == h by {
                    assert(c.contains(c[k]));
                }
                assert(c.contains(c.last()));
            } else {
                let ch = old.chains@[h];
                assert(chain_ok(old.desc@, old.owner@, h, ch));
                assert forall|k: int| 0 <= k < ch.len() implies !c.contains(#[trigger] ch[k]) by {
                    assert(old.owner@[ch[k] as int] == h);
                }
                assert(!c.contains(ch.last()));
                assert forall|k: int| 0 <= k < ch.len() - 1 implies has_next(
                    #[trigger] self.desc@[ch[k] as int],
                ) && self.desc@[ch[k] as int].next == ch[k + 1] by {
                    assert(!c.contains(ch[k]));
                }
            }
        }
        assert forall|k: int| 0 <= k < rest.len() - 1 implies (#[trigger] self.desc@[rest[k] as int]).next
            == rest[k + 1] by {
            assert(rest.contains(rest[k]));
            assert(fl[k + num] == rest[k]);
        }
        if rest.len() > 0 {
            assert(fl[num - 1] == c.last());
        }
    }

    /// Returns the chain headed by `head` to the free list: its tail is
    /// linked to the old free head and `head` becomes the new free head.
    pub fn free_desc_chain(&mut self, head: u16) -> (r: Result<()>)
        requires
            old(self).wf(),
        ensures
            final(self).wf(),
            r is Ok <==> head < old(self).queue_size && old(self).chains().contains_key(head),
            head >= old(self).queue_size ==> r == Err::<(), VirtioError>(VirtioError::InvalidParam),
            head < old(self).queue_size && !old(self).chains().contains_key(head) ==> r == Err::<
                (),
                VirtioError,
            >(VirtioError::InvalidDescriptor),
            r is Err ==> *final(self) == *old(self),
            r is Ok ==> reclaimed(*old(self), head, *final(self)),
            final(self).queue_size == old(self).queue_size,
            final(self).avail == old(self).avail,
            final(self).used == old(self).used,
            final(self).last_used_idx == old(self).last_used_idx,
    {
        if head >= self.queue_size {
            return Err(VirtioError::InvalidParam);
        }
        if self.owner[head as usize] != head {
            proof {
                if self.chains@.contains_key(head) {
                    assert(chain_ok(self.desc@, self.owner@, head, self.chains@[head]));
                    assert(self.chains@[head][0] == head);
                }
            }
            return Err(VirtioError::InvalidDescriptor);
        }
        let ghost c = self.chains@[head];
        let ghost fl = self.free_list@;
        let ghost old_desc = self.desc@;
        let ghost old_owner = self.owner@;
        let ghost q = self.queue_size as int;
        proof {
            assert(chain_ok(self.desc@, self.owner@, head, c));
            self.lemma_chain_fits(c);
        }
        let mut cur: u16 = head;
        let mut k: u16 = 0;
        while self.desc[cur as usize].flags & VIRTQ_DESC_F_NEXT != 0
            invariant
                chain_ok(old_desc, old_owner, head, c),
                c.len() + fl.len() <= q <= MAX_QUEUE_SIZE,
                fl.len() == old(self).num_free,
                0 <= k < c.len(),
                cur == c[k as int],
                q == self.queue_size,
                old_desc.len() == q && old_owner.len() == q,
                self.desc@ == old_desc,
                self.owner@.len() == q,
                self.same_except_cells(*old(self)),
                forall|i: int|
                    0 <= i < q ==> #[trigger] self.owner@[i] == (if c.subrange(0, k as int).contains(i as u16) {
                        FREE
                    } else {
                        old_owner[i]
                    }),
            decreases c.len() - k,
        {
            proof {
                assert(k < c.len() - 1);
                assert(!c.subrange(0, k as int).contains(cur)) by {
                    if c.subrange(0, k as int).contains(cur) {
                        let j = choose|j: int| 0 <= j < k && c.subrange(0, k as int)[j] == cur;
                        assert(c[j] == c[k as int]);
                    }
                }
            }
            self.owner.set(cur as usize, FREE);
            proof {
                assert forall|x: u16| c.subrange(0, k + 1).contains(x) <==> (c.subrange(0, k as int).contains(x) || x == cur) by {
                    if c.subrange(0, k + 1).contains(x) {
                        let j = choose|j: int| 0 <= j < k + 1 && #[trigger] c.subrange(0, k + 1)[j] == x;
                        if j < k {
                            assert(c.subrange(0, k as int)[j] == x);
                        }
                    }
                    if c.subrange(0, k as int).contains(x) {
                        let j = choose|j: int| 0 <= j < k && c.subrange(0, k as int)[j] == x;
                        assert(c.subrange(0, k + 1)[j] == x);
                    }
                    if x == cur {
                        assert(c.subrange(0, k + 1)[k as int] == x);
                    }
                }
            }
            cur = self.desc[cur as usize].next;
            k = k + 1;
        }
        proof {
            if k < c.len() - 1 {
                assert(has_next(old_desc[c[k as int] as int]));
            }
            assert(k == c.len() - 1);
            assert(!c.subrange(0, k as int).contains(cur)) by {
                if c.subrange(0, k as int).contains(cur) {
                    let j = choose|j: int| 0 <= j < k && c.subrange(0, k as int)[j] == cur;
                    assert(c[j] == c[k as int]);
                }
            }
            assert forall|x: u16| c.contains(x) <==> (c.subrange(0, k as int).contains(x) || x == cur) by {
                if c.contains(x) {
                    let j = choose|j: int| 0 <= j < c.len() && c[j] == x;
                    if j < k {
                        assert(c.subrange(0, k as int)[j] == x);
                    }
                }
                if c.subrange(0, k as int).contains(x) {
                    let j = choose|j: int| 0 <= j < k && c.subrange(0, k as int)[j] == x;
                    assert(c[j] == x);
                }
                if x == cur {
                    assert(c[k as int] == x);
                }
            }
        }
        self.owner.set(cur as usize, FREE);
        let d = self.desc[cur as usize];
        self.desc.set(cur as usize, Descriptor { addr: d.addr, len: d.len, flags: d.flags, next: self.free_head });
        self.free_head = head;
        self.num_free = self.num_free + k + 1;
        self.free_list = Ghost(c + fl);
        self.chains = Ghost(self.chains@.remove(head));
        proof {
            self.lemma_free_wf(old(self), head, c);
        }
        Ok(())
    }

    proof fn lemma_free_wf(&self, old: &Self, head: u16, c: Seq<u16>)
        requires
            old.wf(),
            old.chains@.contains_key(head),
            c == old.chains@[head],
            self.free_list@ == c + old.free_list@,
            self.chains@ == old.chains@.remove(head),
            self.num_free == old.num_free + c.len(),
            self.free_head == head,
            self.queue_size == old.queue_size,
            self.avail == old.avail,
            self.used == old.used,
            self.desc@.len() == old.desc@.len(),
            self.owner@.len() == old.owner@.len(),
            forall|i: int|
                0 <= i < old.queue_size ==> #[trigger] self.desc@[i] == (if i == c.last() {
                    Descriptor {
                        addr: old.desc@[i].addr,
                        len: old.desc@[i].len,
                        flags: old.desc@[i].flags,
                        next: old.free_head,
                    }
                } else {
                    old.desc@[i]
                }),
            forall|i: int|
                0 <= i < old.queue_size ==> #[trigger] self.owner@[i] == (if c.contains(i as u16) {
                    FREE
                } else {
                    old.owner@[i]
                }),
        ensures
            self.wf(),
    {
        let fl = old.free_list@;
        let nfl = self.free_list@;
        let q = old.queue_size as int;
        assert(chain_ok(old.desc@, old.owner@, head, c));
        assert forall|x: u16| c.contains(x) implies old.owner@[x as int] == head && x < q by {
            let j = choose|j: int| 0 <= j < c.len() && c[j] == x;
        }
        assert forall|x: u16| fl.contains(x) implies old.owner@[x as int] == FREE && x < q by {
            let j = choose|j: int| 0 <= j < fl.len() && fl[j] == x;
        }
        assert forall|a: int, b: int| 0 <= a < nfl.len() && 0 <= b < nfl.len() && a != b implies nfl[a] != nfl[b] by {
            if a < c.len() && b >= c.len() {
                assert(c.contains(c[a]));
                assert(fl.contains(fl[b - c.len()]));
            }
            if b < c.len() && a >= c.len() {
                assert(c.contains(c[b]));
                assert(fl.contains(fl[a - c.len()]));
            }
        }
        assert forall|k: int| 0 <= k < nfl.len() implies (#[trigger] nfl[k]) < q by {
            if k >= c.len() {
                assert(fl.contains(fl[k - c.len()]));
            }
        }
        assert forall|k: int| 0 <= k < nfl.len() - 1 implies (#[trigger] self.desc@[nfl[k] as int]).next
            == nfl[k + 1] by {
            if k < c.len() - 1 {
                assert(c[k] != c.last());
            } else if k == c.len() - 1 {
                assert(fl[0] == nfl[k + 1]);
            } else {
                assert(fl.contains(fl[k - c.len()]));
                assert(c.contains(c.last()));
                assert(nfl[k] != c.last());
            }
        }
        assert forall|i: int| 0 <= i < q implies (self.owner@[i] == FREE <==> nfl.contains(i as u16)) by {
            if c.contains(i as u16) {
                let j = choose|j: int| 0 <= j < c.len() && c[j] == i as u16;
                assert(nfl[j] == i as u16);
            } else {
                if nfl.contains(i as u16) {
                    let j = choose|j: int| 0 <= j < nfl.len() && nfl[j] == i as u16;
                    if j < c.len() {
                        assert(c[j] == i as u16);
                    } else {
                        assert(fl[j - c.len()] == i as u16);
                    }
                }
                if fl.contains(i as u16) {
                    let j = choose|j: int| 0 <= j < fl.len() && fl[j] == i as u16;
                    assert(nfl[j + c.len()] == i as u16);
                }
            }
        }
        assert forall|i: int|
            0 <= i < q && #[trigger] self.owner@[i] != FREE implies self.chains@.contains_key(
            self.owner@[i],
        ) && self.chains@[self.owner@[i]].contains(i as u16) by {
            assert(!c.contains(i as u16));
            assert(old.owner@[i] != head);
        }
        assert forall|h: u16| #[trigger] self.chains@.contains_key(h) implies chain_ok(
            self.desc@,
            self.owner@,
            h,
            self.chains@[h],
        ) by {
            let ch = old.chains@[h];
            assert(chain_ok(old.desc@, old.owner@, h, ch));
            assert forall|k: int| 0 <= k < ch.len() implies !c.contains(#[trigger] ch[k]) by {
                assert(old.owner@[ch[k] as int] == h);
            }
            assert(c.contains(c.last()));
            assert(!c.contains(ch.last()));
            assert forall|k: int| 0 <= k < ch.len() - 1 implies has_next(
                #[trigger] self.desc@[ch[k] as int],
            ) && self.desc@[ch[k] as int].next == ch[k + 1] by {
                assert(!c.contains(ch[k]));
            }
            assert forall|k: int| 0 <= k < ch.len() implies (#[trigger] ch[k]) < self.desc@.len()
                && self.owner@[ch[k] as int] == h by {
                assert(!c.contains(ch[k]));
            }
        }
    }

    /// A chain in flight is linked through the table as `chain_ok` says.
    pub proof fn lemma_chain_links(&self, h: u16)
        requires
            self.wf(),
            self.chains().contains_key(h),
        ensures
            chain_ok(self.descs(), self.owner@, h, self.chains()[h]),
            self.descs().len() == self.queue_size,
    {
    }

    /// The free head belongs to no chain.
    proof fn lemma_head_is_free(&self)
        requires
            self.wf(),
            self.free_list().len() > 0,
        ensures
            !self.chains().contains_key(self.free_head),
    {
        let h = self.free_head;
        assert(self.free_list@.contains(h));
        if self.chains@.contains_key(h) {
            assert(chain_ok(self.desc@, self.owner@, h, self.chains@[h]));
            assert(self.chains@[h][0] == h);
        }
    }

    /// A chain and the free list never hold more cells than the table.
    proof fn lemma_chain_fits(&self, c: Seq<u16>)
        requires
            self.wf(),
            chain_ok(self.desc@, self.owner@, c[0], c),
        ensures
            c.len() + self.free_list@.len() <= self.queue_size,
    {
        let fl = self.free_list@;
        let all = c + fl;
        assert forall|a: int, b: int| 0 <= a < all.len() && 0 <= b < all.len() && a != b implies all[a] != all[b] by {
            if a < c.len() && b >= c.len() {
                assert(self.owner@[c[a] as int] == c[0]);
                assert(fl.contains(fl[b - c.len()]));
            }
            if b < c.len() && a >= c.len() {
                assert(self.owner@[c[b] as int] == c[0]);
                assert(fl.contains(fl[a - c.len()]));
            }
        }
        assert forall|k: int| 0 <= k < all.len() implies (#[trigger] all[k]) < self.queue_size by {
            if k >= c.len() {
                assert(fl[k - c.len()] < self.queue_size);
            }
        }
        lemma_distinct_bounded(all, self.queue_size as int);
    }

    /// The cells of the chains handed out and not yet reclaimed.
    pub open spec fn in_flight(&self, i: u16) -> bool {
        exists|h: u16| #[trigger] self.chains().contains_key(h) && self.chains()[h].contains(i)
    }

    /// Writes one cell of a chain that is in flight. The write may not
    /// change where the chain goes: the NEXT flag stays as it is and, where
    /// it is set, so does `next`. Indirect descriptors are refused.
    pub fn set_descriptor(&mut self, index: u16, addr: u64, len: u32, flags: u16, next: u16) -> (r: Result<()>)
        requires
            old(self).wf(),
        ensures
            final(self).wf(),
            index >= old(self).queue_size ==> r == Err::<(), VirtioError>(VirtioError::InvalidParam),
            r is Ok <==> index < old(self).queue_size && old(self).in_flight(index)
                && flags & VIRTQ_DESC_F_INDIRECT == 0 && link_kept(
                old(self).descs()[index as int],
                Descriptor { addr, len, flags, next },
            ),
            index < old(self).queue_size && r is Err ==> r == Err::<(), VirtioError>(
                VirtioError::InvalidDescriptor,
            ),
            r is Err ==> *final(self) == *old(self),
            r is Ok ==> final(self).descs() == old(self).descs().update(
                index as int,
                Descriptor { addr, len, flags, next },
            ),
            r is Ok ==> final(self).same_except_cells(*old(self)) && final(self).owner
                == old(self).owner,
            final(self).chains() == old(self).chains(),
            final(self).free_list() == old(self).free_list(),
    {
        if index >= self.queue_size {
            return Err(VirtioError::InvalidParam);
        }
        proof {
            self.lemma_in_flight(index);
        }
        if self.owner[index as usize] == FREE {
            return Err(VirtioError::InvalidDescriptor);
        }
        if flags & VIRTQ_DESC_F_INDIRECT != 0 {
            return Err(VirtioError::InvalidDescriptor);
        }
        let cell = self.desc[index as usize];
        let had_next = cell.flags & VIRTQ_DESC_F_NEXT != 0;
        let has = flags & VIRTQ_DESC_F_NEXT != 0;
        if had_next != has || (has && next != cell.next) {
            return Err(VirtioError::InvalidDescriptor);
        }
        let ghost old_q = *self;
        self.desc.set(index as usize, Descriptor { addr, len, flags, next });
        proof {
            assert(!self.free_list@.contains(index));
            assert forall|k: int| 0 <= k < self.free_list@.len() - 1 implies (#[trigger] self.desc@[self.free_list@[k] as int]).next
                == self.free_list@[k + 1] by {
                assert(self.free_list@.contains(self.free_list@[k]));
            }
            assert forall|h: u16| #[trigger] self.chains@.contains_key(h) implies chain_ok(
                self.desc@,
                self.owner@,
                h,
                self.chains@[h],
            ) by {
                assert(chain_ok(old_q.desc@, old_q.owner@, h, self.chains@[h]));
            }
        }
        Ok(())
    }

    proof fn lemma_in_flight(&self, i: u16)
        requires
            self.wf(),
            i < self.queue_size,
        ensures
            self.in_flight(i) <==> self.owner@[i as int] != FREE,
            self.owner@[i as int] == i ==> self.chains().contains_key(i),
            self.chains().contains_key(i) ==> self.owner@[i as int] == i,
    {
        if self.in_flight(i) {
            let h = choose|h: u16| #[trigger] self.chains().contains_key(h) && self.chains()[h].contains(i);
            assert(chain_ok(self.desc@, self.owner@, h, self.chains@[h]));
            let k = choose|k: int| 0 <= k < self.chains@[h].len() && self.chains@[h][k] == i;
            assert(self.owner@[i as int] == h);
        }
        if self.owner@[i as int] != FREE {
            assert(self.chains@.contains_key(self.owner@[i as int]));
        }
        if self.chains().contains_key(i) {
            assert(chain_ok(self.desc@, self.owner@, i, self.chains@[i]));
            assert(self.chains@[i][0] == i);
        }
    }

    /// Publishes the chain headed by `desc_index` in the next slot of the
    /// available ring and advances the ring's index, wrapping at 2^16.
    pub fn add_to_avail(&mut self, desc_index: u16) -> (r: Result<()>)
        requires
            old(self).wf(),
        ensures
            final(self).wf(),
            r is Ok <==> desc_index < old(self).queue_size && old(self).chains().contains_key(
                desc_index,
            ),
            r is Err ==> r == Err::<(), VirtioError>(VirtioError::InvalidDescriptor) && *final(self)
                == *old(self),
            r is Ok ==> {
                &&& final(self).avail.ring@ == old(self).avail.ring@.update(
                    (old(self).avail.idx % old(self).queue_size) as int,
                    desc_index,
                )
                &&& final(self).avail.idx == (old(self).avail.idx + 1) % 0x10000
                &&& final(self).avail.flags == old(self).avail.flags
                &&& final(self).descs() == old(self).descs()
                &&& final(self).free_list() == old(self).free_list()
                &&& final(self).chains() == old(self).chains()
                &&& final(self).num_free == old(self).num_free
                &&& final(self).used == old(self).used
                &&& final(self).last_used_idx == old(self).last_used_idx
                &&& final(self).queue_size == old(self).queue_size
            },
    {
        if desc_index >= self.queue_size {
            return Err(VirtioError::InvalidDescriptor);
        }
        proof {
            self.lemma_in_flight(desc_index);
        }
        if self.owner[desc_index as usize] != desc_index {
            return Err(VirtioError::InvalidDescriptor);
        }
        let slot = self.avail.idx % self.queue_size;
        self.avail.ring.set(slot as usize, desc_index);
        self.avail.idx = self.avail.idx.wrapping_add(1);
        Ok(())
    }

    /// Takes in what the device has published in the used ring: its index
    /// and its elements. An index that claims more completions than chains
    /// were published is refused.
    pub fn observe_used(&mut self, idx: u16, ring: Vec<UsedElem>) -> (r: Result<()>)
        requires
            old(self).wf(),
        ensures
            final(self).wf(),
            r is Ok <==> ring@.len() == old(self).queue_size && pending(old(self).last_used_idx, idx)
                <= pending(old(self).last_used_idx, old(self).avail.idx),
            r is Err ==> r == Err::<(), VirtioError>(VirtioError::InvalidParam) && *final(self)
                == *old(self),
            r is Ok ==> final(self).used.idx == idx && final(self).used.ring@ == ring@
                && final(self).used.flags == old(self).used.flags,
            r is Ok ==> final(self).avail == old(self).avail && final(self).descs() == old(self).descs()
                && final(self).free_list() == old(self).free_list() && final(self).chains()
                == old(self).chains() && final(self).num_free == old(self).num_free
                && final(self).last_used_idx == old(self).last_used_idx && final(self).queue_size
                == old(self).queue_size,
    {
        if ring.len() != self.queue_size as usize {
            return Err(VirtioError::InvalidParam);
        }
        let completed = idx.wrapping_sub(self.last_used_idx);
        let submitted = self.avail.idx.wrapping_sub(self.last_used_idx);
        if completed > submitted {
            return Err(VirtioError::InvalidParam);
        }
        self.used.idx = idx;
        self.used.ring = ring;
        Ok(())
    }

    /// Whether the device has completed a chain the driver has not taken.
    pub fn has_used(&self) -> (r: bool)
        ensures
            r == (self.used.idx != self.last_used_idx),
    {
        self.used.idx != self.last_used_idx
    }

    /// Takes the next completed element: `None` while the used index equals
    /// the driver's, else the element in slot `last_used_idx mod Q`, and the
    /// driver's index moves on by one, wrapping at 2^16.
    pub fn get_used_elem(&mut self) -> (r: Option<UsedElem>)
        requires
            old(self).wf(),
        ensures
            final(self).wf(),
            old(self).used.idx == old(self).last_used_idx ==> r is None && *final(self) == *old(self),
            old(self).used.idx != old(self).last_used_idx ==> {
                &&& r == Some(
                    old(self).used.ring@[(old(self).last_used_idx % old(self).queue_size) as int],
                )
                &&& final(self).last_used_idx == (old(self).last_used_idx + 1) % 0x10000
            },
            final(self).avail == old(self).avail,
            final(self).used == old(self).used,
            final(self).descs() == old(self).descs(),
            final(self).free_list() == old(self).free_list(),
            final(self).chains() == old(self).chains(),
            final(self).num_free == old(self).num_free,
            final(self).queue_size == old(self).queue_size,
    {
        if self.used.idx == self.last_used_idx {
            return None;
        }
        let slot = self.last_used_idx % self.queue_size;
        let elem = self.used.ring[slot as usize];
        self.last_used_idx = self.last_used_idx.wrapping_add(1);
        Some(elem)
    }

    pub fn get_avail_idx(&self) -> (r: u16)
        ensures
            r == self.avail.idx,
    {
        self.avail.idx
    }

    pub fn get_used_idx(&self) -> (r: u16)
        ensures
            r == self.used.idx,
    {
        self.used.idx
    }

    /// The descriptor at `index`, if the table has one there.
    pub fn get_descriptor(&self, index: u16) -> (r: Option<Descriptor>)
        requires
            self.wf(),
        ensures
            index < self.queue_size ==> r == Some(self.descs()[index as int]),
            index >= self.queue_size ==> r is None,
    {
        if index >= self.queue_size {
            return None;
        }
        Some(self.desc[index as usize])
    }

    /// Checks the alignment of the three ring regions: 16 bytes for the
    /// descriptor table, 2 for the available ring, 4 for the used ring.
    pub fn check_alignment(&self) -> (r: Result<()>)
        ensures
            r is Ok <==> self.desc_addr % 16 == 0 && self.avail_addr % 2 == 0 && self.used_addr % 4
                == 0,
            r is Err ==> r == Err::<(), VirtioError>(VirtioError::MemoryNotAligned),
    {
        if self.desc_addr % 16 != 0 || self.avail_addr % 2 != 0 || self.used_addr % 4 != 0 {
            return Err(VirtioError::MemoryNotAligned);
        }
        Ok(())
    }

    /// Every field but the descriptor cells and their owners is unchanged.
    pub open spec fn same_except_cells(&self, other: Self) -> bool {
        &&& self.desc_addr == other.desc_addr
        &&& self.avail_addr == other.avail_addr
        &&& self.used_addr == other.used_addr
        &&& self.avail == other.avail
        &&& self.used == other.used
        &&& self.queue_size == other.queue_size
        &&& self.free_head == other.free_head
        &&& self.num_free == other.num_free
        &&& self.last_used_idx == other.last_used_idx
        &&& self.desc_size == other.desc_size
        &&& self.free_list == other.free_list
        &&& self.chains == other.chains
    }

    /// The descriptor table.
    pub closed spec fn descs(&self) -> Seq<Descriptor> {
        self.desc@
    }

    /// The free descriptors, in the order the free list links them.
    pub closed spec fn free_list(&self) -> Seq<u16> {
        self.free_list@
    }

    /// The chains handed out and not yet reclaimed, keyed by head.
    pub closed spec fn chains(&self) -> Map<u16, Seq<u16>> {
        self.chains@
    }

    pub closed spec fn wf(&self) -> bool {
        let q = self.queue_size as int;
        let fl = self.free_list@;
        &&& 0 < q <= MAX_QUEUE_SIZE
        &&& self.desc@.len() == q
        &&& self.owner@.len() == q
        &&& self.avail.ring@.len() == q
        &&& self.used.ring@.len() == q
        &&& self.num_free as int == fl.len()
        &&& fl.no_duplicates()
        &&& forall|k: int| 0 <= k < fl.len() ==> (#[trigger] fl[k]) < q
        &&& fl.len() > 0 ==> self.free_head == fl[0]
        &&& forall|k: int|
            0 <= k < fl.len() - 1 ==> (#[trigger] self.desc@[fl[k] as int]).next == fl[k + 1]
        &&& forall|i: int|
            0 <= i < q ==> (self.owner@[i] == FREE <==> fl.contains(i as u16))
        &&& forall|i: int|
            0 <= i < q && #[trigger] self.owner@[i] != FREE ==> self.chains@.contains_key(
                self.owner@[i],
            ) && self.chains@[self.owner@[i]].contains(i as u16)
        &&& forall|h: u16|
            #[trigger] self.chains@.contains_key(h) ==> chain_ok(
                self.desc@,
                self.owner@,
                h,
                self.chains@[h],
            )
    }

    /// Checks the fixed ring layout: descriptor table at its agreed base,
    /// available ring right after it, used ring at its agreed base, and no
    /// overlap between them.
    pub fn validate_memory_layout(desc_addr: usize, avail_addr: usize, used_addr: usize, queue_size: u16) -> (r: Result<()>)
        ensures
            r is Ok <==> layout_ok(desc_addr, avail_addr, used_addr, queue_size),
            r is Err ==> r == Err::<(), VirtioError>(VirtioError::MemoryNotAligned),
    {
        let expected_desc_addr: usize = 0x8007_0000;
        if desc_addr != expected_desc_addr {
            return Err(VirtioError::MemoryNotAligned);
        }
        let expected_avail_addr: usize = expected_desc_addr + 16 * queue_size as usize;
        if avail_addr != expected_avail_addr {
            return Err(VirtioError::MemoryNotAligned);
        }
        let expected_used_addr: usize = 0x8007_1000;
        if used_addr != expected_used_addr {
            return Err(VirtioError::MemoryNotAligned);
        }
        if avail_addr + 6 + 2 * queue_size as usize > used_addr {
            return Err(VirtioError::MemoryNotAligned);
        }
        Ok(())
    }
}

} // verus!
