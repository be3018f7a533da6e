//! Split-virtqueue device-side primitives: available-ring draining,
//! descriptor-chain traversal, used-ring completion and notification
//! suppression.
//!
//! In the running system the rings live in guest memory and the driver's
//! free-running 16-bit indices wrap around the ring; here the queue is
//! modelled directly: the available ring is the sequence of chain heads in
//! the order the driver published them, the device's progress through it
//! is a monotone index, and the used ring is the sequence of completions
//! in the order the device posted them.
use vstd::prelude::*;

verus! {

/// Descriptor flag: the chain continues at the descriptor named by `next`.
pub const VIRTQ_DESC_F_NEXT: u16 = 1;

/// Descriptor flag: the buffer is device-writable (a guest-supplied
/// buffer the device fills); clear means device-read-only.
pub const VIRTQ_DESC_F_WRITE: u16 = 2;

/// Largest queue size the transport allows.
pub const VIRTQUEUE_MAX_SIZE: usize = 32768;

/// One buffer descriptor: guest-physical address, length, flag bits and
/// the chain link used when `VIRTQ_DESC_F_NEXT` is set.
#[derive(Clone, Copy, PartialEq, Eq, Structural)]
pub struct VirtqDesc {
    pub addr: usize,
    pub len: u32,
    pub flags: u16,
    pub next: u16,
}

/// One used-ring completion: the chain-head descriptor index it answers
/// and the number of bytes the device wrote into the chain's buffers.
#[derive(Clone, Copy, PartialEq, Eq, Structural)]
pub struct VirtqUsedElem {
    pub id: u32,
    pub len: u32,
}

/// The chain at this descriptor continues.
pub open spec fn spec_desc_has_next(d: VirtqDesc) -> bool {
    d.flags & VIRTQ_DESC_F_NEXT != 0
}

/// The descriptor's buffer is device-writable.
pub open spec fn spec_desc_writable(d: VirtqDesc) -> bool {
    d.flags & VIRTQ_DESC_F_WRITE != 0
}

/// Mathematical model of a split virtqueue, device side.
pub struct VirtqView {
    pub ready: bool,
    pub size: usize,
    pub desc: Seq<VirtqDesc>,
    pub avail: Seq<u16>,
    pub last_avail_idx: usize,
    pub used: Seq<VirtqUsedElem>,
    pub notify_enabled: bool,
}

/// A split virtqueue, device side.
pub struct Virtq {
    ready: bool,
    size: usize,
    desc: Vec<VirtqDesc>,
    avail: Vec<u16>,
    last_avail_idx: usize,
    used: Vec<VirtqUsedElem>,
    notify_enabled: bool,
}

impl View for Virtq {
    type V = VirtqView;

    closed spec fn view(&self) -> VirtqView {
        VirtqView {
            ready: self.ready,
            size: self.size,
            desc: self.desc@,
            avail: self.avail@,
            last_avail_idx: self.last_avail_idx,
            used: self.used@,
            notify_enabled: self.notify_enabled,
        }
    }
}

impl Virtq {
    /// The descriptor table matches the queue size, the device has not
    /// drained past what the driver published, and every published chain
    /// head names a descriptor.
    pub open spec fn wf(&self) -> bool {
        &&& 1 <= self@.size <= VIRTQUEUE_MAX_SIZE
        &&& self@.desc.len() == self@.size
        &&& self@.last_avail_idx <= self@.avail.len()
        &&& forall|i: int| 0 <= i < self@.avail.len() ==> (#[trigger] self@.avail[i]) < self@.size
    }

    /// An idle queue of `size` descriptors, all zeroed, not yet ready,
    /// with guest notifications enabled.
    pub fn new(size: usize) -> (q: Virtq)
        requires
            1 <= size <= VIRTQUEUE_MAX_SIZE,
        ensures
            q.wf(),
            q@.ready == false,
            q@.size == size,
            q@.desc.len() == size,
            forall|i: int|
                0 <= i < size ==> (#[trigger] q@.desc[i]) == (VirtqDesc {
                    addr: 0,
                    len: 0,
                    flags: 0,
                    next: 0,
                }),
            q@.avail.len() == 0,
            q@.last_avail_idx == 0,
            q@.used.len() == 0,
            q@.notify_enabled == true,
    {
        Virtq {
            ready: false,
            size,
            desc: vec![VirtqDesc { addr: 0, len: 0, flags: 0, next: 0 };size],
            avail: Vec::new(),
            last_avail_idx: 0,
            used: Vec::new(),
            notify_enabled: true,
        }
    }

    /// Number of descriptors in the queue.
    pub fn size(&self) -> (n: usize)
        ensures
            n == self@.size,
    {
        self.size
    }

    /// Whether the driver has completed queue setup; a queue that is not
    /// ready must never be drained.
    pub fn ready(&self) -> (r: bool)
        ensures
            r == self@.ready,
    {
        self.ready
    }

    /// Marks the queue as set up (or torn down); driver side.
    pub fn set_ready(&mut self, ready: bool)
        ensures
            final(self)@ == (VirtqView { ready, ..old(self)@ }),
    {
        self.ready = ready;
    }

    /// Installs one descriptor; driver side. Fails on an index outside
    /// the table.
    pub fn set_desc(&mut self, i: usize, addr: usize, len: u32, flags: u16, next: u16) -> (r: bool)
        requires
            old(self).wf(),
        ensures
            final(self).wf(),
            r == (i < old(self)@.size),
            r ==> final(self)@ == (VirtqView {
                desc: old(self)@.desc.update(i as int, VirtqDesc { addr, len, flags, next }),
                ..old(self)@
            }),
            !r ==> final(self)@ == old(self)@,
    {
        if i < self.desc.len() {
            self.desc[i] = VirtqDesc { addr, len, flags, next };
            true
        } else {
            false
        }
    }

    /// Publishes a chain head on the available ring; driver side. Fails
    /// if the head does not name a descriptor.
    pub fn push_avail(&mut self, head: u16) -> (r: bool)
        requires
            old(self).wf(),
        ensures
            final(self).wf(),
            r == ((head as int) < old(self)@.size),
            r ==> final(self)@ == (VirtqView { avail: old(self)@.avail.push(head), ..old(self)@ }),
            !r ==> final(self)@ == old(self)@,
    {
        if (head as usize) < self.size {
            self.avail.push(head);
            true
        } else {
            false
        }
    }

    /// Current producer index of the available ring: the number of chain
    /// heads the driver has published.
    pub fn avail_idx(&self) -> (r: usize)
        ensures
            r == self@.avail.len(),
    {
        self.avail.len()
    }

    /// Pops the next not-yet-consumed chain head, or nothing once the
    /// ring is drained up to the snapshot `avail_idx`. A chain published
    /// at or after the snapshot is never returned by this call.
    pub fn pop_avail_desc_idx(&mut self, avail_idx: usize) -> (r: Option<u16>)
        requires
            old(self).wf(),
            avail_idx <= old(self)@.avail.len(),
        ensures
            final(self).wf(),
            old(self)@.last_avail_idx < avail_idx ==> r == Some(
                old(self)@.avail[old(self)@.last_avail_idx as int],
            ) && final(self)@ == (VirtqView {
                last_avail_idx: (old(self)@.last_avail_idx + 1) as usize,
                ..old(self)@
            }),
            old(self)@.last_avail_idx >= avail_idx ==> r is None && final(self)@ == old(self)@,
    {
        if self.last_avail_idx < avail_idx {
            let head = self.avail[self.last_avail_idx];
            self.last_avail_idx = self.last_avail_idx + 1;
            Some(head)
        } else {
            None
        }
    }

    /// Whether the device has caught up to the producer-index snapshot
    /// taken at the start of the drain.
    pub fn check_avail_idx(&self, avail_idx: usize) -> (r: bool)
        ensures
            r == (self@.last_avail_idx == avail_idx),
    {
        self.last_avail_idx == avail_idx
    }

    /// Suppresses guest notifications while the device drains the ring.
    pub fn disable_notify(&mut self)
        ensures
            final(self)@ == (VirtqView { notify_enabled: false, ..old(self)@ }),
    {
        self.notify_enabled = false;
    }

    /// Re-enables guest notifications once the device has caught up.
    pub fn enable_notify(&mut self)
        ensures
            final(self)@ == (VirtqView { notify_enabled: true, ..old(self)@ }),
    {
        self.notify_enabled = true;
    }

    /// Whether the guest would currently be notified of new buffers.
    pub fn notify_enabled(&self) -> (r: bool)
        ensures
            r == self@.notify_enabled,
    {
        self.notify_enabled
    }

    /// Chain-link flag of descriptor `idx`.
    pub fn desc_has_next(&self, idx: usize) -> (r: bool)
        requires
            self.wf(),
            idx < self@.size,
        ensures
            r == spec_desc_has_next(self@.desc[idx as int]),
    {
        self.desc[idx].flags & VIRTQ_DESC_F_NEXT != 0
    }

    /// Chain link of descriptor `idx`.
    pub fn desc_next(&self, idx: usize) -> (r: u16)
        requires
            self.wf(),
            idx < self@.size,
        ensures
            r == self@.desc[idx as int].next,
    {
        self.desc[idx].next
    }

    /// Whether descriptor `idx` is device-writable.
    pub fn desc_is_writable(&self, idx: usize) -> (r: bool)
        requires
            self.wf(),
            idx < self@.size,
        ensures
            r == spec_desc_writable(self@.desc[idx as int]),
    {
        self.desc[idx].flags & VIRTQ_DESC_F_WRITE != 0
    }

    /// Guest-physical buffer address of descriptor `idx`.
    pub fn desc_addr(&self, idx: usize) -> (r: usize)
        requires
            self.wf(),
            idx < self@.size,
        ensures
            r == self@.desc[idx as int].addr,
    {
        self.desc[idx].addr
    }

    /// Buffer length of descriptor `idx`.
    pub fn desc_len(&self, idx: usize) -> (r: u32)
        requires
            self.wf(),
            idx < self@.size,
        ensures
            r == self@.desc[idx as int].len,
    {
        self.desc[idx].len
    }

    /// Flag bits of descriptor `idx`.
    pub fn desc_flags(&self, idx: usize) -> (r: u16)
        requires
            self.wf(),
            idx < self@.size,
        ensures
            r == self@.desc[idx as int].flags,
    {
        self.desc[idx].flags
    }

    /// Posts a completion: `len_written` bytes were written into the
    /// chain headed by descriptor `desc_chain_head_idx`. Fails, changing
    /// nothing, on a queue that is not ready or on a head outside the
    /// descriptor table (an inconsistent ring).
    pub fn update_used_ring(&mut self, len_written: u32, desc_chain_head_idx: u32) -> (r: bool)
        requires
            old(self).wf(),
        ensures
            final(self).wf(),
            r == (old(self)@.ready && (desc_chain_head_idx as int) < old(self)@.size),
            r ==> final(self)@ == (VirtqView {
                used: old(self)@.used.push(
                    VirtqUsedElem { id: desc_chain_head_idx, len: len_written },
                ),
                ..old(self)@
            }),
            !r ==> final(self)@ == old(self)@,
    {
        if self.ready && (desc_chain_head_idx as usize) < self.size {
            self.used.push(VirtqUsedElem { id: desc_chain_head_idx, len: len_written });
            true
        } else {
            false
        }
    }

    /// Number of completions posted so far.
    pub fn used_len(&self) -> (n: usize)
        ensures
            n == self@.used.len(),
    {
        self.used.len()
    }

    /// The `i`-th completion posted, oldest first.
    pub fn used_elem(&self, i: usize) -> (e: VirtqUsedElem)
        requires
            i < self@.used.len(),
        ensures
            e == self@.used[i as int],
    {
        self.used[i]
    }
}

} // verus!
