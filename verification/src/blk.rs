//! Virtio block device: configuration space, request state and the
//! queue-draining request interpreter.
use vstd::prelude::*;

use crate::guest_mem::GuestMem;
use crate::guest_mem::GuestMemView;
use crate::guest_mem::spec_le32;
use crate::guest_mem::spec_le64;
use crate::guest_mem::spec_overwrite;
use crate::queue::VIRTQUEUE_MAX_SIZE;
use crate::queue::Virtq;
use crate::queue::VirtqDesc;
use crate::queue::VirtqUsedElem;
use crate::queue::VirtqView;
use crate::queue::spec_desc_has_next;
use crate::queue::spec_desc_writable;
use crate::dev::VirtioMmio;

verus! {

/// Largest virtio block queue the device advertises.
pub const VIRTQUEUE_BLK_MAX_SIZE: usize = 256;

/// Largest virtio network queue the transport would use (stub path).
pub const VIRTQUEUE_NET_MAX_SIZE: usize = 256;

/// Block feature bit: a largest-segment size is advertised.
pub const VIRTIO_BLK_F_SIZE_MAX: u64 = 2;

/// Block feature bit: a largest segment count is advertised.
pub const VIRTIO_BLK_F_SEG_MAX: u64 = 4;

/// Bytes of one page, used to size the largest segment.
pub const PAGE_SIZE_4K: usize = 4096;

/// Bytes of one block-device sector.
pub const SECTOR_BSIZE: usize = 512;

/// Largest size of any single request segment.
pub const BLOCKIF_SIZE_MAX: usize = 128 * 4096;

/// Largest number of segments in one request.
pub const BLOCKIF_IOV_MAX: usize = 512;

/// Request type: read from the device into guest buffers.
pub const VIRTIO_BLK_T_IN: u32 = 0;

/// Request type: write guest buffers to the device.
pub const VIRTIO_BLK_T_OUT: u32 = 1;

/// Request type: flush; accepted, no I/O is performed.
pub const VIRTIO_BLK_T_FLUSH: u32 = 4;

/// Request type: read the fixed device identifier.
pub const VIRTIO_BLK_T_GET_ID: u32 = 8;

/// Status byte: request executed.
pub const VIRTIO_BLK_S_OK: u8 = 0;

/// Status byte: request type not supported.
pub const VIRTIO_BLK_S_UNSUPP: u8 = 2;

/// Disk geometry advertised through the configuration window.
#[derive(Clone, Copy, PartialEq, Eq, Structural)]
pub struct BlkGeometry {
    pub cylinders: u16,
    pub heads: u8,
    pub sectors: u8,
}

impl BlkGeometry {
    /// Geometry of a device that advertises none.
    pub fn default() -> (r: BlkGeometry)
        ensures
            r == (BlkGeometry { cylinders: 0, heads: 0, sectors: 0 }),
    {
        BlkGeometry { cylinders: 0, heads: 0, sectors: 0 }
    }
}

/// I/O-topology hints advertised through the configuration window.
#[derive(Clone, Copy, PartialEq, Eq, Structural)]
pub struct BlkTopology {
    /// Logical blocks per physical block, log2.
    pub physical_block_exp: u8,
    /// Offset of the first aligned logical block.
    pub alignment_offset: u8,
    /// Suggested smallest I/O size, in blocks.
    pub min_io_size: u16,
    /// Suggested largest I/O size, in blocks.
    pub opt_io_size: u32,
}

impl BlkTopology {
    /// Topology of a device that advertises none.
    pub fn default() -> (r: BlkTopology)
        ensures
            r == (BlkTopology {
                physical_block_exp: 0,
                alignment_offset: 0,
                min_io_size: 0,
                opt_io_size: 0,
            }),
    {
        BlkTopology { physical_block_exp: 0, alignment_offset: 0, min_io_size: 0, opt_io_size: 0 }
    }
}

/// Block-device configuration: capacity and limits, laid out as the
/// guest-visible configuration window prescribes.
#[derive(Clone, Copy, PartialEq, Eq, Structural)]
pub struct BlkDescInner {
    /// Capacity, in 512-byte sectors.
    pub capacity: usize,
    /// Largest size of any single segment.
    pub size_max: u32,
    /// Largest number of segments in one request.
    pub seg_max: u32,
    pub geometry: BlkGeometry,
    pub blk_size: usize,
    pub topology: BlkTopology,
    pub writeback: u8,
    pub max_discard_sectors: u32,
    pub max_discard_seg: u32,
    pub discard_sector_alignment: u32,
    pub max_write_zeroes_sectors: u32,
    pub max_write_zeroes_seg: u32,
    pub write_zeroes_may_unmap: u8,
}

impl BlkDescInner {
    /// An all-zero configuration.
    pub fn default() -> (r: BlkDescInner)
        ensures
            r == BlkDescInner::spec_default(),
    {
        BlkDescInner {
            capacity: 0,
            size_max: 0,
            seg_max: 0,
            geometry: BlkGeometry { cylinders: 0, heads: 0, sectors: 0 },
            blk_size: 0,
            topology: BlkTopology {
                physical_block_exp: 0,
                alignment_offset: 0,
                min_io_size: 0,
                opt_io_size: 0,
            },
            writeback: 0,
            max_discard_sectors: 0,
            max_discard_seg: 0,
            discard_sector_alignment: 0,
            max_write_zeroes_sectors: 0,
            max_write_zeroes_seg: 0,
            write_zeroes_may_unmap: 0,
        }
    }

    /// The all-zero configuration.
    pub open spec fn spec_default() -> BlkDescInner {
        BlkDescInner {
            capacity: 0,
            size_max: 0,
            seg_max: 0,
            geometry: BlkGeometry { cylinders: 0, heads: 0, sectors: 0 },
            blk_size: 0,
            topology: BlkTopology {
                physical_block_exp: 0,
                alignment_offset: 0,
                min_io_size: 0,
                opt_io_size: 0,
            },
            writeback: 0,
            max_discard_sectors: 0,
            max_discard_seg: 0,
            discard_sector_alignment: 0,
            max_write_zeroes_sectors: 0,
            max_write_zeroes_seg: 0,
            write_zeroes_may_unmap: 0,
        }
    }

    /// Configures a device of `bsize` sectors with the fixed segment
    /// limits; everything else is left as it was.
    pub fn cfg_init(&mut self, bsize: usize)
        ensures
            *final(self) == (BlkDescInner {
                capacity: bsize,
                size_max: BLOCKIF_SIZE_MAX as u32,
                seg_max: BLOCKIF_IOV_MAX as u32,
                ..(*old(self))
            }),
    {
        self.capacity = bsize;
        self.size_max = BLOCKIF_SIZE_MAX as u32;
        self.seg_max = BLOCKIF_IOV_MAX as u32;
    }
}

/// The guest-visible block configuration, read word by word through the
/// MMIO window.
#[derive(Clone, Copy)]
pub struct BlkDesc {
    inner: BlkDescInner,
}

/// Bytes of the guest-visible block configuration window, tail padding
/// included.
pub const BLK_CFG_BYTES: usize = 72;

/// Byte image of the configuration window: the fields in declaration
/// order, little-endian, with the alignment padding (after the geometry,
/// after the reserved single-byte fields, and at the tail) reading as
/// zero. The guest reads this region byte-addressably.
pub open spec fn spec_cfg_bytes(d: BlkDescInner) -> Seq<u8> {
    GuestMem::spec_u64_bytes(d.capacity as u64) + GuestMem::spec_u32_bytes(d.size_max)
        + GuestMem::spec_u32_bytes(d.seg_max) + GuestMem::spec_u16_bytes(d.geometry.cylinders)
        + seq![d.geometry.heads, d.geometry.sectors] + seq![0u8, 0u8, 0u8, 0u8]
        + GuestMem::spec_u64_bytes(d.blk_size as u64) + seq![
        d.topology.physical_block_exp,
        d.topology.alignment_offset,
    ] + GuestMem::spec_u16_bytes(d.topology.min_io_size) + GuestMem::spec_u32_bytes(
        d.topology.opt_io_size,
    ) + seq![d.writeback, 0u8, 0u8, 0u8] + GuestMem::spec_u32_bytes(d.max_discard_sectors)
        + GuestMem::spec_u32_bytes(d.max_discard_seg) + GuestMem::spec_u32_bytes(
        d.discard_sector_alignment,
    ) + GuestMem::spec_u32_bytes(d.max_write_zeroes_sectors) + GuestMem::spec_u32_bytes(
        d.max_write_zeroes_seg,
    ) + seq![d.write_zeroes_may_unmap, 0u8, 0u8, 0u8] + seq![0u8, 0u8, 0u8, 0u8]
}

/// Appends the little-endian bytes of a 16-bit value.
fn push_u16_le(out: &mut Vec<u8>, v: u16)
    ensures
        final(out)@ == old(out)@ + GuestMem::spec_u16_bytes(v),
{
    out.push((v & 0xff) as u8);
    out.push(((v >> 8) & 0xff) as u8);
    proof {
        assert(out@ =~= old(out)@ + GuestMem::spec_u16_bytes(v));
    }
}

/// Appends the little-endian bytes of a 32-bit value.
fn push_u32_le(out: &mut Vec<u8>, v: u32)
    ensures
        final(out)@ == old(out)@ + GuestMem::spec_u32_bytes(v),
{
    out.push((v & 0xff) as u8);
    out.push(((v >> 8) & 0xff) as u8);
    out.push(((v >> 16) & 0xff) as u8);
    out.push(((v >> 24) & 0xff) as u8);
    proof {
        assert(out@ =~= old(out)@ + GuestMem::spec_u32_bytes(v));
    }
}

/// Appends the little-endian bytes of a 64-bit value.
fn push_u64_le(out: &mut Vec<u8>, v: u64)
    ensures
        final(out)@ == old(out)@ + GuestMem::spec_u64_bytes(v),
{
    push_u32_le(out, (v & 0xffff_ffff) as u32);
    push_u32_le(out, ((v >> 32) & 0xffff_ffff) as u32);
    proof {
        assert(out@ =~= old(out)@ + GuestMem::spec_u64_bytes(v));
    }
}

impl View for BlkDesc {
    type V = BlkDescInner;

    closed spec fn view(&self) -> BlkDescInner {
        self.inner
    }
}

impl BlkDesc {
    /// An all-zero configuration window.
    pub fn default() -> (r: BlkDesc)
        ensures
            r@ == BlkDescInner::spec_default(),
    {
        BlkDesc { inner: BlkDescInner::default() }
    }

    /// Configures the window for a device of `bsize` sectors.
    pub fn cfg_init(&mut self, bsize: usize)
        ensures
            final(self)@ == (BlkDescInner {
                capacity: bsize,
                size_max: BLOCKIF_SIZE_MAX as u32,
                seg_max: BLOCKIF_IOV_MAX as u32,
                ..old(self)@
            }),
    {
        self.inner.cfg_init(bsize);
    }

    /// The configuration window as bytes.
    fn cfg_bytes(&self) -> (v: Vec<u8>)
        ensures
            v@ == spec_cfg_bytes(self@),
            v@.len() == BLK_CFG_BYTES,
    {
        let mut v: Vec<u8> = Vec::new();
        push_u64_le(&mut v, self.inner.capacity as u64);
        push_u32_le(&mut v, self.inner.size_max);
        push_u32_le(&mut v, self.inner.seg_max);
        push_u16_le(&mut v, self.inner.geometry.cylinders);
        v.push(self.inner.geometry.heads);
        v.push(self.inner.geometry.sectors);
        v.push(0);
        v.push(0);
        v.push(0);
        v.push(0);
        push_u64_le(&mut v, self.inner.blk_size as u64);
        v.push(self.inner.topology.physical_block_exp);
        v.push(self.inner.topology.alignment_offset);
        push_u16_le(&mut v, self.inner.topology.min_io_size);
        push_u32_le(&mut v, self.inner.topology.opt_io_size);
        v.push(self.inner.writeback);
        v.push(0);
        v.push(0);
        v.push(0);
        push_u32_le(&mut v, self.inner.max_discard_sectors);
        push_u32_le(&mut v, self.inner.max_discard_seg);
        push_u32_le(&mut v, self.inner.discard_sector_alignment);
        push_u32_le(&mut v, self.inner.max_write_zeroes_sectors);
        push_u32_le(&mut v, self.inner.max_write_zeroes_seg);
        v.push(self.inner.write_zeroes_may_unmap);
        v.push(0);
        v.push(0);
        v.push(0);
        v.push(0);
        v.push(0);
        v.push(0);
        v.push(0);
        proof {
            assert(v@ =~= spec_cfg_bytes(self@));
        }
        v
    }

    /// A guest read of the configuration window at any byte offset: the
    /// little-endian 32-bit value of the window's bytes there. A read
    /// whose four bytes do not fit the window returns zero.
    pub fn offset_data(&self, offset: usize) -> (r: u32)
        ensures
            offset + 4 <= BLK_CFG_BYTES ==> r == spec_le32(spec_cfg_bytes(self@), offset as int),
            offset + 4 > BLK_CFG_BYTES ==> r == 0,
    {
        if offset <= BLK_CFG_BYTES - 4 {
            let bytes = self.cfg_bytes();
            let b0 = bytes[offset] as u32;
            let b1 = bytes[offset + 1] as u32;
            let b2 = bytes[offset + 2] as u32;
            let b3 = bytes[offset + 3] as u32;
            b0 | (b1 << 8) | (b2 << 16) | (b3 << 24)
        } else {
            0
        }
    }
}

/// One entry of a request's I/O vector: a window offset where the
/// buffer's bytes live, and the buffer's length.
#[derive(Clone, Copy, PartialEq, Eq, Structural)]
pub struct BlkIov {
    pub data_bg: usize,
    pub len: u32,
}

/// Per-request state built while draining one descriptor chain: request
/// type, sector offset, the chain head (kept for the completion), the
/// I/O vector, and the accumulated byte count. Created when a chain head
/// is popped from the available ring, destroyed after the request
/// executes and its completion is posted.
#[derive(Clone)]
pub struct VirtioBlkReqNode {
    pub req_type: u32,
    pub reserved: u32,
    /// Sector offset of the request (multiplied by 512 at execution).
    pub sector: u64,
    /// Descriptor index of the chain head, used for the completion.
    pub desc_chain_head_idx: u32,
    /// I/O vector handed to the backing store.
    pub iov: Vec<BlkIov>,
    /// Sum of the I/O vector lengths.
    pub iov_sum_up: u64,
    /// Total bytes of the request; equals `iov_sum_up`.
    pub iov_total: u64,
}

impl VirtioBlkReqNode {
    /// An empty request.
    pub fn default() -> (r: VirtioBlkReqNode)
        ensures
            r.req_type == 0,
            r.reserved == 0,
            r.sector == 0,
            r.desc_chain_head_idx == 0,
            r.iov@ == Seq::<BlkIov>::empty(),
            r.iov_sum_up == 0,
            r.iov_total == 0,
    {
        VirtioBlkReqNode {
            req_type: 0,
            reserved: 0,
            sector: 0,
            desc_chain_head_idx: 0,
            iov: Vec::new(),
            iov_sum_up: 0,
            iov_total: 0,
        }
    }
}

/// Spec-level image of one parsed request: what the interpreter decided
/// to do for one descriptor chain.
pub struct BlkReqSpec {
    pub req_type: u32,
    pub sector: u64,
    pub head: u32,
    pub iovs: Seq<BlkIov>,
}

/// Direction compatibility of a data descriptor with the request type: a
/// read request needs device-writable buffers to fill, a write request
/// needs device-read-only buffers to consume, and any other request type
/// accepts either.
pub open spec fn spec_direction_ok(req_type: u32, writable: bool) -> bool {
    if req_type == VIRTIO_BLK_T_IN {
        writable
    } else if req_type == VIRTIO_BLK_T_OUT {
        !writable
    } else {
        true
    }
}

/// Status byte the parser writes at the tail: supported request types
/// report ok, every other type reports unsupported (a flush request gets
/// the unsupported status but is still accepted and completed).
pub open spec fn spec_status_for(req_type: u32) -> u8 {
    if req_type > 1 && req_type != VIRTIO_BLK_T_GET_ID {
        VIRTIO_BLK_S_UNSUPP
    } else {
        VIRTIO_BLK_S_OK
    }
}

/// Walks a chain past its head, collecting one I/O-vector entry per
/// interior descriptor until the tail; yields the entries and the window
/// offset of the tail's status byte, or nothing on a direction mismatch,
/// an unmapped or out-of-table link, a read-only tail, or a walk longer
/// than `fuel` steps.
pub open spec fn spec_walk_chain(
    desc: Seq<VirtqDesc>,
    mem: GuestMemView,
    req_type: u32,
    idx: u16,
    fuel: nat,
) -> Option<(Seq<BlkIov>, usize)>
    decreases fuel,
{
    if fuel == 0 {
        None
    } else if idx as int >= desc.len() {
        None
    } else {
        let d = desc[idx as int];
        if spec_desc_has_next(d) {
            if !spec_direction_ok(req_type, spec_desc_writable(d)) {
                None
            } else {
                match mem.translate(d.addr) {
                    Option::None => None,
                    Option::Some(off) => match spec_walk_chain(
                        desc,
                        mem,
                        req_type,
                        d.next,
                        (fuel - 1) as nat,
                    ) {
                        Option::None => None,
                        Option::Some(rest) => Some(
                            (seq![BlkIov { data_bg: off, len: d.len }] + rest.0, rest.1),
                        ),
                    },
                }
            }
        } else {
            if !spec_desc_writable(d) {
                None
            } else {
                match mem.translate(d.addr) {
                    Option::None => None,
                    Option::Some(off) => Some((Seq::<BlkIov>::empty(), off)),
                }
            }
        }
    }
}

/// Parses one whole chain: the head must be a device-read-only 16-byte
/// request header with a link; on success yields the request, the window
/// offset of the tail's status byte, and the status value written there.
pub open spec fn spec_parse_chain(desc: Seq<VirtqDesc>, mem: GuestMemView, head: u16) -> Option<
    (BlkReqSpec, usize, u8),
> {
    if head as int >= desc.len() {
        None
    } else {
        let d = desc[head as int];
        if spec_desc_writable(d) {
            None
        } else {
            match mem.translate(d.addr) {
                Option::None => None,
                Option::Some(off) => {
                    if off + 16 > mem.bytes.len() {
                        None
                    } else {
                        let req_type = spec_le32(mem.bytes, off as int);
                        let sector = spec_le64(mem.bytes, off + 8);
                        if !spec_desc_has_next(d) {
                            None
                        } else {
                            match spec_walk_chain(desc, mem, req_type, d.next, desc.len() as nat) {
                                Option::None => None,
                                Option::Some(walked) => Some(
                                    (
                                        BlkReqSpec {
                                            req_type,
                                            sector,
                                            head: head as u32,
                                            iovs: walked.0,
                                        },
                                        walked.1,
                                        spec_status_for(req_type),
                                    ),
                                ),
                            }
                        }
                    }
                },
            }
        }
    }
}

/// Parses the pending chains in order. Each chain's status byte lands in
/// the window before the next chain is parsed; the first malformed chain
/// fails the whole batch.
pub open spec fn spec_parse_chains(desc: Seq<VirtqDesc>, mem: GuestMemView, heads: Seq<u16>) -> Option<
    (Seq<BlkReqSpec>, GuestMemView),
>
    decreases heads.len(),
{
    if heads.len() == 0 {
        Some((Seq::<BlkReqSpec>::empty(), mem))
    } else {
        match spec_parse_chains(desc, mem, heads.drop_last()) {
            Option::None => None,
            Option::Some(done) => match spec_parse_chain(desc, done.1, heads.last()) {
                Option::None => None,
                Option::Some(parsed) => Some(
                    (done.0.push(parsed.0), done.1.update_byte(parsed.1 as int, parsed.2)),
                ),
            },
        }
    }
}

/// Sum of the I/O-vector lengths.
pub open spec fn spec_iov_sum(iovs: Seq<BlkIov>) -> int
    decreases iovs.len(),
{
    if iovs.len() == 0 {
        0
    } else {
        iovs[0].len + spec_iov_sum(iovs.drop_first())
    }
}

/// Window bytes after a read request lands: buffers are filled from the
/// store in I/O-vector order starting at store offset `offset`; an entry
/// whose store range or window range does not fit is skipped, but still
/// advances the store offset.
pub open spec fn spec_exec_in(disk: Seq<u8>, mem: Seq<u8>, iovs: Seq<BlkIov>, offset: int) -> Seq<
    u8,
>
    decreases iovs.len(),
{
    if iovs.len() == 0 {
        mem
    } else {
        let iov = iovs[0];
        let mem1 = if offset + iov.len <= disk.len() && iov.data_bg + iov.len <= mem.len() {
            spec_overwrite(mem, iov.data_bg as int, disk.subrange(offset, offset + iov.len))
        } else {
            mem
        };
        spec_exec_in(disk, mem1, iovs.drop_first(), offset + iov.len)
    }
}

/// Store bytes after a write request lands: buffers are written to the
/// store in I/O-vector order starting at store offset `offset`; an entry
/// whose store range or window range does not fit is skipped, but still
/// advances the store offset.
pub open spec fn spec_exec_out(disk: Seq<u8>, mem: Seq<u8>, iovs: Seq<BlkIov>, offset: int) -> Seq<
    u8,
>
    decreases iovs.len(),
{
    if iovs.len() == 0 {
        disk
    } else {
        let iov = iovs[0];
        let disk1 = if offset + iov.len <= disk.len() && iov.data_bg + iov.len <= mem.len() {
            spec_overwrite(disk, offset, mem.subrange(iov.data_bg as int, iov.data_bg + iov.len))
        } else {
            disk
        };
        spec_exec_out(disk1, mem, iovs.drop_first(), offset + iov.len)
    }
}

/// The fixed 20-byte device identifier a get-id request returns.
pub open spec fn spec_blk_id() -> Seq<u8> {
    seq![
        118u8,
        105u8,
        114u8,
        116u8,
        105u8,
        111u8,
        45u8,
        98u8,
        108u8,
        107u8,
        45u8,
        48u8,
        0u8,
        0u8,
        0u8,
        0u8,
        0u8,
        0u8,
        0u8,
        0u8,
    ]
}

/// Bytes of the fixed device identifier.
pub const BLK_ID_LEN: usize = 20;

/// Effect of one request on the store and the window, and the byte count
/// its completion reports: a read fills the buffers from the store and
/// reports the buffer bytes; a write stores the buffers and reports
/// nothing; get-id puts the fixed identifier in the first buffer; flush
/// and unrecognized types move no data (the latter already carry the
/// unsupported status).
pub open spec fn spec_exec_req(disk: Seq<u8>, mem: Seq<u8>, req: BlkReqSpec) -> (
    Seq<u8>,
    Seq<u8>,
    u32,
) {
    if req.req_type == VIRTIO_BLK_T_IN {
        (
            disk,
            spec_exec_in(disk, mem, req.iovs, (req.sector as int) * (SECTOR_BSIZE as int)),
            (spec_iov_sum(req.iovs) % 0x1_0000_0000) as u32,
        )
    } else if req.req_type == VIRTIO_BLK_T_OUT {
        (spec_exec_out(disk, mem, req.iovs, (req.sector as int) * (SECTOR_BSIZE as int)), mem, 0u32)
    } else if req.req_type == VIRTIO_BLK_T_GET_ID {
        let m = if req.iovs.len() >= 1 && req.iovs[0].data_bg + BLK_ID_LEN <= mem.len() {
            spec_overwrite(mem, req.iovs[0].data_bg as int, spec_blk_id())
        } else {
            mem
        };
        (disk, m, 0u32)
    } else {
        (disk, mem, 0u32)
    }
}

/// Effect of the whole request list: each request executes in order,
/// then posts its completion naming its chain head and byte count.
pub open spec fn spec_exec_reqs(
    disk: Seq<u8>,
    mem: Seq<u8>,
    used: Seq<VirtqUsedElem>,
    reqs: Seq<BlkReqSpec>,
) -> (Seq<u8>, Seq<u8>, Seq<VirtqUsedElem>)
    decreases reqs.len(),
{
    if reqs.len() == 0 {
        (disk, mem, used)
    } else {
        let done = spec_exec_reqs(disk, mem, used, reqs.drop_last());
        let req = reqs.last();
        let step = spec_exec_req(done.0, done.1, req);
        (step.0, step.1, done.2.push(VirtqUsedElem { id: req.head, len: step.2 }))
    }
}

/// Law: a chain whose head descriptor is device-writable never parses,
/// so a notification whose backlog carries such a chain fails and posts
/// no completion (see `virtio_blk_notify_handler`).
pub proof fn lemma_writable_head_rejected(
    desc: Seq<VirtqDesc>,
    mem: GuestMemView,
    heads: Seq<u16>,
    k: int,
)
    requires
        0 <= k < heads.len(),
        (heads[k] as int) < desc.len(),
        spec_desc_writable(desc[heads[k] as int]),
    ensures
        spec_parse_chains(desc, mem, heads) is None,
{
    assert(heads.take(k + 1).drop_last() =~= heads.take(k));
    assert(heads.take(k + 1).last() == heads[k]);
    lemma_parse_chains_fail(desc, mem, heads, k + 1);
}

/// Law: a parsed backlog holds exactly one request per pending chain, in
/// publication order, each keeping its chain head.
pub proof fn lemma_parse_one_per_chain(desc: Seq<VirtqDesc>, mem: GuestMemView, heads: Seq<u16>)
    requires
        spec_parse_chains(desc, mem, heads) is Some,
    ensures
        ({
            let parsed = spec_parse_chains(desc, mem, heads).unwrap();
            &&& parsed.0.len() == heads.len()
            &&& forall|i: int| 0 <= i < heads.len() ==> (#[trigger] parsed.0[i]).head == heads[i]
        }),
    decreases heads.len(),
{
    if heads.len() > 0 {
        lemma_parse_one_per_chain(desc, mem, heads.drop_last());
    }
}

/// Law: executing a parsed backlog posts exactly one completion per
/// pending chain, in order, each naming its chain head — so a drain with
/// notifications suppressed until the snapshotted producer index is
/// reached completes the chains published before the snapshot and none
/// published after it.
pub proof fn lemma_drain_exactly_pending(
    desc: Seq<VirtqDesc>,
    mem: GuestMemView,
    heads: Seq<u16>,
    disk: Seq<u8>,
    used: Seq<VirtqUsedElem>,
)
    requires
        spec_parse_chains(desc, mem, heads) is Some,
    ensures
        ({
            let parsed = spec_parse_chains(desc, mem, heads).unwrap();
            let done = spec_exec_reqs(disk, parsed.1.bytes, used, parsed.0);
            &&& done.2.len() == used.len() + heads.len()
            &&& forall|i: int|
                0 <= i < used.len() ==> (#[trigger] done.2[i]) == used[i]
            &&& forall|i: int|
                0 <= i < heads.len() ==> (#[trigger] done.2[used.len() + i]).id == heads[i]
        }),
{
    lemma_parse_one_per_chain(desc, mem, heads);
    let parsed = spec_parse_chains(desc, mem, heads).unwrap();
    lemma_exec_reqs_shape(disk, parsed.1.bytes, used, parsed.0);
}

/// Executing a batch appends one completion per request, in order, each
/// naming its request's chain head.
proof fn lemma_exec_reqs_shape(disk: Seq<u8>, mem: Seq<u8>, used: Seq<VirtqUsedElem>, reqs: Seq<
    BlkReqSpec,
>)
    ensures
        ({
            let done = spec_exec_reqs(disk, mem, used, reqs);
            &&& done.2.len() == used.len() + reqs.len()
            &&& forall|i: int| 0 <= i < used.len() ==> (#[trigger] done.2[i]) == used[i]
            &&& forall|i: int|
                0 <= i < reqs.len() ==> (#[trigger] done.2[used.len() + i]).id == reqs[i].head
        }),
    decreases reqs.len(),
{
    if reqs.len() > 0 {
        lemma_exec_reqs_shape(disk, mem, used, reqs.drop_last());
    }
}

/// Law: a read request at a sector returns the bytes a write request put
/// there, and its completion reports exactly that many bytes. `src` is
/// the buffer the write supplied out of one window, `dst` the buffer the
/// read fills in another (possibly the same) window; both cover `len`
/// bytes that fit the store at the sector.
pub proof fn lemma_blk_round_trip(
    disk: Seq<u8>,
    mem0: Seq<u8>,
    mem1: Seq<u8>,
    sector: u64,
    src: BlkIov,
    dst: BlkIov,
    out_head: u32,
    in_head: u32,
)
    requires
        src.len == dst.len,
        (sector as int) * (SECTOR_BSIZE as int) + src.len <= disk.len(),
        src.data_bg + src.len <= mem0.len(),
        dst.data_bg + dst.len <= mem1.len(),
    ensures
        ({
            let wreq = BlkReqSpec {
                req_type: VIRTIO_BLK_T_OUT,
                sector,
                head: out_head,
                iovs: seq![src],
            };
            let rreq = BlkReqSpec {
                req_type: VIRTIO_BLK_T_IN,
                sector,
                head: in_head,
                iovs: seq![dst],
            };
            let disk1 = spec_exec_req(disk, mem0, wreq).0;
            let step = spec_exec_req(disk1, mem1, rreq);
            &&& step.1.subrange(dst.data_bg as int, dst.data_bg + dst.len) == mem0.subrange(
                src.data_bg as int,
                src.data_bg + src.len,
            )
            &&& step.2 == dst.len
        }),
{
    let off = (sector as int) * (SECTOR_BSIZE as int);
    let s = sector as int;
    assert(0 <= s * 512) by (nonlinear_arith)
        requires
            0 <= s,
    ;
    assert(off == s * 512);
    let data = mem0.subrange(src.data_bg as int, src.data_bg + src.len);
    let wiovs = seq![src];
    assert(wiovs.drop_first() =~= Seq::<BlkIov>::empty());
    let disk1 = spec_overwrite(disk, off, data);
    assert(spec_exec_out(disk1, mem0, Seq::<BlkIov>::empty(), off + src.len) == disk1);
    assert(spec_exec_out(disk, mem0, wiovs, off) == disk1);
    assert(disk1.len() == disk.len());
    assert(disk1.subrange(off, off + src.len) =~= data);
    let riovs = seq![dst];
    assert(riovs.drop_first() =~= Seq::<BlkIov>::empty());
    let mem2 = spec_overwrite(mem1, dst.data_bg as int, disk1.subrange(off, off + dst.len));
    assert(spec_exec_in(disk1, mem2, Seq::<BlkIov>::empty(), off + dst.len) == mem2);
    assert(spec_exec_in(disk1, mem1, riovs, off) == mem2);
    assert(mem2.subrange(dst.data_bg as int, dst.data_bg + dst.len) =~= data);
    assert(spec_iov_sum(riovs) == dst.len) by {
        assert(spec_iov_sum(Seq::<BlkIov>::empty()) == 0);
    }
}

/// Spec image of a parsed request node.
pub open spec fn spec_node(n: VirtioBlkReqNode) -> BlkReqSpec {
    BlkReqSpec { req_type: n.req_type, sector: n.sector, head: n.desc_chain_head_idx, iovs: n.iov@ }
}

/// Spec images of a request list.
pub open spec fn spec_nodes(s: Seq<VirtioBlkReqNode>) -> Seq<BlkReqSpec> {
    s.map(|i: int, n: VirtioBlkReqNode| spec_node(n))
}

/// The backing store a block device executes against: plain reads and
/// writes of a byte range, bounds-checked against the store's capacity.
/// The reference embedding backs it with a loopback buffer; a real one
/// would back it with a driver.
pub trait PlatOperation {
    /// The bytes the store currently holds.
    spec fn contents(&self) -> Seq<u8>;

    /// Total bytes of the store.
    fn capacity(&self) -> (n: usize)
        ensures
            n == self.contents().len();

    /// Reads `count` bytes at byte offset `offset` into `buf`. Fails,
    /// leaving `buf` untouched, if the range exceeds the capacity.
    fn blk_read(&self, offset: usize, count: usize, buf: &mut Vec<u8>) -> (r: bool)
        ensures
            r == (offset + count <= self.contents().len()),
            r ==> final(buf)@ == self.contents().subrange(offset as int, offset + count),
            !r ==> final(buf)@ == old(buf)@;

    /// Writes the first `count` bytes of `buf` at byte offset `offset`.
    /// Fails, changing nothing, if the range exceeds the capacity or
    /// `buf` holds fewer than `count` bytes.
    fn blk_write(&mut self, offset: usize, count: usize, buf: &Vec<u8>) -> (r: bool)
        ensures
            r == (offset + count <= old(self).contents().len() && count <= buf@.len()),
            r ==> final(self).contents() == spec_overwrite(
                old(self).contents(),
                offset as int,
                buf@.take(count as int),
            ),
            !r ==> final(self).contents() == old(self).contents();
}

/// A loopback backing store: a byte buffer of whole sectors.
pub struct FakeBlkDevice {
    data: Vec<u8>,
}

impl View for FakeBlkDevice {
    type V = Seq<u8>;

    closed spec fn view(&self) -> Seq<u8> {
        self.data@
    }
}

impl FakeBlkDevice {
    /// A zero-filled store of `sectors` 512-byte sectors.
    pub fn new(sectors: usize) -> (d: FakeBlkDevice)
        requires
            sectors * SECTOR_BSIZE <= usize::MAX,
        ensures
            d@.len() == sectors * SECTOR_BSIZE,
            forall|i: int| 0 <= i < d@.len() ==> d@[i] == 0,
    {
        proof {
            assert(sectors * 512 >= 0) by (nonlinear_arith);
        }
        FakeBlkDevice { data: vec![0u8; sectors * SECTOR_BSIZE] }
    }
}

impl PlatOperation for FakeBlkDevice {
    open spec fn contents(&self) -> Seq<u8> {
        self@
    }

    fn capacity(&self) -> (n: usize)
        ensures
            n == self.contents().len(),
    {
        self.data.len()
    }

    fn blk_read(&self, offset: usize, count: usize, buf: &mut Vec<u8>) -> (r: bool)
        ensures
            r == (offset + count <= self.contents().len()),
            r ==> final(buf)@ == self.contents().subrange(offset as int, offset + count),
            !r ==> final(buf)@ == old(buf)@,
    {
        if self.data.len() >= count && offset <= self.data.len() - count {
            buf.clear();
            let mut i: usize = 0;
            while i < count
                invariant
                    i <= count,
                    offset + count <= usize::MAX,
                    offset + count <= self.data@.len(),
                    buf@ == self.data@.subrange(offset as int, offset + i),
                decreases count - i,
            {
                buf.push(self.data[offset + i]);
                i += 1;
                proof {
                    assert(buf@ =~= self.data@.subrange(offset as int, offset + i));
                }
            }
            true
        } else {
            false
        }
    }

    fn blk_write(&mut self, offset: usize, count: usize, buf: &Vec<u8>) -> (r: bool)
        ensures
            r == (offset + count <= old(self).contents().len() && count <= buf@.len()),
            r ==> final(self).contents() == spec_overwrite(
                old(self).contents(),
                offset as int,
                buf@.take(count as int),
            ),
            !r ==> final(self).contents() == old(self).contents(),
    {
        if self.data.len() >= count && offset <= self.data.len() - count && count <= buf.len() {
            let mut i: usize = 0;
            while i < count
                invariant
                    i <= count,
                    count <= buf@.len(),
                    offset + count <= usize::MAX,
                    offset + count <= self.data@.len(),
                    self.data@.len() == old(self).data@.len(),
                    forall|j: int|
                        0 <= j < self.data@.len() && !(offset <= j < offset + i) ==> self.data@[j]
                            == old(self).data@[j],
                    forall|j: int| offset <= j < offset + i ==> self.data@[j] == buf@[j - offset],
                decreases count - i,
            {
                self.data[offset + i] = buf[i];
                i += 1;
            }
            proof {
                assert(self.data@ =~= spec_overwrite(
                    old(self).data@,
                    offset as int,
                    buf@.take(count as int),
                ));
            }
            true
        } else {
            false
        }
    }
}

/// A read request never shrinks or grows the window.
proof fn lemma_exec_in_len(disk: Seq<u8>, mem: Seq<u8>, iovs: Seq<BlkIov>, offset: int)
    requires
        0 <= offset,
    ensures
        spec_exec_in(disk, mem, iovs, offset).len() == mem.len(),
    decreases iovs.len(),
{
    if iovs.len() > 0 {
        let iov = iovs[0];
        let mem1 = if offset + iov.len <= disk.len() && iov.data_bg + iov.len <= mem.len() {
            spec_overwrite(mem, iov.data_bg as int, disk.subrange(offset, offset + iov.len))
        } else {
            mem
        };
        lemma_exec_in_len(disk, mem1, iovs.drop_first(), offset + iov.len);
    }
}

/// A write request never shrinks or grows the store.
proof fn lemma_exec_out_len(disk: Seq<u8>, mem: Seq<u8>, iovs: Seq<BlkIov>, offset: int)
    requires
        0 <= offset,
    ensures
        spec_exec_out(disk, mem, iovs, offset).len() == disk.len(),
    decreases iovs.len(),
{
    if iovs.len() > 0 {
        let iov = iovs[0];
        let disk1 = if offset + iov.len <= disk.len() && iov.data_bg + iov.len <= mem.len() {
            spec_overwrite(disk, offset, mem.subrange(iov.data_bg as int, iov.data_bg + iov.len))
        } else {
            disk
        };
        lemma_exec_out_len(disk1, mem, iovs.drop_first(), offset + iov.len);
    }
}

/// Whether a data descriptor's writability fits the request type.
fn direction_ok(req_type: u32, writable: bool) -> (r: bool)
    ensures
        r == spec_direction_ok(req_type, writable),
{
    if req_type == VIRTIO_BLK_T_IN {
        writable
    } else if req_type == VIRTIO_BLK_T_OUT {
        !writable
    } else {
        true
    }
}

/// The fixed device identifier, as bytes.
fn blk_id_bytes() -> (v: Vec<u8>)
    ensures
        v@ == spec_blk_id(),
        v@.len() == BLK_ID_LEN,
{
    let mut v: Vec<u8> = Vec::new();
    v.push(118);
    v.push(105);
    v.push(114);
    v.push(116);
    v.push(105);
    v.push(111);
    v.push(45);
    v.push(98);
    v.push(108);
    v.push(107);
    v.push(45);
    v.push(48);
    v.push(0);
    v.push(0);
    v.push(0);
    v.push(0);
    v.push(0);
    v.push(0);
    v.push(0);
    v.push(0);
    proof {
        assert(v@ =~= spec_blk_id());
    }
    v
}

/// Parses the chain headed by `head`: reads the request header behind
/// the head descriptor, collects the interior buffers, and determines
/// the tail's status byte (returned, with its window offset, for the
/// caller to write). Fails on any malformed chain, exactly as
/// `spec_parse_chain` lays out.
fn parse_chain(vq: &Virtq, mem: &GuestMem, head: u16) -> (r: Option<(VirtioBlkReqNode, usize, u8)>)
    requires
        vq.wf(),
        mem.wf(),
        (head as int) < vq@.size,
    ensures
        match spec_parse_chain(vq@.desc, mem@, head) {
            Option::None => r is None,
            Option::Some(parsed) => {
                &&& r matches Some(got)
                &&& got.0.req_type == parsed.0.req_type
                &&& got.0.reserved == 0
                &&& got.0.sector == parsed.0.sector
                &&& got.0.desc_chain_head_idx == parsed.0.head
                &&& got.0.iov@ == parsed.0.iovs
                &&& got.0.iov_sum_up == spec_iov_sum(parsed.0.iovs)
                &&& got.0.iov_total == got.0.iov_sum_up
                &&& got.0.iov@.len() <= vq@.size
                &&& got.1 == parsed.1
                &&& got.1 < mem@.bytes.len()
                &&& got.2 == parsed.2
            },
        },
{
    let size = vq.size();
    // Head: must be device-read-only and map a 16-byte request header.
    if vq.desc_is_writable(head as usize) {
        return None;
    }
    let hdr_off = match mem.translate(vq.desc_addr(head as usize)) {
        Some(o) => o,
        None => { return None },
    };
    let mlen = mem.len();
    if mlen < 16 || hdr_off > mlen - 16 {
        return None;
    }
    let req_type = mem.read_u32(hdr_off).unwrap();
    let sector = mem.read_u64(hdr_off + 8).unwrap();
    if !vq.desc_has_next(head as usize) {
        return None;
    }
    let mut cur: u16 = vq.desc_next(head as usize);
    let mut fuel: usize = size;
    let mut iov: Vec<BlkIov> = Vec::new();
    let mut iov_sum: u64 = 0;
    loop
        invariant
            vq.wf(),
            mem.wf(),
            size == vq@.size,
            fuel <= size,
            iov@.len() + fuel == size,
            iov_sum == spec_iov_sum(iov@),
            iov_sum <= iov@.len() * 0xffff_ffff,
            spec_parse_chain(vq@.desc, mem@, head) == (match spec_walk_chain(
                vq@.desc,
                mem@,
                req_type,
                cur,
                fuel as nat,
            ) {
                Option::None => Option::<(BlkReqSpec, usize, u8)>::None,
                Option::Some(walked) => Some(
                    (
                        BlkReqSpec {
                            req_type,
                            sector,
                            head: head as u32,
                            iovs: iov@ + walked.0,
                        },
                        walked.1,
                        spec_status_for(req_type),
                    ),
                ),
            }),
        decreases fuel,
    {
        if fuel == 0 {
            return None;
        }
        if cur as usize >= size {
            return None;
        }
        if vq.desc_has_next(cur as usize) {
            if !direction_ok(req_type, vq.desc_is_writable(cur as usize)) {
                return None;
            }
            let data_bg = match mem.translate(vq.desc_addr(cur as usize)) {
                Some(o) => o,
                None => { return None },
            };
            let entry = BlkIov { data_bg, len: vq.desc_len(cur as usize) };
            let ghost iov_before = iov@;
            iov.push(entry);
            iov_sum = iov_sum + entry.len as u64;
            cur = vq.desc_next(cur as usize);
            fuel = fuel - 1;
            proof {
                lemma_iov_sum_push(iov_before, entry);
                if let Option::Some(walked) = spec_walk_chain(
                    vq@.desc,
                    mem@,
                    req_type,
                    cur,
                    fuel as nat,
                ) {
                    assert(iov@ + walked.0 =~= iov_before + (seq![entry] + walked.0));
                }
            }
        } else {
            if !vq.desc_is_writable(cur as usize) {
                return None;
            }
            let st_off = match mem.translate(vq.desc_addr(cur as usize)) {
                Some(o) => o,
                None => { return None },
            };
            let status = if req_type > 1 && req_type != VIRTIO_BLK_T_GET_ID {
                VIRTIO_BLK_S_UNSUPP
            } else {
                VIRTIO_BLK_S_OK
            };
            let node = VirtioBlkReqNode {
                req_type,
                reserved: 0,
                sector,
                desc_chain_head_idx: head as u32,
                iov,
                iov_sum_up: iov_sum,
                iov_total: iov_sum,
            };
            proof {
                assert(node.iov@ + Seq::<BlkIov>::empty() =~= node.iov@);
            }
            return Some((node, st_off, status));
        }
    }
}

/// Appending an entry adds its length to the I/O-vector sum.
proof fn lemma_iov_sum_push(iovs: Seq<BlkIov>, entry: BlkIov)
    ensures
        spec_iov_sum(iovs.push(entry)) == spec_iov_sum(iovs) + entry.len,
    decreases iovs.len(),
{
    if iovs.len() == 0 {
        assert(iovs.push(entry).drop_first() =~= Seq::<BlkIov>::empty());
        assert(spec_iov_sum(Seq::<BlkIov>::empty()) == 0);
    } else {
        assert(iovs.push(entry).drop_first() =~= iovs.drop_first().push(entry));
        lemma_iov_sum_push(iovs.drop_first(), entry);
    }
}

/// Taking one more node extends the spec image of the prefix by one.
proof fn lemma_spec_nodes_take_push(s: Seq<VirtioBlkReqNode>, i: int)
    requires
        0 <= i < s.len(),
    ensures
        spec_nodes(s.take(i + 1)) =~= spec_nodes(s.take(i)).push(spec_node(s[i])),
{
}

/// Executes one parsed request against the store and the window; the
/// returned byte count is what the request's completion reports.
fn exec_req<D: PlatOperation>(node: &VirtioBlkReqNode, mem: &mut GuestMem, disk: &mut D) -> (wlen:
    u32)
    requires
        old(mem).wf(),
        node.iov@.len() <= VIRTQUEUE_MAX_SIZE,
    ensures
        final(mem).wf(),
        final(mem)@.base == old(mem)@.base,
        ({
            let step = spec_exec_req(old(disk).contents(), old(mem)@.bytes, spec_node(*node));
            &&& final(disk).contents() == step.0
            &&& final(mem)@.bytes == step.1
            &&& wlen == step.2
        }),
{
    let ghost d0 = disk.contents();
    let ghost m0 = mem@.bytes;
    let ghost base0 = mem@.base;
    if node.req_type == VIRTIO_BLK_T_IN {
        let cap = disk.capacity();
        proof {
            let s = node.sector as int;
            assert(0 <= s * 512 && s * 512 <= 0xffff_ffff_ffff_ffff * 512) by (nonlinear_arith)
                requires
                    0 <= s <= 0xffff_ffff_ffff_ffff,
            ;
        }
        let mut offset: u128 = (node.sector as u128) * (SECTOR_BSIZE as u128);
        let ghost off0 = offset as int;
        let mut sum: u64 = 0;
        let mut i: usize = 0;
        let n = node.iov.len();
        proof {
            assert(node.iov@.skip(0int) =~= node.iov@);
            assert(node.iov@.take(0int) =~= Seq::<BlkIov>::empty());
            assert(spec_iov_sum(Seq::<BlkIov>::empty()) == 0);
        }
        while i < n
            invariant
                base0 == old(mem)@.base,
                m0 == old(mem)@.bytes,
                d0 == old(disk).contents(),
                off0 == (node.sector as int) * (SECTOR_BSIZE as int),
                i <= n,
                n == node.iov@.len(),
                n <= VIRTQUEUE_MAX_SIZE,
                mem.wf(),
                mem@.base == base0,
                mem@.bytes.len() == m0.len(),
                disk.contents() == d0,
                cap == d0.len(),
                0 <= off0 <= 0xffff_ffff_ffff_ffffu128 * 512,
                sum == spec_iov_sum(node.iov@.take(i as int)),
                sum <= i * 0xffff_ffff,
                offset == off0 + sum,
                spec_exec_in(d0, mem@.bytes, node.iov@.skip(i as int), offset as int)
                    == spec_exec_in(d0, m0, node.iov@, off0),
            decreases n - i,
        {
            let iov = node.iov[i];
            if offset + (iov.len as u128) <= (cap as u128) {
                let mut buf: Vec<u8> = Vec::new();
                let ok = disk.blk_read(offset as usize, iov.len as usize, &mut buf);
                let _written = mem.write_range(iov.data_bg, &buf);
            }
            proof {
                assert(node.iov@.skip(i as int).drop_first() =~= node.iov@.skip(i + 1));
                assert(node.iov@.skip(i as int)[0] == iov);
                assert(node.iov@.take(i + 1) =~= node.iov@.take(i as int).push(iov));
                lemma_iov_sum_push(node.iov@.take(i as int), iov);
            }
            sum = sum + iov.len as u64;
            offset = offset + iov.len as u128;
            i += 1;
        }
        proof {
            assert(node.iov@.skip(n as int) =~= Seq::<BlkIov>::empty());
            assert(node.iov@.take(n as int) =~= node.iov@);
        }
        (sum % 0x1_0000_0000u64) as u32
    } else if node.req_type == VIRTIO_BLK_T_OUT {
        let cap = disk.capacity();
        proof {
            let s = node.sector as int;
            assert(0 <= s * 512 && s * 512 <= 0xffff_ffff_ffff_ffff * 512) by (nonlinear_arith)
                requires
                    0 <= s <= 0xffff_ffff_ffff_ffff,
            ;
        }
        let mut offset: u128 = (node.sector as u128) * (SECTOR_BSIZE as u128);
        let ghost off0 = offset as int;
        let mut sum: u64 = 0;
        let mut i: usize = 0;
        let n = node.iov.len();
        proof {
            assert(node.iov@.skip(0int) =~= node.iov@);
            assert(node.iov@.take(0int) =~= Seq::<BlkIov>::empty());
            assert(spec_iov_sum(Seq::<BlkIov>::empty()) == 0);
        }
        while i < n
            invariant
                base0 == old(mem)@.base,
                m0 == old(mem)@.bytes,
                d0 == old(disk).contents(),
                off0 == (node.sector as int) * (SECTOR_BSIZE as int),
                i <= n,
                n == node.iov@.len(),
                n <= VIRTQUEUE_MAX_SIZE,
                mem.wf(),
                mem@.base == base0,
                mem@.bytes == m0,
                disk.contents().len() == d0.len(),
                cap == d0.len(),
                0 <= off0 <= 0xffff_ffff_ffff_ffffu128 * 512,
                sum == spec_iov_sum(node.iov@.take(i as int)),
                sum <= i * 0xffff_ffff,
                offset == off0 + sum,
                spec_exec_out(disk.contents(), m0, node.iov@.skip(i as int), offset as int)
                    == spec_exec_out(d0, m0, node.iov@, off0),
            decreases n - i,
        {
            let iov = node.iov[i];
            let ghost disk_before = disk.contents();
            if offset + (iov.len as u128) <= (cap as u128) {
                match mem.read_range(iov.data_bg, iov.len as usize) {
                    Some(buf) => {
                        let ok = disk.blk_write(offset as usize, iov.len as usize, &buf);
                        proof {
                            assert(buf@.take(iov.len as int) =~= buf@);
                        }
                    },
                    None => {},
                }
            }
            proof {
                assert(node.iov@.skip(i as int).drop_first() =~= node.iov@.skip(i + 1));
                assert(node.iov@.skip(i as int)[0] == iov);
                assert(node.iov@.take(i + 1) =~= node.iov@.take(i as int).push(iov));
                lemma_iov_sum_push(node.iov@.take(i as int), iov);
                lemma_exec_out_len(disk_before, m0, node.iov@.skip(i as int), offset as int);
            }
            sum = sum + iov.len as u64;
            offset = offset + iov.len as u128;
            i += 1;
        }
        proof {
            assert(node.iov@.skip(n as int) =~= Seq::<BlkIov>::empty());
        }
        0
    } else if node.req_type == VIRTIO_BLK_T_GET_ID {
        if node.iov.len() >= 1 {
            let first = node.iov[0];
            let id = blk_id_bytes();
            let _written = mem.write_range(first.data_bg, &id);
        }
        0
    } else {
        0
    }
}

/// Executes the parsed requests in order, posting one completion per
/// request; stops and fails on the first completion that cannot be
/// posted, leaving later requests unexecuted and the used ring as it
/// was.
fn process_blk_requests<D: PlatOperation>(
    req_list: Vec<VirtioBlkReqNode>,
    vq: &mut Virtq,
    mem: &mut GuestMem,
    disk: &mut D,
) -> (r: bool)
    requires
        old(vq).wf(),
        old(mem).wf(),
        forall|i: int|
            0 <= i < req_list@.len() ==> ((#[trigger] req_list@[i]).desc_chain_head_idx as int)
                < old(vq)@.size && req_list@[i].iov@.len() <= VIRTQUEUE_MAX_SIZE,
    ensures
        final(vq).wf(),
        final(mem).wf(),
        final(mem)@.base == old(mem)@.base,
        final(vq)@ == (VirtqView { used: final(vq)@.used, ..old(vq)@ }),
        r == (req_list@.len() == 0 || old(vq)@.ready),
        ({
            let done = spec_exec_reqs(
                old(disk).contents(),
                old(mem)@.bytes,
                old(vq)@.used,
                spec_nodes(req_list@),
            );
            r ==> final(disk).contents() == done.0 && final(mem)@.bytes == done.1 && final(vq)@.used
                == done.2
        }),
        !r ==> ({
            let step = spec_exec_req(
                old(disk).contents(),
                old(mem)@.bytes,
                spec_node(req_list@[0]),
            );
            &&& final(disk).contents() == step.0
            &&& final(mem)@.bytes == step.1
            &&& final(vq)@.used == old(vq)@.used
        }),
{
    let ghost v0 = vq@;
    let ghost d0 = disk.contents();
    let ghost m0 = mem@.bytes;
    let ghost base0 = mem@.base;
    let n = req_list.len();
    let mut i: usize = 0;
    while i < n
        invariant
            v0 == old(vq)@,
            d0 == old(disk).contents(),
            m0 == old(mem)@.bytes,
            base0 == old(mem)@.base,
            i <= n,
            n == req_list@.len(),
            vq.wf(),
            mem.wf(),
            mem@.base == base0,
            vq@ == (VirtqView { used: vq@.used, ..v0 }),
            i > 0 ==> v0.ready,
            forall|j: int|
                0 <= j < req_list@.len() ==> ((#[trigger] req_list@[j]).desc_chain_head_idx as int)
                    < v0.size && req_list@[j].iov@.len() <= VIRTQUEUE_MAX_SIZE,
            ({
                let done = spec_exec_reqs(d0, m0, v0.used, spec_nodes(req_list@.take(i as int)));
                &&& disk.contents() == done.0
                &&& mem@.bytes == done.1
                &&& vq@.used == done.2
            }),
        decreases n - i,
    {
        let node = &req_list[i];
        let wlen = exec_req(node, mem, disk);
        proof {
            lemma_spec_nodes_take_push(req_list@, i as int);
            assert(spec_nodes(req_list@.take(i + 1)).drop_last() =~= spec_nodes(
                req_list@.take(i as int),
            ));
        }
        if !vq.update_used_ring(wlen, node.desc_chain_head_idx) {
            proof {
                assert(req_list@.take(1int) =~= seq![req_list@[0]]);
                assert(spec_nodes(req_list@.take(0int)) =~= Seq::<BlkReqSpec>::empty());
            }
            return false;
        }
        i += 1;
    }
    proof {
        assert(req_list@.take(n as int) =~= req_list@);
    }
    true
}


/// Once a prefix of the backlog fails to parse, the whole backlog fails.
proof fn lemma_parse_chains_fail(desc: Seq<VirtqDesc>, mem: GuestMemView, heads: Seq<u16>, k: int)
    requires
        0 <= k <= heads.len(),
        spec_parse_chains(desc, mem, heads.take(k)) is None,
    ensures
        spec_parse_chains(desc, mem, heads) is None,
    decreases heads.len() - k,
{
    if k == heads.len() {
        assert(heads.take(k) =~= heads);
    } else {
        assert(heads.take(k + 1).drop_last() =~= heads.take(k));
        lemma_parse_chains_fail(desc, mem, heads, k + 1);
    }
}

/// One request changes neither the store's nor the window's size.
proof fn lemma_exec_req_len(disk: Seq<u8>, mem: Seq<u8>, req: BlkReqSpec)
    ensures
        spec_exec_req(disk, mem, req).0.len() == disk.len(),
        spec_exec_req(disk, mem, req).1.len() == mem.len(),
{
    let off = (req.sector as int) * (SECTOR_BSIZE as int);
    let s = req.sector as int;
    assert(0 <= s * 512) by (nonlinear_arith)
        requires
            0 <= s,
    ;
    assert(off == s * 512);
    if req.req_type == VIRTIO_BLK_T_IN {
        lemma_exec_in_len(disk, mem, req.iovs, off);
    } else if req.req_type == VIRTIO_BLK_T_OUT {
        lemma_exec_out_len(disk, mem, req.iovs, off);
    }
}

/// A request batch changes neither size and posts one completion per
/// request.
proof fn lemma_exec_reqs_len(disk: Seq<u8>, mem: Seq<u8>, used: Seq<VirtqUsedElem>, reqs: Seq<
    BlkReqSpec,
>)
    ensures
        spec_exec_reqs(disk, mem, used, reqs).0.len() == disk.len(),
        spec_exec_reqs(disk, mem, used, reqs).1.len() == mem.len(),
        spec_exec_reqs(disk, mem, used, reqs).2.len() == used.len() + reqs.len(),
    decreases reqs.len(),
{
    if reqs.len() > 0 {
        lemma_exec_reqs_len(disk, mem, used, reqs.drop_last());
        let done = spec_exec_reqs(disk, mem, used, reqs.drop_last());
        lemma_exec_req_len(done.0, done.1, reqs.last());
    }
}

/// The chain heads published on the available ring that the device has
/// not consumed yet.
pub open spec fn spec_pending(v: VirtqView) -> Seq<u16> {
    v.avail.subrange(v.last_avail_idx as int, v.avail.len() as int)
}

/// Handles one queue kick of the block device.
///
/// If the queue is ready, the device snapshots the producer index,
/// suppresses guest notifications, and drains every chain published
/// before the snapshot: each chain is parsed (`spec_parse_chains`),
/// receives its status byte, and — once the whole backlog parsed — is
/// executed and completed (`spec_exec_reqs`). Notifications are
/// re-enabled only when the device observes it has caught up to the
/// snapshot; a chain published after the snapshot is left for the next
/// kick. A queue that is not ready, and any malformed chain, fail the
/// whole notification; on such a failure no completion is posted and the
/// store is untouched (status bytes of chains parsed before the failure
/// have already landed in the window).
pub fn virtio_blk_notify_handler<D: PlatOperation>(
    vq: &mut Virtq,
    blk: &VirtioMmio,
    mem: &mut GuestMem,
    disk: &mut D,
) -> (r: bool)
    requires
        old(vq).wf(),
        old(mem).wf(),
    ensures
        final(vq).wf(),
        final(mem).wf(),
        final(vq)@.desc == old(vq)@.desc,
        final(vq)@.avail == old(vq)@.avail,
        final(vq)@.size == old(vq)@.size,
        final(vq)@.ready == old(vq)@.ready,
        final(mem)@.base == old(mem)@.base,
        final(mem)@.bytes.len() == old(mem)@.bytes.len(),
        !old(vq)@.ready ==> r == false && final(vq)@ == old(vq)@ && final(mem)@ == old(mem)@
            && final(disk).contents() == old(disk).contents(),
        old(vq)@.ready ==> match spec_parse_chains(
            old(vq)@.desc,
            old(mem)@,
            spec_pending(old(vq)@),
        ) {
            Option::None => {
                &&& r == false
                &&& final(vq)@.used == old(vq)@.used
                &&& final(disk).contents() == old(disk).contents()
                &&& old(vq)@.last_avail_idx <= final(vq)@.last_avail_idx <= old(vq)@.avail.len()
                &&& exists|k: int|
                    0 <= k <= spec_pending(old(vq)@).len() && ((#[trigger] spec_parse_chains(
                        old(vq)@.desc,
                        old(mem)@,
                        spec_pending(old(vq)@).take(k),
                    )) matches Some(pre) && final(mem)@ == pre.1)
            },
            Option::Some(parsed) => {
                let done = spec_exec_reqs(
                    old(disk).contents(),
                    parsed.1.bytes,
                    old(vq)@.used,
                    parsed.0,
                );
                &&& r == true
                &&& final(vq)@.last_avail_idx == old(vq)@.avail.len()
                &&& final(vq)@.used == done.2
                &&& final(mem)@.bytes == done.1
                &&& final(disk).contents() == done.0
                &&& final(vq)@.notify_enabled == (if spec_pending(old(vq)@).len() > 0 {
                    true
                } else {
                    old(vq)@.notify_enabled
                })
            },
        },
{
    let avail_idx = vq.avail_idx();
    if !vq.ready() {
        return false;
    }
    let _dev = blk.dev();
    let ghost v0 = vq@;
    let ghost m0 = mem@;
    let ghost d0 = disk.contents();
    let mut req_list: Vec<VirtioBlkReqNode> = Vec::new();
    proof {
        assert(v0.avail.subrange(v0.last_avail_idx as int, v0.last_avail_idx as int) =~= Seq::<
            u16,
        >::empty());
    }
    let mut next_desc_idx_opt = vq.pop_avail_desc_idx(avail_idx);
    while next_desc_idx_opt.is_some()
        invariant
            v0 == old(vq)@,
            m0 == old(mem)@,
            d0 == old(disk).contents(),
            vq.wf(),
            mem.wf(),
            v0.ready,
            vq@.desc == v0.desc,
            vq@.avail == v0.avail,
            vq@.size == v0.size,
            vq@.ready == v0.ready,
            vq@.used == v0.used,
            avail_idx == v0.avail.len(),
            mem@.base == m0.base,
            mem@.bytes.len() == m0.bytes.len(),
            disk.contents() == d0,
            v0.last_avail_idx <= vq@.last_avail_idx <= avail_idx,
            forall|j: int|
                0 <= j < req_list@.len() ==> ((#[trigger] req_list@[j]).desc_chain_head_idx as int)
                    < v0.size && req_list@[j].iov@.len() <= VIRTQUEUE_MAX_SIZE,
            match next_desc_idx_opt {
                Option::Some(h) => {
                    &&& v0.last_avail_idx < vq@.last_avail_idx
                    &&& h == v0.avail[vq@.last_avail_idx - 1]
                    &&& spec_parse_chains(
                        v0.desc,
                        m0,
                        v0.avail.subrange(v0.last_avail_idx as int, vq@.last_avail_idx - 1),
                    ) == Some((spec_nodes(req_list@), mem@))
                    &&& vq@.notify_enabled == (if vq@.last_avail_idx - 1 == v0.last_avail_idx {
                        v0.notify_enabled
                    } else {
                        false
                    })
                },
                Option::None => {
                    &&& vq@.last_avail_idx == avail_idx
                    &&& spec_parse_chains(
                        v0.desc,
                        m0,
                        v0.avail.subrange(v0.last_avail_idx as int, avail_idx as int),
                    ) == Some((spec_nodes(req_list@), mem@))
                    &&& vq@.notify_enabled == (if v0.last_avail_idx == avail_idx {
                        v0.notify_enabled
                    } else {
                        true
                    })
                },
            },
        decreases avail_idx - vq@.last_avail_idx + (if next_desc_idx_opt is Some {
            1int
        } else {
            0int
        }),
    {
        let next_desc_idx = next_desc_idx_opt.unwrap();
        vq.disable_notify();
        if vq.check_avail_idx(avail_idx) {
            vq.enable_notify();
        }
        let ghost heads_before = v0.avail.subrange(
            v0.last_avail_idx as int,
            vq@.last_avail_idx - 1,
        );
        match parse_chain(vq, mem, next_desc_idx) {
            Some(got) => {
                let (node, st_off, status) = got;
                let wrote = mem.write_u8(st_off, status);
                proof {
                    assert(wrote);
                    let heads_now = v0.avail.subrange(
                        v0.last_avail_idx as int,
                        vq@.last_avail_idx as int,
                    );
                    assert(heads_now.drop_last() =~= heads_before);
                    assert(heads_now.last() == next_desc_idx);
                }
                let ghost nodes_before = req_list@;
                req_list.push(node);
                proof {
                    assert(spec_nodes(req_list@) =~= spec_nodes(nodes_before).push(
                        spec_node(node),
                    ));
                }
            },
            None => {
                proof {
                    let pending = spec_pending(v0);
                    let heads_now = v0.avail.subrange(
                        v0.last_avail_idx as int,
                        vq@.last_avail_idx as int,
                    );
                    assert(heads_now.drop_last() =~= heads_before);
                    assert(heads_now.last() == next_desc_idx);
                    assert(heads_now =~= pending.take(
                        vq@.last_avail_idx - v0.last_avail_idx,
                    ));
                    lemma_parse_chains_fail(
                        v0.desc,
                        m0,
                        pending,
                        vq@.last_avail_idx - v0.last_avail_idx,
                    );
                    let consumed = vq@.last_avail_idx - v0.last_avail_idx - 1;
                    assert(heads_before =~= pending.take(consumed));
                    assert((spec_parse_chains(v0.desc, m0, pending.take(consumed)) matches Some(
                        pre,
                    ) && mem@ == pre.1));
                }
                return false;
            },
        }
        next_desc_idx_opt = vq.pop_avail_desc_idx(avail_idx);
    }
    proof {
        assert(spec_pending(v0) == v0.avail.subrange(v0.last_avail_idx as int, avail_idx as int));
    }
    proof {
        if let Option::Some(parsed) = spec_parse_chains(v0.desc, m0, spec_pending(v0)) {
            lemma_exec_reqs_len(d0, parsed.1.bytes, v0.used, parsed.0);
        }
    }
    if !process_blk_requests(req_list, vq, mem, disk) {
        return false;
    }
    true
}

} // verus!
