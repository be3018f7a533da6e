//! Model of the guest-physical memory window a virtio device works
//! against.
//!
//! The real system translates a guest-physical address to a host pointer
//! through an externally supplied page-table walk and then accesses host
//! memory directly. Here the assigned window is held as plain bytes:
//! translation maps a guest-physical address to an offset into the
//! window, and an address outside it translates to nothing (the walk's
//! sentinel for an unmapped address). The embedding that owns real guest
//! memory converts between the two representations at its edge.
use vstd::prelude::*;

verus! {

/// Mathematical model of a guest memory window: its first guest-physical
/// address and its bytes.
pub struct GuestMemView {
    pub base: usize,
    pub bytes: Seq<u8>,
}

/// `s` with `data` laid over it starting at `at`; meaningful when
/// `0 <= at` and `at + data.len() <= s.len()`.
pub open spec fn spec_overwrite(s: Seq<u8>, at: int, data: Seq<u8>) -> Seq<u8> {
    s.take(at) + data + s.skip(at + data.len())
}

/// Little-endian 32-bit value at byte offset `off` of `b`.
pub open spec fn spec_le32(b: Seq<u8>, off: int) -> u32 {
    (b[off] as u32) | ((b[off + 1] as u32) << 8) | ((b[off + 2] as u32) << 16) | ((b[off + 3]
        as u32) << 24)
}

/// Little-endian 64-bit value at byte offset `off` of `b`.
pub open spec fn spec_le64(b: Seq<u8>, off: int) -> u64 {
    (spec_le32(b, off) as u64) | ((spec_le32(b, off + 4) as u64) << 32)
}

impl GuestMemView {
    /// Offset of guest-physical address `gpa` in the window, if mapped.
    pub open spec fn translate(self, gpa: usize) -> Option<usize> {
        if self.base <= gpa < self.base + self.bytes.len() {
            Some((gpa - self.base) as usize)
        } else {
            None
        }
    }

    /// The window with one byte replaced.
    pub open spec fn update_byte(self, off: int, v: u8) -> GuestMemView {
        GuestMemView { base: self.base, bytes: self.bytes.update(off, v) }
    }

    /// The window with `data` laid over it at `off`.
    pub open spec fn write(self, off: int, data: Seq<u8>) -> GuestMemView {
        GuestMemView { base: self.base, bytes: spec_overwrite(self.bytes, off, data) }
    }
}

/// A guest memory window held as plain bytes.
pub struct GuestMem {
    base: usize,
    bytes: Vec<u8>,
}

impl View for GuestMem {
    type V = GuestMemView;

    closed spec fn view(&self) -> GuestMemView {
        GuestMemView { base: self.base, bytes: self.bytes@ }
    }
}

impl GuestMem {
    /// The window's addresses stay within the address space.
    pub open spec fn wf(&self) -> bool {
        self@.base + self@.bytes.len() <= usize::MAX
    }

    /// A zero-filled window of `size` bytes starting at guest-physical
    /// address `base`.
    pub fn new(base: usize, size: usize) -> (m: GuestMem)
        requires
            base + size <= usize::MAX,
        ensures
            m.wf(),
            m@.base == base,
            m@.bytes.len() == size,
            forall|i: int| 0 <= i < size ==> m@.bytes[i] == 0,
    {
        GuestMem { base, bytes: vec![0u8; size] }
    }

    /// Number of bytes in the window.
    pub fn len(&self) -> (n: usize)
        ensures
            n == self@.bytes.len(),
    {
        self.bytes.len()
    }

    /// First guest-physical address of the window.
    pub fn base(&self) -> (b: usize)
        ensures
            b == self@.base,
    {
        self.base
    }

    /// Translates a guest-physical address to a window offset; an address
    /// outside the window is unmapped.
    pub fn translate(&self, gpa: usize) -> (r: Option<usize>)
        requires
            self.wf(),
        ensures
            r == self@.translate(gpa),
    {
        if self.base <= gpa {
            let off = gpa - self.base;
            if off < self.bytes.len() {
                return Some(off);
            }
        }
        None
    }

    /// Little-endian 32-bit read at window offset `off`.
    pub fn read_u32(&self, off: usize) -> (r: Option<u32>)
        ensures
            off + 4 <= self@.bytes.len() ==> r == Some(spec_le32(self@.bytes, off as int)),
            off + 4 > self@.bytes.len() ==> r is None,
    {
        if self.bytes.len() >= 4 && off <= self.bytes.len() - 4 {
            let b0 = self.bytes[off] as u32;
            let b1 = self.bytes[off + 1] as u32;
            let b2 = self.bytes[off + 2] as u32;
            let b3 = self.bytes[off + 3] as u32;
            Some(b0 | (b1 << 8) | (b2 << 16) | (b3 << 24))
        } else {
            None
        }
    }

    /// Little-endian 64-bit read at window offset `off`.
    pub fn read_u64(&self, off: usize) -> (r: Option<u64>)
        ensures
            off + 8 <= self@.bytes.len() ==> r == Some(spec_le64(self@.bytes, off as int)),
            off + 8 > self@.bytes.len() ==> r is None,
    {
        if self.bytes.len() >= 8 && off <= self.bytes.len() - 8 {
            let lo = self.read_u32(off);
            let hi = self.read_u32(off + 4);
            Some((lo.unwrap() as u64) | ((hi.unwrap() as u64) << 32))
        } else {
            None
        }
    }

    /// Writes one byte at window offset `off`; fails outside the window.
    pub fn write_u8(&mut self, off: usize, v: u8) -> (r: bool)
        ensures
            r == (off < old(self)@.bytes.len()),
            r ==> final(self)@ == old(self)@.update_byte(off as int, v),
            !r ==> final(self)@ == old(self)@,
    {
        if off < self.bytes.len() {
            self.bytes[off] = v;
            true
        } else {
            false
        }
    }

    /// Copies `len` bytes starting at window offset `off` out of the
    /// window; fails if the range does not fit.
    pub fn read_range(&self, off: usize, len: usize) -> (r: Option<Vec<u8>>)
        ensures
            off + len <= self@.bytes.len() ==> (r matches Some(v) && v@ == self@.bytes.subrange(
                off as int,
                off + len,
            )),
            off + len > self@.bytes.len() ==> r is None,
    {
        if self.bytes.len() >= len && off <= self.bytes.len() - len {
            let mut out: Vec<u8> = Vec::new();
            let mut i: usize = 0;
            while i < len
                invariant
                    i <= len,
                    off + len <= usize::MAX,
                    off + len <= self.bytes@.len(),
                    out@ == self.bytes@.subrange(off as int, off + i),
                decreases len - i,
            {
                out.push(self.bytes[off + i]);
                i += 1;
                proof {
                    assert(out@ =~= self.bytes@.subrange(off as int, off + i));
                }
            }
            Some(out)
        } else {
            None
        }
    }

    /// Lays `data` over the window at offset `off`; fails if the range
    /// does not fit, leaving the window unchanged.
    pub fn write_range(&mut self, off: usize, data: &Vec<u8>) -> (r: bool)
        ensures
            r == (off + data@.len() <= old(self)@.bytes.len()),
            r ==> final(self)@ == old(self)@.write(off as int, data@),
            !r ==> final(self)@ == old(self)@,
    {
        let len = data.len();
        if self.bytes.len() >= len && off <= self.bytes.len() - len {
            let mut i: usize = 0;
            while i < len
                invariant
                    i <= len,
                    len == data@.len(),
                    off + len <= usize::MAX,
                    off + len <= self.bytes@.len(),
                    self.base == old(self).base,
                    self.bytes@.len() == old(self).bytes@.len(),
                    forall|j: int|
                        0 <= j < self.bytes@.len() && !(off <= j < off + i) ==> self.bytes@[j]
                            == old(self).bytes@[j],
                    forall|j: int| off <= j < off + i ==> self.bytes@[j] == data@[j - off],
                decreases len - i,
            {
                self.bytes[off + i] = data[i];
                i += 1;
            }
            proof {
                assert(self.bytes@ =~= spec_overwrite(old(self).bytes@, off as int, data@));
            }
            true
        } else {
            false
        }
    }

    /// Little-endian byte image of a 16-bit value.
    pub open spec fn spec_u16_bytes(v: u16) -> Seq<u8> {
        seq![(v & 0xff) as u8, ((v >> 8) & 0xff) as u8]
    }

    /// Little-endian byte image of a 32-bit value.
    pub open spec fn spec_u32_bytes(v: u32) -> Seq<u8> {
        seq![(v & 0xff) as u8, ((v >> 8) & 0xff) as u8, ((v >> 16) & 0xff) as u8, ((v >> 24)
            & 0xff) as u8]
    }

    /// Little-endian byte image of a 64-bit value.
    pub open spec fn spec_u64_bytes(v: u64) -> Seq<u8> {
        Self::spec_u32_bytes((v & 0xffff_ffff) as u32) + Self::spec_u32_bytes(
            ((v >> 32) & 0xffff_ffff) as u32,
        )
    }

    /// Little-endian 32-bit write at window offset `off`; fails if the
    /// four bytes do not fit.
    pub fn write_u32(&mut self, off: usize, v: u32) -> (r: bool)
        ensures
            r == (off + 4 <= old(self)@.bytes.len()),
            r ==> final(self)@ == old(self)@.write(off as int, Self::spec_u32_bytes(v)),
            !r ==> final(self)@ == old(self)@,
    {
        let mut data: Vec<u8> = Vec::new();
        data.push((v & 0xff) as u8);
        data.push(((v >> 8) & 0xff) as u8);
        data.push(((v >> 16) & 0xff) as u8);
        data.push(((v >> 24) & 0xff) as u8);
        proof {
            assert(data@ =~= Self::spec_u32_bytes(v));
        }
        self.write_range(off, &data)
    }

    /// Little-endian 64-bit write at window offset `off`; fails if the
    /// eight bytes do not fit.
    pub fn write_u64(&mut self, off: usize, v: u64) -> (r: bool)
        ensures
            r == (off + 8 <= old(self)@.bytes.len()),
            r ==> final(self)@ == old(self)@.write(off as int, Self::spec_u64_bytes(v)),
            !r ==> final(self)@ == old(self)@,
    {
        let mut data: Vec<u8> = Vec::new();
        data.push((v & 0xff) as u8);
        data.push(((v >> 8) & 0xff) as u8);
        data.push(((v >> 16) & 0xff) as u8);
        data.push(((v >> 24) & 0xff) as u8);
        data.push(((v >> 32) & 0xff) as u8);
        data.push(((v >> 40) & 0xff) as u8);
        data.push(((v >> 48) & 0xff) as u8);
        data.push(((v >> 56) & 0xff) as u8);
        proof {
            assert(data@ =~= Self::spec_u64_bytes(v)) by {
                assert((v & 0xffff_ffff) as u32 & 0xff == v & 0xff) by (bit_vector);
                assert(((v & 0xffff_ffff) as u32 >> 8) & 0xff == (v >> 8) & 0xff) by (bit_vector);
                assert(((v & 0xffff_ffff) as u32 >> 16) & 0xff == (v >> 16) & 0xff) by (bit_vector);
                assert(((v & 0xffff_ffff) as u32 >> 24) & 0xff == (v >> 24) & 0xff) by (bit_vector);
                assert(((v >> 32) & 0xffff_ffff) as u32 & 0xff == (v >> 32) & 0xff) by (bit_vector);
                assert((((v >> 32) & 0xffff_ffff) as u32 >> 8) & 0xff == (v >> 40) & 0xff)
                    by (bit_vector);
                assert((((v >> 32) & 0xffff_ffff) as u32 >> 16) & 0xff == (v >> 48) & 0xff)
                    by (bit_vector);
                assert((((v >> 32) & 0xffff_ffff) as u32 >> 24) & 0xff == (v >> 56) & 0xff)
                    by (bit_vector);
            }
        }
        self.write_range(off, &data)
    }
}

} // verus!
