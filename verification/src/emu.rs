//! Emulated-MMIO dispatch: a table mapping guest-physical address ranges
//! to emulated devices, with registration and dispatch.
//!
//! The embedding owns one table per system, guards it with a lock, and
//! treats a failed registration as fatal; here the table is a plain value
//! with exclusive-reference methods and registration reports the defect
//! to the caller.
use vstd::prelude::*;

use crate::dev::VirtioMmio;

verus! {

/// Bound on the number of emulated devices.
pub const EMU_DEV_NUM_MAX: usize = 32;

/// Kind of emulated device behind a registered range.
#[derive(Clone, Copy, Debug, PartialEq, Eq, Structural)]
pub enum EmuDeviceType {
    EmuDeviceTVirtioBlk,
    EmuDeviceTVirtioNet,
}

/// One trapped memory access: faulting guest-physical address, access
/// width in bytes, direction, sign-extension flag, the register
/// implicated in the access and that register's width. Created fresh per
/// trap and consumed by exactly one device handler.
#[derive(Clone, Copy)]
pub struct EmuContext {
    pub address: usize,
    pub width: usize,
    pub write: bool,
    pub sign_ext: bool,
    pub reg: usize,
    pub reg_width: usize,
}

/// One registered device: kind, device id and claimed address range.
/// Immutable once registered.
#[derive(Clone, Copy)]
pub struct EmuDevEntry {
    pub emu_type: EmuDeviceType,
    pub id: usize,
    pub ipa: usize,
    pub size: usize,
}

/// Emulated-device instances, indexed by device id. Only the virtio
/// block device carries state; other device kinds are stubs.
#[derive(Clone, Copy)]
pub enum EmuDevs {
    VirtioBlk(VirtioMmio),
    Absent,
}

/// `addr` lies in the range of `size` bytes starting at `base`.
pub open spec fn spec_range_contains(base: usize, size: usize, addr: usize) -> bool {
    base <= addr < base + size
}

/// The two ranges share at least one address (for non-empty ranges).
pub open spec fn spec_ranges_overlap(b1: usize, s1: usize, b2: usize, s2: usize) -> bool {
    b1 < b2 + s2 && b2 < b1 + s1
}

/// A registered range is non-empty and stays within the address space.
pub open spec fn spec_entry_valid(e: EmuDevEntry) -> bool {
    1 <= e.size && e.ipa + e.size <= usize::MAX
}

/// The emulated-MMIO registry: a flat table of registered ranges. A flat
/// scan suffices because at most `EMU_DEV_NUM_MAX` devices exist and
/// registration happens only during guest setup.
pub struct EmuDevTable {
    entries: Vec<EmuDevEntry>,
}

impl View for EmuDevTable {
    type V = Seq<EmuDevEntry>;

    closed spec fn view(&self) -> Seq<EmuDevEntry> {
        self.entries@
    }
}

impl EmuDevTable {
    /// Every entry is valid and no two registered ranges overlap.
    pub open spec fn wf(&self) -> bool {
        &&& self@.len() <= EMU_DEV_NUM_MAX
        &&& forall|k: int| 0 <= k < self@.len() ==> spec_entry_valid(#[trigger] self@[k])
        &&& forall|k1: int, k2: int|
            0 <= k1 < k2 < self@.len() ==> !spec_ranges_overlap(
                self@[k1].ipa,
                self@[k1].size,
                self@[k2].ipa,
                self@[k2].size,
            )
    }

    /// An empty registry.
    pub fn new() -> (t: EmuDevTable)
        ensures
            t.wf(),
            t@ == Seq::<EmuDevEntry>::empty(),
    {
        EmuDevTable { entries: Vec::new() }
    }

    /// Number of registered devices.
    pub fn len(&self) -> (n: usize)
        ensures
            n == self@.len(),
    {
        self.entries.len()
    }

    /// The `k`-th registered entry.
    pub fn entry(&self, k: usize) -> (e: EmuDevEntry)
        requires
            k < self@.len(),
        ensures
            e == self@[k as int],
    {
        self.entries[k]
    }
}

/// A device-emulation back end: once dispatch has located the entry whose
/// range contains a trapped address, the access is handed to the back end
/// together with that entry's device id.
///
/// The hosting kernel supplies the implementation; `spec_handle` is the
/// implementation's own description of the result it computes.
pub trait EmuDevHandler {
    /// The result the back end computes for device `id` and access `ctx`.
    spec fn spec_handle(&self, id: usize, ctx: EmuContext) -> bool;

    /// Emulates one trapped access against device `id`.
    fn handle(&mut self, id: usize, ctx: &EmuContext) -> (r: bool)
        ensures
            r == old(self).spec_handle(id, *ctx);
}

/// Registers an emulated device covering `size` bytes at guest-physical
/// address `address`.
///
/// Registration fails — leaving the table unchanged — when the table is
/// full or when the new range overlaps a registered one in either
/// direction. Such a failure indicates a configuration defect; the
/// embedding terminates on it, as nothing at runtime can recover a
/// misconfigured address map.
pub fn emu_register_dev(
    table: &mut EmuDevTable,
    emu_type: EmuDeviceType,
    dev_id: usize,
    address: usize,
    size: usize,
) -> (r: bool)
    requires
        old(table).wf(),
        1 <= size,
        address + size <= usize::MAX,
    ensures
        final(table).wf(),
        r == (old(table)@.len() < EMU_DEV_NUM_MAX && (forall|k: int|
            0 <= k < old(table)@.len() ==> !spec_ranges_overlap(
                (#[trigger] old(table)@[k]).ipa,
                old(table)@[k].size,
                address,
                size,
            ))),
        r ==> final(table)@ == old(table)@.push(
            EmuDevEntry { emu_type, id: dev_id, ipa: address, size },
        ),
        !r ==> final(table)@ == old(table)@,
{
    let n = table.entries.len();
    if n >= EMU_DEV_NUM_MAX {
        return false;
    }
    let mut k: usize = 0;
    while k < n
        invariant
            k <= n,
            n == table@.len(),
            table.wf(),
            1 <= size,
            address + size <= usize::MAX,
            forall|j: int|
                0 <= j < k ==> !spec_ranges_overlap(
                    (#[trigger] table@[j]).ipa,
                    table@[j].size,
                    address,
                    size,
                ),
        decreases n - k,
    {
        let e = table.entries[k];
        if address < e.ipa + e.size && e.ipa < address + size {
            return false;
        }
        k += 1;
    }
    table.entries.push(EmuDevEntry { emu_type, id: dev_id, ipa: address, size });
    true
}

/// Locates the registered device whose range contains `addr`: the
/// dispatch lookup, separated out so that a caller holding a lock on the
/// table can release it before the located device's back end runs.
/// Because registered ranges never overlap, at most one entry can
/// contain the address.
pub fn emu_find_dev(table: &EmuDevTable, addr: usize) -> (r: Option<EmuDevEntry>)
    requires
        table.wf(),
    ensures
        forall|k: int|
            0 <= k < table@.len() && spec_range_contains(
                (#[trigger] table@[k]).ipa,
                table@[k].size,
                addr,
            ) ==> r == Some(table@[k]),
        (forall|k: int|
            0 <= k < table@.len() ==> !spec_range_contains(
                (#[trigger] table@[k]).ipa,
                table@[k].size,
                addr,
            )) ==> r is None,
        r matches Some(e) ==> spec_range_contains(e.ipa, e.size, addr),
{
    let n = table.len();
    let mut k: usize = 0;
    while k < n
        invariant
            k <= n,
            n == table@.len(),
            table.wf(),
            forall|j: int|
                0 <= j < k ==> !spec_range_contains(
                    (#[trigger] table@[j]).ipa,
                    table@[j].size,
                    addr,
                ),
        decreases n - k,
    {
        let e = table.entry(k);
        if e.ipa <= addr && addr < e.ipa + e.size {
            proof {
                assert forall|j: int|
                    0 <= j < table@.len() && spec_range_contains(
                        (#[trigger] table@[j]).ipa,
                        table@[j].size,
                        addr,
                    ) implies j == k as int by {
                    if j < k as int {
                        assert(spec_ranges_overlap(
                            table@[j].ipa,
                            table@[j].size,
                            table@[k as int].ipa,
                            table@[k as int].size,
                        ));
                    } else if j > k as int {
                        assert(spec_ranges_overlap(
                            table@[k as int].ipa,
                            table@[k as int].size,
                            table@[j].ipa,
                            table@[j].size,
                        ));
                    }
                }
            }
            return Some(e);
        }
        k += 1;
    }
    None
}

/// Dispatches one trapped access: the entry whose registered range
/// contains the faulting address has the back end invoked with its device
/// id; an address inside no registered range fails without touching the
/// back end.
pub fn emu_handler<H: EmuDevHandler>(
    emu_ctx: &EmuContext,
    table: &EmuDevTable,
    devs: &mut H,
) -> (r: bool)
    requires
        table.wf(),
    ensures
        (forall|k: int|
            0 <= k < table@.len() ==> !spec_range_contains(
                (#[trigger] table@[k]).ipa,
                table@[k].size,
                emu_ctx.address,
            )) ==> (r == false && *final(devs) == *old(devs)),
        forall|k: int|
            0 <= k < table@.len() && spec_range_contains(
                (#[trigger] table@[k]).ipa,
                table@[k].size,
                emu_ctx.address,
            ) ==> r == old(devs).spec_handle(table@[k].id, *emu_ctx),
{
    match emu_find_dev(table, emu_ctx.address) {
        Some(e) => devs.handle(e.id, emu_ctx),
        None => false,
    }
}

} // verus!
