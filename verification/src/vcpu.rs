//! Virtual-CPU state: the registers that cross the hypervisor/guest
//! boundary, their fixed byte layout, and the trap-capture step of the run
//! loop.
//!
//! The byte offsets published here are a contract with the privileged
//! context-switch routine, which addresses the saved state by constant
//! offsets: all sections are sequences of eight-byte words, so the layout
//! is fully determined by field order. The embedding that runs the switch
//! routine keeps a machine-level mirror of these structures and checks its
//! offsets against the constants below at build time.
use std::sync::Arc;
use vstd::prelude::*;

use crate::regs::GeneralPurposeRegisters;
use crate::regs::GprIndex;

verus! {

/// Bytes taken by the 32 general-purpose register slots.
pub const GPRS_BYTES: usize = 32 * 8;

/// Offset of the hypervisor-side state within the register block.
pub const HYP_REGS_OFFSET: usize = 0;

/// Offset of the guest-side state: the hypervisor section holds the
/// register file plus five control registers.
pub const GUEST_REGS_OFFSET: usize = GPRS_BYTES + 5 * 8;

/// Offset of the VS-level control state: the guest section holds the
/// register file plus four control registers.
pub const VS_CSRS_OFFSET: usize = GUEST_REGS_OFFSET + GPRS_BYTES + 4 * 8;

/// Offset of the virtualized HS-level state: ten VS-level words precede it.
pub const VIRTUAL_HS_CSRS_OFFSET: usize = VS_CSRS_OFFSET + 10 * 8;

/// Offset of the trap-cause state: three virtualized HS-level words
/// precede it.
pub const TRAP_CSRS_OFFSET: usize = VIRTUAL_HS_CSRS_OFFSET + 3 * 8;

/// Total size of the register block.
pub const VM_CPU_REGS_BYTES: usize = TRAP_CSRS_OFFSET + 4 * 8;

/// Offsets of the five hypervisor-side control registers that follow the
/// hypervisor register file.
pub const HYP_SSTATUS_OFFSET: usize = HYP_REGS_OFFSET + GPRS_BYTES;

/// Offset of the saved hypervisor `hstatus`.
pub const HYP_HSTATUS_OFFSET: usize = HYP_SSTATUS_OFFSET + 8;

/// Offset of the saved hypervisor `scounteren`.
pub const HYP_SCOUNTEREN_OFFSET: usize = HYP_HSTATUS_OFFSET + 8;

/// Offset of the saved hypervisor `stvec`.
pub const HYP_STVEC_OFFSET: usize = HYP_SCOUNTEREN_OFFSET + 8;

/// Offset of the saved hypervisor `sscratch`.
pub const HYP_SSCRATCH_OFFSET: usize = HYP_STVEC_OFFSET + 8;

/// Offsets of the four guest-side control registers that follow the
/// guest register file.
pub const GUEST_SSTATUS_OFFSET: usize = GUEST_REGS_OFFSET + GPRS_BYTES;

/// Offset of the guest's shadow `hstatus`.
pub const GUEST_HSTATUS_OFFSET: usize = GUEST_SSTATUS_OFFSET + 8;

/// Offset of the guest's shadow `scounteren`.
pub const GUEST_SCOUNTEREN_OFFSET: usize = GUEST_HSTATUS_OFFSET + 8;

/// Offset of the guest's saved program counter.
pub const GUEST_SEPC_OFFSET: usize = GUEST_SCOUNTEREN_OFFSET + 8;

/// "Supervisor previous virtualization mode" bit of the hypervisor status
/// register: set so that returning from the trap handler enters the guest
/// in virtualization mode.
pub const HSTATUS_SPV: u64 = 0x80;

/// "Supervisor previous privilege" bit of the supervisor status register:
/// set so that the guest starts at supervisor privilege, not user.
pub const SSTATUS_SPP: u64 = 0x100;

/// Hypervisor GPR and CSR state, saved on guest entry and restored on
/// guest exit.
pub struct HypervisorCpuState {
    pub gprs: GeneralPurposeRegisters,
    pub sstatus: u64,
    pub hstatus: u64,
    pub scounteren: u64,
    pub stvec: u64,
    pub sscratch: u64,
}

/// Guest GPR and CSR state, restored on guest entry and saved on guest
/// exit.
pub struct GuestCpuState {
    pub gprs: GeneralPurposeRegisters,
    pub sstatus: u64,
    pub hstatus: u64,
    pub scounteren: u64,
    pub sepc: u64,
}

/// The CSRs that are only in effect while virtualization is enabled;
/// saved and restored when the vCPU is activated or deactivated.
pub struct GuestVsCsrs {
    pub htimedelta: u64,
    pub vsstatus: u64,
    pub vsie: u64,
    pub vstvec: u64,
    pub vsscratch: u64,
    pub vsepc: u64,
    pub vscause: u64,
    pub vstval: u64,
    pub vsatp: u64,
    pub vstimecmp: u64,
}

/// Virtualized HS-level CSRs used to emulate part of the hypervisor
/// extension for the guest itself.
pub struct GuestVirtualHsCsrs {
    pub hie: u64,
    pub hgeie: u64,
    pub hgatp: u64,
}

/// The CSRs written by hardware on an exit from virtualization; valid
/// only between that exit and the next guest entry.
#[derive(Clone, Copy)]
pub struct VmCpuTrapState {
    pub scause: u64,
    pub stval: u64,
    pub htval: u64,
    pub htinst: u64,
}

/// Everything saved or restored when entering or exiting a guest, or when
/// switching between guests.
pub struct VmCpuRegisters {
    pub hyp_regs: HypervisorCpuState,
    pub guest_regs: GuestCpuState,
    pub vs_csrs: GuestVsCsrs,
    pub virtual_hs_csrs: GuestVirtualHsCsrs,
    pub trap_csrs: VmCpuTrapState,
}

/// The guest a vCPU belongs to. Construction and teardown of guests and
/// of their page tables happen outside this crate; only a shared handle
/// is held here.
pub struct Guest {
    pub id: usize,
}

/// One guest virtual processor core.
pub struct VCpu {
    pub regs: VmCpuRegisters,
    pub guest: Arc<Guest>,
}

/// Byte offset of a hypervisor-side general-purpose register slot.
pub open spec fn spec_hyp_gpr_offset(index: GprIndex) -> int {
    HYP_REGS_OFFSET + index.spec_raw_index() * 8
}

/// Byte offset of a guest-side general-purpose register slot.
pub open spec fn spec_guest_gpr_offset(index: GprIndex) -> int {
    GUEST_REGS_OFFSET + index.spec_raw_index() * 8
}

/// Byte offset of a hypervisor-side register slot, as used by the
/// context-switch routine.
pub fn hyp_gpr_offset(index: GprIndex) -> (r: usize)
    ensures
        r == spec_hyp_gpr_offset(index),
{
    HYP_REGS_OFFSET + index.raw_index() * 8
}

/// Byte offset of a guest-side register slot, as used by the
/// context-switch routine.
pub fn guest_gpr_offset(index: GprIndex) -> (r: usize)
    ensures
        r == spec_guest_gpr_offset(index),
{
    GUEST_REGS_OFFSET + index.raw_index() * 8
}

/// Register numbers lie in the 32-slot register file.
pub proof fn lemma_raw_index_bounds(i: GprIndex)
    ensures
        0 <= i.spec_raw_index() < 32,
{
}

/// Distinct register names carry distinct architectural numbers.
pub proof fn lemma_raw_index_injective(i: GprIndex, j: GprIndex)
    ensures
        i != j ==> i.spec_raw_index() != j.spec_raw_index(),
{
}

/// Law: within each state section, register-slot offsets are eight-byte
/// aligned, pairwise distinct, and strictly increasing with the
/// architectural register number; and no hypervisor-side slot shares an
/// offset with a guest-side slot.
pub proof fn lemma_gpr_offsets(i: GprIndex, j: GprIndex)
    ensures
        spec_hyp_gpr_offset(i) % 8 == 0,
        spec_guest_gpr_offset(i) % 8 == 0,
        i != j ==> spec_hyp_gpr_offset(i) != spec_hyp_gpr_offset(j),
        i != j ==> spec_guest_gpr_offset(i) != spec_guest_gpr_offset(j),
        i.spec_raw_index() < j.spec_raw_index() ==> spec_hyp_gpr_offset(i) < spec_hyp_gpr_offset(
            j,
        ),
        i.spec_raw_index() < j.spec_raw_index() ==> spec_guest_gpr_offset(i)
            < spec_guest_gpr_offset(j),
        spec_hyp_gpr_offset(i) != spec_guest_gpr_offset(j),
{
    lemma_raw_index_bounds(i);
    lemma_raw_index_bounds(j);
    lemma_raw_index_injective(i, j);
}

impl HypervisorCpuState {
    /// All registers of the section are zero.
    pub open spec fn spec_zeroed(self) -> bool {
        &&& forall|i: int| 0 <= i < 32 ==> self.gprs.0@[i] == 0
        &&& self.sstatus == 0
        &&& self.hstatus == 0
        &&& self.scounteren == 0
        &&& self.stvec == 0
        &&& self.sscratch == 0
    }
}

impl GuestVsCsrs {
    /// All registers of the section are zero.
    pub open spec fn spec_zeroed(self) -> bool {
        &&& self.htimedelta == 0
        &&& self.vsstatus == 0
        &&& self.vsie == 0
        &&& self.vstvec == 0
        &&& self.vsscratch == 0
        &&& self.vsepc == 0
        &&& self.vscause == 0
        &&& self.vstval == 0
        &&& self.vsatp == 0
        &&& self.vstimecmp == 0
    }
}

impl GuestVirtualHsCsrs {
    /// All registers of the section are zero.
    pub open spec fn spec_zeroed(self) -> bool {
        self.hie == 0 && self.hgeie == 0 && self.hgatp == 0
    }
}

impl VmCpuTrapState {
    /// All registers of the section are zero.
    pub open spec fn spec_zeroed(self) -> bool {
        self.scause == 0 && self.stval == 0 && self.htval == 0 && self.htinst == 0
    }
}

impl VCpu {
    /// Creates a vCPU for `guest`: the whole register block is zeroed,
    /// then exactly two guest-side status bits are set, so that the first
    /// entry lands in virtualization mode (`hstatus.SPV`) at supervisor
    /// privilege (`sstatus.SPP`).
    pub fn create(
        _entry: usize,
        _sp: usize,
        _hgatp: usize,
        _kernel_sp: usize,
        _trap_handler: usize,
        guest: Arc<Guest>,
    ) -> (v: VCpu)
        ensures
            v.regs.hyp_regs.spec_zeroed(),
            v.regs.vs_csrs.spec_zeroed(),
            v.regs.virtual_hs_csrs.spec_zeroed(),
            v.regs.trap_csrs.spec_zeroed(),
            forall|i: int| 0 <= i < 32 ==> v.regs.guest_regs.gprs.0@[i] == 0,
            v.regs.guest_regs.hstatus == HSTATUS_SPV,
            v.regs.guest_regs.sstatus == SSTATUS_SPP,
            v.regs.guest_regs.scounteren == 0,
            v.regs.guest_regs.sepc == 0,
            v.guest == guest,
    {
        let regs = VmCpuRegisters {
            hyp_regs: HypervisorCpuState {
                gprs: GeneralPurposeRegisters::zeroed(),
                sstatus: 0,
                hstatus: 0,
                scounteren: 0,
                stvec: 0,
                sscratch: 0,
            },
            guest_regs: GuestCpuState {
                gprs: GeneralPurposeRegisters::zeroed(),
                sstatus: SSTATUS_SPP,
                hstatus: HSTATUS_SPV,
                scounteren: 0,
                sepc: 0,
            },
            vs_csrs: GuestVsCsrs {
                htimedelta: 0,
                vsstatus: 0,
                vsie: 0,
                vstvec: 0,
                vsscratch: 0,
                vsepc: 0,
                vscause: 0,
                vstval: 0,
                vsatp: 0,
                vstimecmp: 0,
            },
            virtual_hs_csrs: GuestVirtualHsCsrs { hie: 0, hgeie: 0, hgatp: 0 },
            trap_csrs: VmCpuTrapState { scause: 0, stval: 0, htval: 0, htinst: 0 },
        };
        VCpu { regs, guest }
    }

    /// Records the four trap-cause registers read from hardware right
    /// after the context-switch routine returned; everything else in the
    /// vCPU is untouched. The embedding's run loop performs this step once
    /// per guest exit, before handing the vCPU to the exit handler.
    pub fn set_trap_csrs(&mut self, scause: u64, stval: u64, htval: u64, htinst: u64)
        ensures
            final(self).regs.trap_csrs == (VmCpuTrapState { scause, stval, htval, htinst }),
            final(self).regs.hyp_regs == old(self).regs.hyp_regs,
            final(self).regs.guest_regs == old(self).regs.guest_regs,
            final(self).regs.vs_csrs == old(self).regs.vs_csrs,
            final(self).regs.virtual_hs_csrs == old(self).regs.virtual_hs_csrs,
            final(self).guest == old(self).guest,
    {
        self.regs.trap_csrs = VmCpuTrapState { scause, stval, htval, htinst };
    }

    /// Value of a guest general-purpose register, for the exit handler.
    pub fn gpr(&self, index: GprIndex) -> (r: u64)
        ensures
            r == self.regs.guest_regs.gprs.0@[index.spec_raw_index()],
    {
        self.regs.guest_regs.gprs.reg(index)
    }

    /// Writes a guest general-purpose register, for the exit handler;
    /// writes to the zero register are dropped.
    pub fn set_gpr(&mut self, index: GprIndex, value: u64)
        ensures
            index != GprIndex::Zero ==> final(self).regs.guest_regs.gprs.0@ == old(
                self,
            ).regs.guest_regs.gprs.0@.update(index.spec_raw_index(), value),
            index == GprIndex::Zero ==> final(self).regs.guest_regs.gprs.0@ == old(
                self,
            ).regs.guest_regs.gprs.0@,
            final(self).regs.guest_regs.sstatus == old(self).regs.guest_regs.sstatus,
            final(self).regs.guest_regs.hstatus == old(self).regs.guest_regs.hstatus,
            final(self).regs.guest_regs.scounteren == old(self).regs.guest_regs.scounteren,
            final(self).regs.guest_regs.sepc == old(self).regs.guest_regs.sepc,
            final(self).regs.hyp_regs == old(self).regs.hyp_regs,
            final(self).regs.vs_csrs == old(self).regs.vs_csrs,
            final(self).regs.virtual_hs_csrs == old(self).regs.virtual_hs_csrs,
            final(self).regs.trap_csrs == old(self).regs.trap_csrs,
            final(self).guest == old(self).guest,
    {
        self.regs.guest_regs.gprs.set_reg(index, value);
    }
}

} // verus!
