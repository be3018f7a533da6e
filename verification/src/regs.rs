//! General-purpose register file of one guest or hypervisor context.
use vstd::prelude::*;

verus! {

/// The 32 architectural general-purpose register slots, by name.
///
/// Index 0 is the hard-wired zero register: it is kept in the layout so
/// that a slot's byte offset is its architectural number times eight, but
/// it is never written. The enumeration is used only to compute offsets
/// into the saved-state layout, never as a runtime value.
#[derive(Clone, Copy, Debug, PartialEq, Eq, Structural)]
pub enum GprIndex {
    Zero,
    RA,
    SP,
    GP,
    TP,
    T0,
    T1,
    T2,
    S0,
    S1,
    A0,
    A1,
    A2,
    A3,
    A4,
    A5,
    A6,
    A7,
    S2,
    S3,
    S4,
    S5,
    S6,
    S7,
    S8,
    S9,
    S10,
    S11,
    T3,
    T4,
    T5,
    T6,
}

impl GprIndex {
    /// Architectural register number of this slot.
    pub open spec fn spec_raw_index(self) -> int {
        match self {
            GprIndex::Zero => 0,
            GprIndex::RA => 1,
            GprIndex::SP => 2,
            GprIndex::GP => 3,
            GprIndex::TP => 4,
            GprIndex::T0 => 5,
            GprIndex::T1 => 6,
            GprIndex::T2 => 7,
            GprIndex::S0 => 8,
            GprIndex::S1 => 9,
            GprIndex::A0 => 10,
            GprIndex::A1 => 11,
            GprIndex::A2 => 12,
            GprIndex::A3 => 13,
            GprIndex::A4 => 14,
            GprIndex::A5 => 15,
            GprIndex::A6 => 16,
            GprIndex::A7 => 17,
            GprIndex::S2 => 18,
            GprIndex::S3 => 19,
            GprIndex::S4 => 20,
            GprIndex::S5 => 21,
            GprIndex::S6 => 22,
            GprIndex::S7 => 23,
            GprIndex::S8 => 24,
            GprIndex::S9 => 25,
            GprIndex::S10 => 26,
            GprIndex::S11 => 27,
            GprIndex::T3 => 28,
            GprIndex::T4 => 29,
            GprIndex::T5 => 30,
            GprIndex::T6 => 31,
        }
    }

    /// Architectural register number, as executable code.
    pub fn raw_index(self) -> (r: usize)
        ensures
            r == self.spec_raw_index(),
            r < 32,
    {
        match self {
            GprIndex::Zero => 0,
            GprIndex::RA => 1,
            GprIndex::SP => 2,
            GprIndex::GP => 3,
            GprIndex::TP => 4,
            GprIndex::T0 => 5,
            GprIndex::T1 => 6,
            GprIndex::T2 => 7,
            GprIndex::S0 => 8,
            GprIndex::S1 => 9,
            GprIndex::A0 => 10,
            GprIndex::A1 => 11,
            GprIndex::A2 => 12,
            GprIndex::A3 => 13,
            GprIndex::A4 => 14,
            GprIndex::A5 => 15,
            GprIndex::A6 => 16,
            GprIndex::A7 => 17,
            GprIndex::S2 => 18,
            GprIndex::S3 => 19,
            GprIndex::S4 => 20,
            GprIndex::S5 => 21,
            GprIndex::S6 => 22,
            GprIndex::S7 => 23,
            GprIndex::S8 => 24,
            GprIndex::S9 => 25,
            GprIndex::S10 => 26,
            GprIndex::S11 => 27,
            GprIndex::T3 => 28,
            GprIndex::T4 => 29,
            GprIndex::T5 => 30,
            GprIndex::T6 => 31,
        }
    }
}

/// The saved image of the 32 general-purpose register slots.
#[derive(Clone, Copy)]
pub struct GeneralPurposeRegisters(pub [u64; 32]);

impl GeneralPurposeRegisters {
    /// All slots zero.
    pub fn zeroed() -> (r: GeneralPurposeRegisters)
        ensures
            forall|i: int| 0 <= i < 32 ==> r.0@[i] == 0,
    {
        GeneralPurposeRegisters([0u64; 32])
    }

    /// Value saved in the given slot.
    pub fn reg(&self, index: GprIndex) -> (r: u64)
        ensures
            r == self.0@[index.spec_raw_index()],
    {
        self.0[index.raw_index()]
    }

    /// Writes a slot; a write to the hard-wired zero register is dropped.
    pub fn set_reg(&mut self, index: GprIndex, value: u64)
        ensures
            index != GprIndex::Zero ==> final(self).0@ == old(self).0@.update(
                index.spec_raw_index(),
                value,
            ),
            index == GprIndex::Zero ==> final(self).0@ == old(self).0@,
    {
        if let GprIndex::Zero = index {
            return ;
        }
        self.0[index.raw_index()] = value;
    }
}

} // verus!
