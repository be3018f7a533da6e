//! Guest-execution core of a bare-metal RISC-V hypervisor.
//!
//! The crate models and verifies the three protocol-critical pieces of the
//! hypervisor: the vCPU register/state layout shared with the privileged
//! context-switch routine, the emulated-MMIO dispatch registry, and the
//! virtio block device with its split-virtqueue draining protocol.
//!
//! Hardware access (CSR reads, the context-switch routine itself), locking
//! and guest page-table management live outside this crate; the functions
//! here take and return the plain values those collaborators produce.
pub mod blk;
pub mod dev;
pub mod emu;
pub mod guest_mem;
pub mod queue;
pub mod regs;
pub mod vcpu;
