use hypercraft::regs::GprIndex;
use hypercraft::vcpu::GUEST_REGS_OFFSET;
use hypercraft::vcpu::Guest;
use hypercraft::vcpu::HSTATUS_SPV;
use hypercraft::vcpu::SSTATUS_SPP;
use hypercraft::vcpu::VCpu;
use hypercraft::vcpu::guest_gpr_offset;
use hypercraft::vcpu::hyp_gpr_offset;
use std::sync::Arc;

fn all_gprs() -> Vec<GprIndex> {
    vec![
        GprIndex::Zero,
        GprIndex::RA,
        GprIndex::SP,
        GprIndex::GP,
        GprIndex::TP,
        GprIndex::T0,
        GprIndex::T1,
        GprIndex::T2,
        GprIndex::S0,
        GprIndex::S1,
        GprIndex::A0,
        GprIndex::A1,
        GprIndex::A2,
        GprIndex::A3,
        GprIndex::A4,
        GprIndex::A5,
        GprIndex::A6,
        GprIndex::A7,
        GprIndex::S2,
        GprIndex::S3,
        GprIndex::S4,
        GprIndex::S5,
        GprIndex::S6,
        GprIndex::S7,
        GprIndex::S8,
        GprIndex::S9,
        GprIndex::S10,
        GprIndex::S11,
        GprIndex::T3,
        GprIndex::T4,
        GprIndex::T5,
        GprIndex::T6,
    ]
}

#[test]
fn gpr_offsets_aligned_increasing_unique() {
    let gprs = all_gprs();
    let mut seen = Vec::new();
    let mut prev_hyp = None;
    let mut prev_guest = None;
    for &g in &gprs {
        let h = hyp_gpr_offset(g);
        let u = guest_gpr_offset(g);
        assert_eq!(h % 8, 0);
        assert_eq!(u % 8, 0);
        if let Some(p) = prev_hyp {
            assert!(h > p);
        }
        if let Some(p) = prev_guest {
            assert!(u > p);
        }
        assert!(!seen.contains(&h));
        assert!(!seen.contains(&u));
        seen.push(h);
        seen.push(u);
        prev_hyp = Some(h);
        prev_guest = Some(u);
    }
}

#[test]
fn gpr_offset_values() {
    assert_eq!(hyp_gpr_offset(GprIndex::Zero), 0);
    assert_eq!(hyp_gpr_offset(GprIndex::RA), 8);
    assert_eq!(hyp_gpr_offset(GprIndex::T6), 248);
    assert_eq!(GUEST_REGS_OFFSET, 296);
    assert_eq!(guest_gpr_offset(GprIndex::Zero), 296);
    assert_eq!(guest_gpr_offset(GprIndex::A0), 296 + 80);
}

#[test]
fn vcpu_create_sets_exactly_the_guest_mode_bits() {
    let guest = Arc::new(Guest { id: 7 });
    let v = VCpu::create(0, 0, 0, 0, 0, guest);
    assert_eq!(v.regs.guest_regs.hstatus, HSTATUS_SPV);
    assert_eq!(v.regs.guest_regs.sstatus, SSTATUS_SPP);
    assert_eq!(v.regs.guest_regs.scounteren, 0);
    assert_eq!(v.regs.guest_regs.sepc, 0);
    assert_eq!(v.regs.hyp_regs.sstatus, 0);
    assert_eq!(v.regs.hyp_regs.hstatus, 0);
    assert_eq!(v.regs.trap_csrs.scause, 0);
    assert_eq!(v.regs.vs_csrs.vsatp, 0);
    assert_eq!(v.guest.id, 7);
}

#[test]
fn vcpu_trap_csrs_recorded() {
    let guest = Arc::new(Guest { id: 0 });
    let mut v = VCpu::create(0, 0, 0, 0, 0, guest);
    v.set_trap_csrs(23, 0x9000_0000, 0x2400_0000, 0x3020_3003);
    assert_eq!(v.regs.trap_csrs.scause, 23);
    assert_eq!(v.regs.trap_csrs.stval, 0x9000_0000);
    assert_eq!(v.regs.trap_csrs.htval, 0x2400_0000);
    assert_eq!(v.regs.trap_csrs.htinst, 0x3020_3003);
    assert_eq!(v.regs.guest_regs.hstatus, HSTATUS_SPV);
}

#[test]
fn vcpu_gpr_read_write() {
    let guest = Arc::new(Guest { id: 0 });
    let mut v = VCpu::create(0, 0, 0, 0, 0, guest);
    assert_eq!(v.gpr(GprIndex::A0), 0);
    v.set_gpr(GprIndex::A0, 0xdead_beef);
    assert_eq!(v.gpr(GprIndex::A0), 0xdead_beef);
    v.set_gpr(GprIndex::Zero, 5);
    assert_eq!(v.gpr(GprIndex::Zero), 0);
}
