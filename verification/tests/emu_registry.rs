use hypercraft::emu::EmuContext;
use hypercraft::emu::EmuDevHandler;
use hypercraft::emu::EmuDevTable;
use hypercraft::emu::EmuDeviceType;
use hypercraft::emu::emu_find_dev;
use hypercraft::emu::emu_handler;
use hypercraft::emu::emu_register_dev;

struct RecordingHandler {
    calls: Vec<(usize, usize)>,
    answer: bool,
}

impl EmuDevHandler for RecordingHandler {
    fn spec_handle(&self, _id: usize, _ctx: EmuContext) -> bool {
        self.answer
    }

    fn handle(&mut self, id: usize, ctx: &EmuContext) -> bool {
        self.calls.push((id, ctx.address));
        self.answer
    }
}

fn ctx_at(address: usize) -> EmuContext {
    EmuContext { address, width: 4, write: false, sign_ext: false, reg: 10, reg_width: 8 }
}

#[test]
fn register_disjoint_ranges() {
    let mut t = EmuDevTable::new();
    assert!(emu_register_dev(&mut t, EmuDeviceType::EmuDeviceTVirtioBlk, 0, 0xa00_4000, 0x1000));
    // An exactly adjacent range does not overlap.
    assert!(emu_register_dev(&mut t, EmuDeviceType::EmuDeviceTVirtioBlk, 1, 0xa00_5000, 0x1000));
    assert_eq!(t.len(), 2);
}

#[test]
fn register_overlap_fails_both_directions() {
    let mut t = EmuDevTable::new();
    assert!(emu_register_dev(&mut t, EmuDeviceType::EmuDeviceTVirtioBlk, 0, 0x1000, 0x100));
    // New range starts inside a registered one.
    assert!(!emu_register_dev(&mut t, EmuDeviceType::EmuDeviceTVirtioBlk, 1, 0x10ff, 0x100));
    // Registered range starts inside the new one.
    assert!(!emu_register_dev(&mut t, EmuDeviceType::EmuDeviceTVirtioBlk, 1, 0x0f01, 0x100));
    // Identical range.
    assert!(!emu_register_dev(&mut t, EmuDeviceType::EmuDeviceTVirtioBlk, 1, 0x1000, 0x100));
    assert_eq!(t.len(), 1);
}

#[test]
fn register_full_table_fails() {
    let mut t = EmuDevTable::new();
    for i in 0..32 {
        assert!(emu_register_dev(
            &mut t,
            EmuDeviceType::EmuDeviceTVirtioBlk,
            i,
            0x1000 * (i + 1),
            0x1000
        ));
    }
    assert_eq!(t.len(), 32);
    // A 33rd device does not fit, even on a free range.
    assert!(!emu_register_dev(&mut t, EmuDeviceType::EmuDeviceTVirtioBlk, 32, 0x10_0000, 0x1000));
    assert_eq!(t.len(), 32);
}

#[test]
fn dispatch_hits_owning_device() {
    let mut t = EmuDevTable::new();
    assert!(emu_register_dev(&mut t, EmuDeviceType::EmuDeviceTVirtioBlk, 4, 0x1000, 0x100));
    assert!(emu_register_dev(&mut t, EmuDeviceType::EmuDeviceTVirtioNet, 9, 0x2000, 0x100));
    let mut h = RecordingHandler { calls: Vec::new(), answer: true };
    assert!(emu_handler(&ctx_at(0x2080), &t, &mut h));
    assert_eq!(h.calls, vec![(9, 0x2080)]);
    assert!(emu_handler(&ctx_at(0x1000), &t, &mut h));
    assert_eq!(h.calls, vec![(9, 0x2080), (4, 0x1000)]);
}

#[test]
fn dispatch_returns_handler_result() {
    let mut t = EmuDevTable::new();
    assert!(emu_register_dev(&mut t, EmuDeviceType::EmuDeviceTVirtioBlk, 0, 0x1000, 0x100));
    let mut h = RecordingHandler { calls: Vec::new(), answer: false };
    assert!(!emu_handler(&ctx_at(0x1040), &t, &mut h));
    assert_eq!(h.calls.len(), 1);
}

#[test]
fn dispatch_outside_all_ranges_fails_untouched() {
    let mut t = EmuDevTable::new();
    assert!(emu_register_dev(&mut t, EmuDeviceType::EmuDeviceTVirtioBlk, 0, 0x1000, 0x100));
    let mut h = RecordingHandler { calls: Vec::new(), answer: true };
    // One past the end of the range.
    assert!(!emu_handler(&ctx_at(0x1100), &t, &mut h));
    // Far away.
    assert!(!emu_handler(&ctx_at(0x9000), &t, &mut h));
    assert!(h.calls.is_empty());
}

#[test]
fn find_dev_locates_owning_entry() {
    let mut t = EmuDevTable::new();
    assert!(emu_register_dev(&mut t, EmuDeviceType::EmuDeviceTVirtioBlk, 4, 0x1000, 0x100));
    assert!(emu_register_dev(&mut t, EmuDeviceType::EmuDeviceTVirtioNet, 9, 0x2000, 0x100));
    let e = emu_find_dev(&t, 0x10ff).expect("range owns the address");
    assert_eq!((e.id, e.ipa, e.size), (4, 0x1000, 0x100));
    assert_eq!(e.emu_type, EmuDeviceType::EmuDeviceTVirtioBlk);
    assert!(emu_find_dev(&t, 0x1100).is_none());
    assert!(emu_find_dev(&t, 0x0fff).is_none());
}
