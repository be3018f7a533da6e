use hypercraft::guest_mem::GuestMem;
use hypercraft::queue::VIRTQ_DESC_F_NEXT;
use hypercraft::queue::VIRTQ_DESC_F_WRITE;
use hypercraft::queue::Virtq;

#[test]
fn new_queue_is_idle() {
    let q = Virtq::new(8);
    assert!(!q.ready());
    assert_eq!(q.size(), 8);
    assert_eq!(q.avail_idx(), 0);
    assert_eq!(q.used_len(), 0);
    assert!(q.notify_enabled());
}

#[test]
fn descriptor_accessors() {
    let mut q = Virtq::new(4);
    assert!(q.set_desc(1, 0x1000, 64, VIRTQ_DESC_F_NEXT | VIRTQ_DESC_F_WRITE, 2));
    assert!(q.desc_has_next(1));
    assert!(q.desc_is_writable(1));
    assert_eq!(q.desc_addr(1), 0x1000);
    assert_eq!(q.desc_len(1), 64);
    assert_eq!(q.desc_flags(1), 3);
    assert_eq!(q.desc_next(1), 2);
    assert!(!q.desc_has_next(0));
    assert!(!q.set_desc(4, 0, 0, 0, 0));
}

#[test]
fn push_avail_checks_head() {
    let mut q = Virtq::new(4);
    assert!(q.push_avail(3));
    assert!(!q.push_avail(4));
    assert_eq!(q.avail_idx(), 1);
}

#[test]
fn pop_respects_snapshot() {
    let mut q = Virtq::new(8);
    assert!(q.push_avail(5));
    assert!(q.push_avail(6));
    // A snapshot taken when only the first chain was published never
    // yields the one published after it.
    let stale_snapshot = 1;
    assert_eq!(q.pop_avail_desc_idx(stale_snapshot), Some(5));
    assert_eq!(q.pop_avail_desc_idx(stale_snapshot), None);
    assert!(q.check_avail_idx(stale_snapshot));
    // The deferred chain is drained by the next round.
    let fresh_snapshot = q.avail_idx();
    assert_eq!(q.pop_avail_desc_idx(fresh_snapshot), Some(6));
    assert_eq!(q.pop_avail_desc_idx(fresh_snapshot), None);
}

#[test]
fn notify_suppression_flags() {
    let mut q = Virtq::new(8);
    assert!(q.notify_enabled());
    q.disable_notify();
    assert!(!q.notify_enabled());
    q.enable_notify();
    assert!(q.notify_enabled());
}

#[test]
fn used_ring_updates() {
    let mut q = Virtq::new(8);
    // Not ready: no completion is posted.
    assert!(!q.update_used_ring(16, 0));
    q.set_ready(true);
    // A head outside the descriptor table is inconsistent.
    assert!(!q.update_used_ring(16, 8));
    assert!(q.update_used_ring(16, 3));
    assert!(q.update_used_ring(0, 5));
    assert_eq!(q.used_len(), 2);
    let e0 = q.used_elem(0);
    assert_eq!((e0.id, e0.len), (3, 16));
    let e1 = q.used_elem(1);
    assert_eq!((e1.id, e1.len), (5, 0));
}

#[test]
fn guest_mem_translate_and_rw() {
    let mut m = GuestMem::new(0x1000, 0x200);
    assert_eq!(m.base(), 0x1000);
    assert_eq!(m.len(), 0x200);
    assert_eq!(m.translate(0x0fff), None);
    assert_eq!(m.translate(0x1000), Some(0));
    assert_eq!(m.translate(0x11ff), Some(0x1ff));
    assert_eq!(m.translate(0x1200), None);
    assert!(m.write_u32(0x10, 0x1234_5678));
    assert_eq!(m.read_u32(0x10), Some(0x1234_5678));
    assert_eq!(m.read_range(0x10, 4).unwrap(), vec![0x78, 0x56, 0x34, 0x12]);
    assert!(m.write_u64(0x20, 0xdead_beef_0bad_f00d));
    assert_eq!(m.read_u64(0x20), Some(0xdead_beef_0bad_f00d));
    assert!(m.write_u8(0x1ff, 9));
    assert!(!m.write_u8(0x200, 9));
    assert_eq!(m.read_u32(0x1fd), None);
    assert!(!m.write_u32(0x1fd, 1));
}
