use hypercraft::blk::FakeBlkDevice;
use hypercraft::blk::PlatOperation;
use hypercraft::blk::VIRTIO_BLK_S_OK;
use hypercraft::blk::VIRTIO_BLK_S_UNSUPP;
use hypercraft::blk::VIRTIO_BLK_T_FLUSH;
use hypercraft::blk::VIRTIO_BLK_T_GET_ID;
use hypercraft::blk::VIRTIO_BLK_T_IN;
use hypercraft::blk::VIRTIO_BLK_T_OUT;
use hypercraft::blk::virtio_blk_notify_handler;
use hypercraft::dev::VirtDev;
use hypercraft::dev::VirtioMmio;
use hypercraft::guest_mem::GuestMem;
use hypercraft::queue::VIRTQ_DESC_F_NEXT;
use hypercraft::queue::VIRTQ_DESC_F_WRITE;
use hypercraft::queue::Virtq;

const BASE: usize = 0x1000;
const HDR: usize = 0;
const DATA: usize = 0x200;
const STATUS: usize = 0x400;
const DATA2: usize = 0x600;

fn setup(sectors: usize) -> (Virtq, GuestMem, FakeBlkDevice, VirtioMmio) {
    let mut q = Virtq::new(8);
    q.set_ready(true);
    let mem = GuestMem::new(BASE, 0x2000);
    let disk = FakeBlkDevice::new(sectors);
    let mmio = VirtioMmio::new(VirtDev::default());
    (q, mem, disk, mmio)
}

fn write_header(mem: &mut GuestMem, off: usize, req_type: u32, sector: u64) {
    assert!(mem.write_u32(off, req_type));
    assert!(mem.write_u32(off + 4, 0));
    assert!(mem.write_u64(off + 8, sector));
}

/// Installs descriptors 0..=2 as one chain: header, one data buffer, one
/// status byte; pushes the chain head.
fn install_chain(q: &mut Virtq, data_off: usize, data_len: u32, data_writable: bool) {
    let data_flags = if data_writable {
        VIRTQ_DESC_F_NEXT | VIRTQ_DESC_F_WRITE
    } else {
        VIRTQ_DESC_F_NEXT
    };
    assert!(q.set_desc(0, BASE + HDR, 16, VIRTQ_DESC_F_NEXT, 1));
    assert!(q.set_desc(1, BASE + data_off, data_len, data_flags, 2));
    assert!(q.set_desc(2, BASE + STATUS, 1, VIRTQ_DESC_F_WRITE, 0));
    assert!(q.push_avail(0));
}

fn status_byte(mem: &GuestMem) -> u8 {
    mem.read_range(STATUS, 1).unwrap()[0]
}

#[test]
fn get_id_returns_identifier() {
    let (mut q, mut mem, mut disk, mmio) = setup(32);
    write_header(&mut mem, HDR, VIRTIO_BLK_T_GET_ID, 0);
    install_chain(&mut q, DATA, 20, true);
    assert!(virtio_blk_notify_handler(&mut q, &mmio, &mut mem, &mut disk));
    let mut expected = b"virtio-blk-0".to_vec();
    expected.resize(20, 0);
    assert_eq!(mem.read_range(DATA, 20).unwrap(), expected);
    assert_eq!(status_byte(&mem), VIRTIO_BLK_S_OK);
    assert_eq!(q.used_len(), 1);
    let e = q.used_elem(0);
    assert_eq!((e.id, e.len), (0, 0));
}

#[test]
fn out_then_in_round_trip() {
    let (mut q, mut mem, mut disk, mmio) = setup(32);
    let pattern: Vec<u8> = (0..512u32).map(|i| (i * 7 % 251) as u8).collect();
    assert!(mem.write_range(DATA, &pattern));
    write_header(&mut mem, HDR, VIRTIO_BLK_T_OUT, 3);
    install_chain(&mut q, DATA, 512, false);
    assert!(virtio_blk_notify_handler(&mut q, &mmio, &mut mem, &mut disk));
    assert_eq!(status_byte(&mem), VIRTIO_BLK_S_OK);
    let e = q.used_elem(0);
    assert_eq!((e.id, e.len), (0, 0));

    // Read the same sector back into a different buffer.
    let mut q2 = Virtq::new(8);
    q2.set_ready(true);
    write_header(&mut mem, HDR, VIRTIO_BLK_T_IN, 3);
    assert!(q2.set_desc(0, BASE + HDR, 16, VIRTQ_DESC_F_NEXT, 1));
    assert!(q2.set_desc(1, BASE + DATA2, 512, VIRTQ_DESC_F_NEXT | VIRTQ_DESC_F_WRITE, 2));
    assert!(q2.set_desc(2, BASE + STATUS, 1, VIRTQ_DESC_F_WRITE, 0));
    assert!(q2.push_avail(0));
    assert!(virtio_blk_notify_handler(&mut q2, &mmio, &mut mem, &mut disk));
    assert_eq!(mem.read_range(DATA2, 512).unwrap(), pattern);
    assert_eq!(status_byte(&mem), VIRTIO_BLK_S_OK);
    let e = q2.used_elem(0);
    assert_eq!((e.id, e.len), (0, 512));
}

#[test]
fn round_trip_at_exact_capacity() {
    // The last sector is readable and writable in full: S*512 + L == N*512.
    let (mut q, mut mem, mut disk, mmio) = setup(32);
    let pattern: Vec<u8> = vec![0x5a; 512];
    assert!(mem.write_range(DATA, &pattern));
    write_header(&mut mem, HDR, VIRTIO_BLK_T_OUT, 31);
    install_chain(&mut q, DATA, 512, false);
    assert!(virtio_blk_notify_handler(&mut q, &mmio, &mut mem, &mut disk));

    let mut q2 = Virtq::new(8);
    q2.set_ready(true);
    write_header(&mut mem, HDR, VIRTIO_BLK_T_IN, 31);
    assert!(q2.set_desc(0, BASE + HDR, 16, VIRTQ_DESC_F_NEXT, 1));
    assert!(q2.set_desc(1, BASE + DATA2, 512, VIRTQ_DESC_F_NEXT | VIRTQ_DESC_F_WRITE, 2));
    assert!(q2.set_desc(2, BASE + STATUS, 1, VIRTQ_DESC_F_WRITE, 0));
    assert!(q2.push_avail(0));
    assert!(virtio_blk_notify_handler(&mut q2, &mmio, &mut mem, &mut disk));
    assert_eq!(mem.read_range(DATA2, 512).unwrap(), pattern);
    assert_eq!(q2.used_elem(0).len, 512);
}

#[test]
fn writable_head_rejected_without_completion() {
    let (mut q, mut mem, mut disk, mmio) = setup(32);
    write_header(&mut mem, HDR, VIRTIO_BLK_T_IN, 0);
    assert!(q.set_desc(0, BASE + HDR, 16, VIRTQ_DESC_F_NEXT | VIRTQ_DESC_F_WRITE, 1));
    assert!(q.set_desc(1, BASE + DATA, 512, VIRTQ_DESC_F_NEXT | VIRTQ_DESC_F_WRITE, 2));
    assert!(q.set_desc(2, BASE + STATUS, 1, VIRTQ_DESC_F_WRITE, 0));
    assert!(q.push_avail(0));
    assert!(!virtio_blk_notify_handler(&mut q, &mmio, &mut mem, &mut disk));
    assert_eq!(q.used_len(), 0);
    assert_eq!(status_byte(&mem), 0);
}

#[test]
fn direction_mismatch_rejected() {
    let (mut q, mut mem, mut disk, mmio) = setup(32);
    // A write request must not carry device-writable data buffers.
    write_header(&mut mem, HDR, VIRTIO_BLK_T_OUT, 0);
    install_chain(&mut q, DATA, 512, true);
    assert!(!virtio_blk_notify_handler(&mut q, &mmio, &mut mem, &mut disk));
    assert_eq!(q.used_len(), 0);
    // A read request must carry device-writable data buffers.
    let (mut q2, mut mem2, mut disk2, mmio2) = setup(32);
    write_header(&mut mem2, HDR, VIRTIO_BLK_T_IN, 0);
    install_chain(&mut q2, DATA, 512, false);
    assert!(!virtio_blk_notify_handler(&mut q2, &mmio2, &mut mem2, &mut disk2));
    assert_eq!(q2.used_len(), 0);
}

#[test]
fn not_ready_queue_rejected() {
    let (mut q, mut mem, mut disk, mmio) = setup(32);
    q.set_ready(false);
    write_header(&mut mem, HDR, VIRTIO_BLK_T_GET_ID, 0);
    install_chain(&mut q, DATA, 20, true);
    assert!(!virtio_blk_notify_handler(&mut q, &mmio, &mut mem, &mut disk));
    assert_eq!(q.used_len(), 0);
    assert_eq!(status_byte(&mem), 0);
}

#[test]
fn flush_completes_with_unsupported_status() {
    let (mut q, mut mem, mut disk, mmio) = setup(32);
    write_header(&mut mem, HDR, VIRTIO_BLK_T_FLUSH, 0);
    install_chain(&mut q, DATA, 512, true);
    assert!(virtio_blk_notify_handler(&mut q, &mmio, &mut mem, &mut disk));
    assert_eq!(status_byte(&mem), VIRTIO_BLK_S_UNSUPP);
    assert_eq!(q.used_len(), 1);
    assert_eq!(q.used_elem(0).len, 0);
}

#[test]
fn read_beyond_capacity_skips_transfer_but_completes() {
    let (mut q, mut mem, mut disk, mmio) = setup(32);
    let marker: Vec<u8> = vec![0xaa; 512];
    assert!(mem.write_range(DATA, &marker));
    write_header(&mut mem, HDR, VIRTIO_BLK_T_IN, 32);
    install_chain(&mut q, DATA, 512, true);
    assert!(virtio_blk_notify_handler(&mut q, &mmio, &mut mem, &mut disk));
    // The buffer is untouched, but the batch goes on and completes.
    assert_eq!(mem.read_range(DATA, 512).unwrap(), marker);
    assert_eq!(q.used_len(), 1);
    assert_eq!(q.used_elem(0).len, 512);
}

#[test]
fn read_into_two_buffers() {
    let (mut q, mut mem, mut disk, mmio) = setup(32);
    let pattern: Vec<u8> = (0..512u32).map(|i| (i % 256) as u8).collect();
    assert!(mem.write_range(DATA, &pattern));
    write_header(&mut mem, HDR, VIRTIO_BLK_T_OUT, 5);
    install_chain(&mut q, DATA, 512, false);
    assert!(virtio_blk_notify_handler(&mut q, &mmio, &mut mem, &mut disk));

    let mut q2 = Virtq::new(8);
    q2.set_ready(true);
    write_header(&mut mem, HDR, VIRTIO_BLK_T_IN, 5);
    assert!(q2.set_desc(0, BASE + HDR, 16, VIRTQ_DESC_F_NEXT, 1));
    assert!(q2.set_desc(1, BASE + DATA2, 256, VIRTQ_DESC_F_NEXT | VIRTQ_DESC_F_WRITE, 3));
    assert!(q2.set_desc(3, BASE + DATA2 + 0x100, 256, VIRTQ_DESC_F_NEXT | VIRTQ_DESC_F_WRITE, 2));
    assert!(q2.set_desc(2, BASE + STATUS, 1, VIRTQ_DESC_F_WRITE, 0));
    assert!(q2.push_avail(0));
    assert!(virtio_blk_notify_handler(&mut q2, &mmio, &mut mem, &mut disk));
    assert_eq!(mem.read_range(DATA2, 512).unwrap(), pattern);
    assert_eq!(q2.used_elem(0).len, 512);
}

#[test]
fn two_chains_one_kick() {
    let (mut q, mut mem, mut disk, mmio) = setup(32);
    write_header(&mut mem, HDR, VIRTIO_BLK_T_GET_ID, 0);
    install_chain(&mut q, DATA, 20, true);
    // Second chain: descriptors 3..=5, same header, another buffer.
    assert!(q.set_desc(3, BASE + HDR, 16, VIRTQ_DESC_F_NEXT, 4));
    assert!(q.set_desc(4, BASE + DATA2, 20, VIRTQ_DESC_F_NEXT | VIRTQ_DESC_F_WRITE, 5));
    assert!(q.set_desc(5, BASE + STATUS, 1, VIRTQ_DESC_F_WRITE, 0));
    assert!(q.push_avail(3));
    assert!(virtio_blk_notify_handler(&mut q, &mmio, &mut mem, &mut disk));
    assert_eq!(q.used_len(), 2);
    assert_eq!(q.used_elem(0).id, 0);
    assert_eq!(q.used_elem(1).id, 3);
    // Notifications end up re-enabled once the device caught up.
    assert!(q.notify_enabled());
    // A chain published after that kick is not consumed by it.
    assert!(q.push_avail(0));
    assert_eq!(q.used_len(), 2);
}

#[test]
fn cyclic_chain_rejected() {
    let (mut q, mut mem, mut disk, mmio) = setup(32);
    write_header(&mut mem, HDR, VIRTIO_BLK_T_IN, 0);
    assert!(q.set_desc(0, BASE + HDR, 16, VIRTQ_DESC_F_NEXT, 1));
    // Descriptor 1 links to itself: the walk must give up, not spin.
    assert!(q.set_desc(1, BASE + DATA, 64, VIRTQ_DESC_F_NEXT | VIRTQ_DESC_F_WRITE, 1));
    assert!(q.push_avail(0));
    assert!(!virtio_blk_notify_handler(&mut q, &mmio, &mut mem, &mut disk));
    assert_eq!(q.used_len(), 0);
}

#[test]
fn unmapped_buffer_rejected() {
    let (mut q, mut mem, mut disk, mmio) = setup(32);
    write_header(&mut mem, HDR, VIRTIO_BLK_T_IN, 0);
    assert!(q.set_desc(0, BASE + HDR, 16, VIRTQ_DESC_F_NEXT, 1));
    // The data buffer lies outside the assigned window.
    assert!(q.set_desc(1, 0x9_0000, 64, VIRTQ_DESC_F_NEXT | VIRTQ_DESC_F_WRITE, 2));
    assert!(q.set_desc(2, BASE + STATUS, 1, VIRTQ_DESC_F_WRITE, 0));
    assert!(q.push_avail(0));
    assert!(!virtio_blk_notify_handler(&mut q, &mmio, &mut mem, &mut disk));
    assert_eq!(q.used_len(), 0);
}

#[test]
fn backing_store_bounds() {
    let mut d = FakeBlkDevice::new(2);
    let data: Vec<u8> = (0u32..1024).map(|i| (i % 256) as u8).collect();
    assert!(d.blk_write(0, 1024, &data));
    let mut buf = Vec::new();
    assert!(d.blk_read(0, 1024, &mut buf));
    assert_eq!(buf, data);
    // Exactly-full access works; one byte past does not.
    assert!(d.blk_read(512, 512, &mut buf));
    assert!(!d.blk_read(513, 512, &mut buf));
    assert!(!d.blk_write(1, 1024, &data));
}
