use hypercraft::blk::BLOCKIF_IOV_MAX;
use hypercraft::blk::BLOCKIF_SIZE_MAX;
use hypercraft::blk::BlkDesc;
use hypercraft::blk::BlkDescInner;
use hypercraft::blk::BlkGeometry;
use hypercraft::blk::BlkTopology;
use hypercraft::blk::VIRTIO_BLK_F_SEG_MAX;
use hypercraft::blk::VIRTIO_BLK_F_SIZE_MAX;
use hypercraft::blk::VirtioBlkReqNode;
use hypercraft::dev::DevDesc;
use hypercraft::dev::VIRTIO_F_VERSION_1;
use hypercraft::dev::VirtDev;
use hypercraft::dev::VirtioDeviceType;

#[test]
fn defaults_are_zero() {
    let d = BlkDescInner::default();
    assert_eq!(d.capacity, 0);
    assert_eq!(d.size_max, 0);
    assert_eq!(d.seg_max, 0);
    let g = BlkGeometry::default();
    assert_eq!((g.cylinders, g.heads, g.sectors), (0, 0, 0));
    let t = BlkTopology::default();
    assert_eq!(t.opt_io_size, 0);
    let n = VirtioBlkReqNode::default();
    assert_eq!(n.req_type, 0);
    assert_eq!(n.sector, 0);
    assert!(n.iov.is_empty());
}

#[test]
fn cfg_init_sets_capacity_and_limits() {
    let mut d = BlkDescInner::default();
    d.cfg_init(64);
    assert_eq!(d.capacity, 64);
    assert_eq!(d.size_max, BLOCKIF_SIZE_MAX as u32);
    assert_eq!(d.seg_max, BLOCKIF_IOV_MAX as u32);
}

#[test]
fn config_window_reads() {
    let mut d = BlkDesc::default();
    d.cfg_init(0x1_0000_0007);
    // Capacity straddles the two 32-bit words.
    assert_eq!(d.offset_data(0), 7);
    assert_eq!(d.offset_data(4), 1);
    assert_eq!(d.offset_data(8), BLOCKIF_SIZE_MAX as u32);
    assert_eq!(d.offset_data(12), BLOCKIF_IOV_MAX as u32);
    // Zero geometry, topology and discard limits; tail padding reads zero.
    assert_eq!(d.offset_data(16), 0);
    assert_eq!(d.offset_data(40), 0);
    assert_eq!(d.offset_data(68), 0);
    // Reads past the window give nothing.
    assert_eq!(d.offset_data(69), 0);
    assert_eq!(d.offset_data(usize::MAX - 3), 0);
}

#[test]
fn config_window_is_byte_addressable() {
    let mut d = BlkDesc::default();
    d.cfg_init(0x100_0000);
    // An unaligned read sees the capacity field's bytes 2..6.
    assert_eq!(d.offset_data(2), 256);
    let mut d2 = BlkDesc::default();
    d2.cfg_init(0x1_0000_0007);
    // Bytes 3..7: the capacity's fourth byte is zero, its fifth is one.
    assert_eq!(d2.offset_data(3), 256);
    // Bytes 13..17 start inside the seg_max field.
    assert_eq!(d2.offset_data(13), (BLOCKIF_IOV_MAX as u32) >> 8);
}

#[test]
fn virt_dev_init_advertises_block_features() {
    let mut dev = VirtDev::default();
    assert!(!dev.activated());
    assert_eq!(dev.features(), 0);
    assert_eq!(dev.generation(), 0);
    dev.init(VirtioDeviceType::Block);
    assert_eq!(
        dev.features(),
        VIRTIO_BLK_F_SIZE_MAX | VIRTIO_BLK_F_SEG_MAX | VIRTIO_F_VERSION_1
    );
    assert_eq!(dev.features(), 0x1_0000_0006);
    match dev.desc() {
        DevDesc::BlkDesc(b) => {
            assert_eq!(b.offset_data(0), 32);
        },
        DevDesc::Absent => panic!("block device carries no configuration"),
    }
    dev.set_activated(true);
    assert!(dev.activated());
}
