//! Generic virtio device state: activation, advertised features and the
//! device-kind configuration.
use vstd::prelude::*;

use crate::blk::BlkDesc;
use crate::blk::VIRTIO_BLK_F_SEG_MAX;
use crate::blk::VIRTIO_BLK_F_SIZE_MAX;

verus! {

/// Transport feature bit: the device conforms to the version-1 layout.
pub const VIRTIO_F_VERSION_1: u64 = 0x1_0000_0000;

/// Sectors the block device is configured with at initialization.
pub const BLK_INIT_SECTORS: usize = 32;

/// Kind of virtio device.
#[derive(Clone, Copy, Debug, PartialEq, Eq, Structural)]
pub enum VirtioDeviceType {
    Absent,
    Net,
    Block,
    Console,
}

/// Device-kind configuration. Only the block device carries one; the
/// network and console paths are stubs with no behavior.
#[derive(Clone, Copy)]
pub enum DevDesc {
    BlkDesc(BlkDesc),
    Absent,
}

/// Generic virtio device state.
#[derive(Clone, Copy)]
pub struct VirtDevInner {
    pub activated: bool,
    pub dev_type: VirtioDeviceType,
    pub features: u64,
    pub generation: usize,
    pub desc: DevDesc,
}

impl VirtDevInner {
    /// A device that has not been initialized: no kind, no features, no
    /// configuration.
    pub fn default() -> (r: VirtDevInner)
        ensures
            r.activated == false,
            r.dev_type == VirtioDeviceType::Absent,
            r.features == 0,
            r.generation == 0,
            r.desc is Absent,
    {
        VirtDevInner {
            activated: false,
            dev_type: VirtioDeviceType::Absent,
            features: 0,
            generation: 0,
            desc: DevDesc::Absent,
        }
    }

    /// Initializes a block device: installs a block configuration of
    /// `BLK_INIT_SECTORS` sectors and advertises the segment-limit and
    /// version-1 feature bits. Only the block kind is recognized;
    /// initialization with any other kind is a configuration defect.
    pub fn init(&mut self, dev_type: VirtioDeviceType)
        requires
            dev_type is Block,
        ensures
            final(self).dev_type == dev_type,
            final(self).features == old(self).features | VIRTIO_BLK_F_SIZE_MAX
                | VIRTIO_BLK_F_SEG_MAX | VIRTIO_F_VERSION_1,
            final(self).desc matches DevDesc::BlkDesc(b) && b@ == (crate::blk::BlkDescInner {
                capacity: BLK_INIT_SECTORS,
                size_max: crate::blk::BLOCKIF_SIZE_MAX as u32,
                seg_max: crate::blk::BLOCKIF_IOV_MAX as u32,
                ..crate::blk::BlkDescInner::spec_default()
            }),
            final(self).activated == old(self).activated,
            final(self).generation == old(self).generation,
    {
        self.dev_type = dev_type;
        let mut blk_desc = BlkDesc::default();
        blk_desc.cfg_init(BLK_INIT_SECTORS);
        self.desc = DevDesc::BlkDesc(blk_desc);
        self.features = self.features | VIRTIO_BLK_F_SIZE_MAX | VIRTIO_BLK_F_SEG_MAX
            | VIRTIO_F_VERSION_1;
    }
}

/// A virtio device as the MMIO layer sees it. The embedding shares one
/// instance across cores behind its own lock; here it is a plain value.
#[derive(Clone, Copy)]
pub struct VirtDev {
    pub inner: VirtDevInner,
}

impl VirtDev {
    /// A device that has not been initialized.
    pub fn default() -> (r: VirtDev)
        ensures
            r.inner.activated == false,
            r.inner.dev_type == VirtioDeviceType::Absent,
            r.inner.features == 0,
            r.inner.generation == 0,
            r.inner.desc is Absent,
    {
        VirtDev { inner: VirtDevInner::default() }
    }

    /// The device-kind configuration.
    pub fn desc(&self) -> (r: DevDesc)
        ensures
            r == self.inner.desc,
    {
        self.inner.desc
    }

    /// Initializes the device; see `VirtDevInner::init`.
    pub fn init(&mut self, dev_type: VirtioDeviceType)
        requires
            dev_type is Block,
        ensures
            final(self).inner.dev_type == dev_type,
            final(self).inner.features == old(self).inner.features | VIRTIO_BLK_F_SIZE_MAX
                | VIRTIO_BLK_F_SEG_MAX | VIRTIO_F_VERSION_1,
            final(self).inner.desc matches DevDesc::BlkDesc(b) && b@ == (crate::blk::BlkDescInner {
                capacity: BLK_INIT_SECTORS,
                size_max: crate::blk::BLOCKIF_SIZE_MAX as u32,
                seg_max: crate::blk::BLOCKIF_IOV_MAX as u32,
                ..crate::blk::BlkDescInner::spec_default()
            }),
            final(self).inner.activated == old(self).inner.activated,
            final(self).inner.generation == old(self).inner.generation,
    {
        self.inner.init(dev_type);
    }

    /// The advertised feature word.
    pub fn features(&self) -> (r: u64)
        ensures
            r == self.inner.features,
    {
        self.inner.features
    }

    /// The configuration generation the guest reads.
    pub fn generation(&self) -> (r: usize)
        ensures
            r == self.inner.generation,
    {
        self.inner.generation
    }

    /// Whether the driver has activated the device.
    pub fn activated(&self) -> (r: bool)
        ensures
            r == self.inner.activated,
    {
        self.inner.activated
    }

    /// Records driver activation (or deactivation) of the device.
    pub fn set_activated(&mut self, activated: bool)
        ensures
            final(self).inner == (VirtDevInner { activated, ..old(self).inner }),
    {
        self.inner.activated = activated;
    }
}

/// The MMIO face of one virtio device: what an emulated-device registry
/// entry points at.
#[derive(Clone, Copy)]
pub struct VirtioMmio {
    pub dev: VirtDev,
}

impl VirtioMmio {
    /// Wraps a device for registration.
    pub fn new(dev: VirtDev) -> (r: VirtioMmio)
        ensures
            r.dev == dev,
    {
        VirtioMmio { dev }
    }

    /// The device behind the window.
    pub fn dev(&self) -> (r: VirtDev)
        ensures
            r == self.dev,
    {
        self.dev
    }
}

} // verus!
