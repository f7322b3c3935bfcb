use vstd::prelude::*;

use crate::device::DeviceHandle;
use crate::object::Object;
use crate::raw::drm_mode_object_type;

verus! {

/// A scan-out engine: the timing generator and blender at the centre of a
/// display pipeline.
///
/// Besides its kernel-assigned object ID, a CRTC remembers its discovery
/// index: its position in the device's enumeration order. Encoder and plane
/// compatibility bitmasks are keyed by this index — bit `n` names the
/// `n`-th discovered CRTC — never by the object ID.
#[derive(Clone, Copy, Debug, PartialEq, Eq, Structural)]
pub struct Crtc {
    /// Back-reference to the owning device.
    pub dev: DeviceHandle,
    /// The kernel-assigned object ID.
    pub id: u32,
    /// The discovery index, used only for bitmask membership tests.
    pub idx: usize,
}

impl Crtc {
    pub(crate) fn new(dev: DeviceHandle, id: u32, idx: usize) -> (r: Self)
        ensures
            r == (Crtc { dev, id, idx }),
    {
        Crtc { dev, id, idx }
    }

    /// Returns the discovery index of this CRTC.
    pub fn index(&self) -> (r: usize)
        ensures
            r == self.idx,
    {
        self.idx
    }
}

impl Object for Crtc {
    open spec fn spec_device(&self) -> DeviceHandle {
        self.dev
    }

    open spec fn spec_object_id(&self) -> u32 {
        self.id
    }

    open spec fn spec_object_type(&self) -> drm_mode_object_type {
        drm_mode_object_type::Crtc
    }

    fn device(&self) -> DeviceHandle {
        self.dev
    }

    fn object_id(&self) -> u32 {
        self.id
    }

    fn object_type(&self) -> drm_mode_object_type {
        drm_mode_object_type::Crtc
    }
}

/// Whether bit `idx` of a compatibility mask is set. Index positions beyond
/// the mask's width are never members.
pub open spec fn spec_bit_set(mask: u32, idx: usize) -> bool {
    idx < 32 && (mask >> (idx as u32)) & 1 == 1
}

/// Tests bit `idx` of a compatibility mask.
pub fn bit_set(mask: u32, idx: usize) -> (r: bool)
    ensures
        r == spec_bit_set(mask, idx),
{
    idx < 32 && (mask >> (idx as u32)) & 1 == 1
}

} // verus!
