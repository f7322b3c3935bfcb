use vstd::prelude::*;

use crate::raw::drm_mode_type;

verus! {

/// One display timing as the kernel reports it: the pixel clock, the
/// horizontal and vertical active/sync/total counts, the refresh rate, a
/// flag word and a classification word, and a human-readable name.
#[derive(Debug, PartialEq, Eq)]
pub struct ModeInfo {
    /// Pixel clock, in kHz.
    pub clock: u32,
    /// Horizontal active size, in pixels.
    pub hdisplay: u16,
    /// Horizontal sync start.
    pub hsync_start: u16,
    /// Horizontal sync end.
    pub hsync_end: u16,
    /// Horizontal total.
    pub htotal: u16,
    /// Horizontal skew.
    pub hskew: u16,
    /// Vertical active size, in lines.
    pub vdisplay: u16,
    /// Vertical sync start.
    pub vsync_start: u16,
    /// Vertical sync end.
    pub vsync_end: u16,
    /// Vertical total.
    pub vtotal: u16,
    /// Vertical scan count.
    pub vscan: u16,
    /// Vertical refresh rate, in Hz.
    pub vrefresh: u32,
    /// Mode flags.
    pub flags: u32,
    /// Classification word; see [`drm_mode_type`].
    pub type_: u32,
    /// Human-readable name of the timing.
    pub name: String,
}

impl Clone for ModeInfo {
    fn clone(&self) -> (r: Self)
        ensures
            r == *self,
    {
        ModeInfo {
            clock: self.clock,
            hdisplay: self.hdisplay,
            hsync_start: self.hsync_start,
            hsync_end: self.hsync_end,
            htotal: self.htotal,
            hskew: self.hskew,
            vdisplay: self.vdisplay,
            vsync_start: self.vsync_start,
            vsync_end: self.vsync_end,
            vtotal: self.vtotal,
            vscan: self.vscan,
            vrefresh: self.vrefresh,
            flags: self.flags,
            type_: self.type_,
            name: self.name.clone(),
        }
    }
}

/// Whether a classification word carries all bits of a tag's mask.
pub open spec fn spec_has_type(type_word: u32, t: drm_mode_type) -> bool {
    type_word & t.spec_mask() == t.spec_mask()
}

/// An immutable display mode: one timing a CRTC can generate.
#[derive(Debug)]
pub struct Mode {
    /// The raw timing descriptor this mode was built from.
    pub inner: ModeInfo,
}

impl Clone for Mode {
    fn clone(&self) -> (r: Self)
        ensures
            r == *self,
    {
        Mode { inner: self.inner.clone() }
    }
}

impl Mode {
    /// Wraps a raw timing descriptor.
    pub fn new(info: ModeInfo) -> (r: Self)
        ensures
            r.inner == info,
    {
        Mode { inner: info }
    }

    /// Tests the classification of this mode against one tag.
    ///
    /// This is a bitmask membership test — all bits of the tag's mask must be
    /// set — not a structural comparison, and it is unaffected by any other
    /// classification bits the mode carries.
    pub fn has_type(&self, arg: drm_mode_type) -> (r: bool)
        ensures
            r == spec_has_type(self.inner.type_, arg),
    {
        let mask = arg.mask();
        (self.inner.type_ & mask) == mask
    }

    /// Returns the raw timing descriptor, as handed to blob creation.
    pub fn inner(&self) -> (r: &ModeInfo)
        ensures
            r == &self.inner,
    {
        &self.inner
    }

    /// Returns the active vertical size in pixels.
    pub fn height(&self) -> (r: u16)
        ensures
            r == self.inner.vdisplay,
    {
        self.inner.vdisplay
    }

    /// Returns the vertical refresh rate, in Hertz.
    pub fn refresh(&self) -> (r: u32)
        ensures
            r == self.inner.vrefresh,
    {
        self.inner.vrefresh
    }

    /// Returns the active horizontal size in pixels.
    pub fn width(&self) -> (r: u16)
        ensures
            r == self.inner.hdisplay,
    {
        self.inner.hdisplay
    }
}

/// The preferred-mode test depends on exactly one bit of the classification
/// word: bit 3, the mask of [`drm_mode_type::Preferred`].
pub proof fn lemma_preferred_is_single_bit(type_word: u32)
    ensures
        spec_has_type(type_word, drm_mode_type::Preferred) <==> type_word & 0x08 != 0,
{
    assert(type_word & 0x08 == 0x08 <==> type_word & 0x08 != 0) by (bit_vector);
}

} // verus!
