use vstd::prelude::*;

use crate::crtc::{spec_bit_set, bit_set, Crtc};
use crate::device::{Device, DeviceHandle};
use crate::error::Error;
use crate::raw::drm_mode_encoder_type;

verus! {

/// The static capability data the kernel reports for one encoder.
#[derive(Clone, Copy, Debug, PartialEq, Eq, Structural)]
pub struct EncoderInfo {
    /// The kernel-assigned object ID.
    pub encoder_id: u32,
    /// The numeric encoder-kind code; see [`drm_mode_encoder_type`].
    pub encoder_type: u32,
    /// Compatibility mask over CRTC discovery indices.
    pub possible_crtcs: u32,
    /// Clone-partner mask over encoder discovery indices.
    pub possible_clones: u32,
}

/// The signal-format conversion stage between a CRTC and a connector.
///
/// Both bitmasks are keyed by discovery index — bit `n` of `possible_crtcs`
/// names the `n`-th discovered CRTC — not by object ID.
#[derive(Clone, Copy, Debug, PartialEq, Eq, Structural)]
pub struct Encoder {
    /// Back-reference to the owning device.
    pub dev: DeviceHandle,
    /// The kernel-assigned object ID.
    pub id: u32,
    /// The encoder kind.
    pub type_: drm_mode_encoder_type,
    /// Compatibility mask over CRTC discovery indices.
    pub possible_crtcs: u32,
    /// Clone-partner mask over encoder discovery indices.
    pub possible_clones: u32,
}

/// The CRTCs of `crtcs` whose discovery index is a member of `mask`,
/// in their original order.
pub open spec fn spec_mask_selected_crtcs(crtcs: Seq<Crtc>, mask: u32) -> Seq<Crtc>
    decreases crtcs.len(),
{
    if crtcs.len() == 0 {
        Seq::empty()
    } else {
        let prefix = spec_mask_selected_crtcs(crtcs.drop_last(), mask);
        if spec_bit_set(mask, crtcs.last().idx) {
            prefix.push(crtcs.last())
        } else {
            prefix
        }
    }
}

impl Encoder {
    /// Decodes one reported encoder. Fails with [`Error::InvalidData`] if
    /// the encoder-kind code is not a known tag.
    pub(crate) fn new(dev: DeviceHandle, info: &EncoderInfo) -> (r: Result<Self, Error>)
        ensures
            match r {
                Ok(e) => drm_mode_encoder_type::spec_from_value(info.encoder_type) == Some(e.type_)
                    && e == (Encoder {
                        dev,
                        id: info.encoder_id,
                        type_: e.type_,
                        possible_crtcs: info.possible_crtcs,
                        possible_clones: info.possible_clones,
                    }),
                Err(e) => e == Error::InvalidData
                    && drm_mode_encoder_type::spec_from_value(info.encoder_type) is None,
            },
    {
        match drm_mode_encoder_type::from_value(info.encoder_type) {
            Some(t) => Ok(Encoder {
                dev,
                id: info.encoder_id,
                type_: t,
                possible_crtcs: info.possible_crtcs,
                possible_clones: info.possible_clones,
            }),
            None => Err(Error::InvalidData),
        }
    }

    /// Returns the kernel-assigned object ID.
    pub fn id(&self) -> (r: u32)
        ensures
            r == self.id,
    {
        self.id
    }

    /// Returns the CRTCs of the device this encoder can drive: those whose
    /// discovery index is set in the encoder's compatibility mask.
    ///
    /// Fails with [`Error::DeviceGone`] if the owning device was destroyed
    /// or `dev` is not the owning device.
    pub fn crtcs(&self, dev: &Device) -> (r: Result<Vec<Crtc>, Error>)
        ensures
            match r {
                Ok(v) => dev.spec_accessible(self.dev)
                    && v@ == spec_mask_selected_crtcs(dev.crtcs@, self.possible_crtcs),
                Err(e) => e == Error::DeviceGone && !dev.spec_accessible(self.dev),
            },
    {
        if !dev.accessible(self.dev) {
            return Err(Error::DeviceGone);
        }
        let all = dev.crtcs();
        let n = all.len();
        let mut out: Vec<Crtc> = Vec::new();
        let mut i: usize = 0;
        while i < n
            invariant
                n == all.len(),
                i <= n,
                out@ == spec_mask_selected_crtcs(all@.take(i as int), self.possible_crtcs),
            decreases n - i,
        {
            proof {
                assert(all@.take(i + 1 as int).drop_last() =~= all@.take(i as int));
                assert(all@.take(i + 1 as int).last() == all@[i as int]);
            }
            if bit_set(self.possible_crtcs, all[i].idx) {
                out.push(all[i]);
            }
            i += 1;
        }
        proof {
            assert(all@.take(n as int) =~= all@);
        }
        Ok(out)
    }
}

} // verus!
