use vstd::prelude::*;

use crate::buffer::{spec_allocation_adequate, AllocationInfo, Buffer, Type as BufferType};
use crate::connector::{lemma_listed_encoders_from, spec_connector_matches, spec_listed_encoders,
    Connector, ConnectorInfo};
use crate::crtc::Crtc;
use crate::encoder::{spec_mask_selected_crtcs, Encoder, EncoderInfo};
use crate::error::Error;
use crate::output::Output;
use crate::plane::{spec_plane_matches, Plane, PlaneInfo};
use crate::raw::{drm_mode_connector_type, drm_mode_encoder_type};

verus! {

/// A non-owning, upgradeable back-reference to a [`Device`].
///
/// Every node carries one. An operation that needs the device takes the
/// device by reference and verifies, on every access, that the handle still
/// names a live device; a destroyed device makes every held handle stale.
#[derive(Clone, Copy, Debug, PartialEq, Eq, Structural)]
pub struct DeviceHandle {
    /// The token of the device this handle names.
    pub token: u64,
}

/// Whether every encoder description in `infos` decodes.
pub open spec fn spec_encoders_decodable(infos: Seq<EncoderInfo>) -> bool {
    forall|i: int|
        0 <= i < infos.len() ==> drm_mode_encoder_type::spec_from_value(
            #[trigger] infos[i].encoder_type,
        ) is Some
}

/// Whether every connector description in `infos` decodes.
pub open spec fn spec_connectors_decodable(infos: Seq<ConnectorInfo>) -> bool {
    forall|i: int|
        0 <= i < infos.len() ==> drm_mode_connector_type::spec_from_value(
            #[trigger] infos[i].connector_type,
        ) is Some
}

/// The root of the resource graph: the owner of the connection to one
/// display controller and of the four node collections discovered at
/// construction time.
///
/// The topology is discovered exactly once and never mutated afterwards.
/// All other objects hold a [`DeviceHandle`] back-reference; once the
/// device is destroyed, every operation through such a handle fails with
/// [`Error::DeviceGone`] instead of crashing.
#[derive(Debug)]
pub struct Device {
    /// The token held-out handles are checked against.
    pub token: u64,
    /// Whether the device still exists.
    pub alive: bool,
    /// The discovered CRTCs, in enumeration order.
    pub crtcs: Vec<Crtc>,
    /// The discovered encoders, in enumeration order.
    pub encoders: Vec<Encoder>,
    /// The discovered connectors, in enumeration order.
    pub connectors: Vec<Connector>,
    /// The discovered planes, in enumeration order.
    pub planes: Vec<Plane>,
}

impl Device {
    /// The structural invariant of a discovered graph: every node's
    /// back-reference names this device, and the CRTCs carry their
    /// discovery indices `0..n` in order — the key the compatibility
    /// bitmasks of encoders and planes are read against.
    pub open spec fn wf(&self) -> bool {
        &&& forall|i: int|
            0 <= i < self.crtcs@.len() ==> (#[trigger] self.crtcs@[i]).dev == (DeviceHandle {
                token: self.token,
            }) && self.crtcs@[i].idx == i
        &&& forall|i: int|
            0 <= i < self.encoders@.len() ==> (#[trigger] self.encoders@[i]).dev == (DeviceHandle {
                token: self.token,
            })
        &&& forall|i: int|
            0 <= i < self.connectors@.len() ==> (#[trigger] self.connectors@[i]).dev
                == (DeviceHandle { token: self.token })
        &&& forall|i: int|
            0 <= i < self.planes@.len() ==> (#[trigger] self.planes@[i]).dev == (DeviceHandle {
                token: self.token,
            })
    }

    /// Whether `h` still reaches this device: the device is alive and `h`
    /// names it.
    pub open spec fn spec_accessible(&self, h: DeviceHandle) -> bool {
        self.alive && h.token == self.token
    }

    /// Tests whether `h` still reaches this device.
    pub fn accessible(&self, h: DeviceHandle) -> (r: bool)
        ensures
            r == self.spec_accessible(h),
    {
        self.alive && h.token == self.token
    }

    /// Returns a back-reference handle to this device.
    pub fn handle(&self) -> (r: DeviceHandle)
        ensures
            r == (DeviceHandle { token: self.token }),
    {
        DeviceHandle { token: self.token }
    }

    /// Builds the resource graph from one full discovery: the CRTC IDs and
    /// the encoder, connector and plane descriptions, each in enumeration
    /// order. `token` is the identity held-out handles are checked against;
    /// distinct devices must be given distinct tokens.
    ///
    /// CRTCs are assigned discovery indices `0..n` in enumeration order;
    /// the compatibility bitmasks of encoders and planes are keyed by these
    /// indices. Construction is all-or-nothing: if any description fails to
    /// decode, no device is returned.
    ///
    /// Fails with [`Error::InvalidData`] if an encoder or connector kind
    /// code is not a known tag.
    pub fn new(
        token: u64,
        crtc_ids: Vec<u32>,
        encoder_infos: Vec<EncoderInfo>,
        connector_infos: Vec<ConnectorInfo>,
        plane_infos: Vec<PlaneInfo>,
    ) -> (r: Result<Device, Error>)
        ensures
            match r {
                Ok(d) => {
                    &&& d.wf()
                    &&& spec_encoders_decodable(encoder_infos@)
                    &&& spec_connectors_decodable(connector_infos@)
                    &&& d.token == token
                    &&& d.alive
                    &&& d.crtcs@.len() == crtc_ids@.len()
                    &&& forall|i: int|
                        0 <= i < crtc_ids@.len() ==> #[trigger] d.crtcs@[i] == (Crtc {
                            dev: DeviceHandle { token },
                            id: crtc_ids@[i],
                            idx: i as usize,
                        })
                    &&& d.encoders@.len() == encoder_infos@.len()
                    &&& forall|i: int|
                        0 <= i < encoder_infos@.len() ==> #[trigger] d.encoders@[i] == (Encoder {
                            dev: DeviceHandle { token },
                            id: encoder_infos@[i].encoder_id,
                            type_: drm_mode_encoder_type::spec_from_value(
                                encoder_infos@[i].encoder_type,
                            ).unwrap(),
                            possible_crtcs: encoder_infos@[i].possible_crtcs,
                            possible_clones: encoder_infos@[i].possible_clones,
                        })
                    &&& d.connectors@.len() == connector_infos@.len()
                    &&& forall|i: int|
                        0 <= i < connector_infos@.len() ==> spec_connector_matches(
                            #[trigger] d.connectors@[i],
                            DeviceHandle { token },
                            connector_infos@[i],
                        )
                    &&& d.planes@.len() == plane_infos@.len()
                    &&& forall|i: int|
                        0 <= i < plane_infos@.len() ==> spec_plane_matches(
                            #[trigger] d.planes@[i],
                            DeviceHandle { token },
                            plane_infos@[i],
                        )
                },
                Err(e) => e == Error::InvalidData && (!spec_encoders_decodable(encoder_infos@)
                    || !spec_connectors_decodable(connector_infos@)),
            },
    {
        let h = DeviceHandle { token };

        let mut crtcs: Vec<Crtc> = Vec::new();
        let n_crtcs = crtc_ids.len();
        let mut i: usize = 0;
        while i < n_crtcs
            invariant
                n_crtcs == crtc_ids@.len(),
                i <= n_crtcs,
                h == (DeviceHandle { token }),
                crtcs@.len() == i,
                forall|j: int|
                    0 <= j < i ==> #[trigger] crtcs@[j] == (Crtc {
                        dev: DeviceHandle { token },
                        id: crtc_ids@[j],
                        idx: j as usize,
                    }),
            decreases n_crtcs - i,
        {
            crtcs.push(Crtc::new(h, crtc_ids[i], i));
            i += 1;
        }

        let mut encoders: Vec<Encoder> = Vec::new();
        let n_encoders = encoder_infos.len();
        let mut i: usize = 0;
        while i < n_encoders
            invariant
                n_encoders == encoder_infos@.len(),
                i <= n_encoders,
                h == (DeviceHandle { token }),
                encoders@.len() == i,
                forall|j: int|
                    0 <= j < i ==> drm_mode_encoder_type::spec_from_value(
                        #[trigger] encoder_infos@[j].encoder_type,
                    ) is Some,
                forall|j: int|
                    0 <= j < i ==> #[trigger] encoders@[j] == (Encoder {
                        dev: DeviceHandle { token },
                        id: encoder_infos@[j].encoder_id,
                        type_: drm_mode_encoder_type::spec_from_value(
                            encoder_infos@[j].encoder_type,
                        ).unwrap(),
                        possible_crtcs: encoder_infos@[j].possible_crtcs,
                        possible_clones: encoder_infos@[j].possible_clones,
                    }),
            decreases n_encoders - i,
        {
            match Encoder::new(h, &encoder_infos[i]) {
                Ok(e) => encoders.push(e),
                Err(e) => {
                    return Err(e);
                },
            }
            i += 1;
        }

        let mut connectors: Vec<Connector> = Vec::new();
        let n_connectors = connector_infos.len();
        let mut i: usize = 0;
        while i < n_connectors
            invariant
                n_connectors == connector_infos@.len(),
                i <= n_connectors,
                h == (DeviceHandle { token }),
                connectors@.len() == i,
                forall|j: int|
                    0 <= j < i ==> drm_mode_connector_type::spec_from_value(
                        #[trigger] connector_infos@[j].connector_type,
                    ) is Some,
                forall|j: int|
                    0 <= j < i ==> spec_connector_matches(
                        #[trigger] connectors@[j],
                        DeviceHandle { token },
                        connector_infos@[j],
                    ),
            decreases n_connectors - i,
        {
            match Connector::new(h, &connector_infos[i]) {
                Ok(c) => connectors.push(c),
                Err(e) => {
                    return Err(e);
                },
            }
            i += 1;
        }

        let mut planes: Vec<Plane> = Vec::new();
        let n_planes = plane_infos.len();
        let mut i: usize = 0;
        while i < n_planes
            invariant
                n_planes == plane_infos@.len(),
                i <= n_planes,
                h == (DeviceHandle { token }),
                planes@.len() == i,
                forall|j: int|
                    0 <= j < i ==> spec_plane_matches(
                        #[trigger] planes@[j],
                        DeviceHandle { token },
                        plane_infos@[j],
                    ),
            decreases n_planes - i,
        {
            planes.push(Plane::new(h, &plane_infos[i]));
            i += 1;
        }

        Ok(Device { token, alive: true, crtcs, encoders, connectors, planes })
    }

    /// Destroys the device. The topology stays readable through this value,
    /// but every operation that goes through a held-out [`DeviceHandle`]
    /// fails with [`Error::DeviceGone`] from now on.
    pub fn destroy(&mut self)
        ensures
            !final(self).alive,
            final(self).token == old(self).token,
            final(self).crtcs == old(self).crtcs,
            final(self).encoders == old(self).encoders,
            final(self).connectors == old(self).connectors,
            final(self).planes == old(self).planes,
    {
        self.alive = false;
    }

    /// Accepts a fulfilled allocation of a scan-out buffer of the given
    /// kind, requested as `width` × `height` at `bpp` bits per pixel.
    ///
    /// The reported geometry always wins over the requested one, and is
    /// rejected with [`Error::InvalidData`] when it is smaller than what
    /// was asked for or internally inconsistent. Fails with
    /// [`Error::DeviceGone`] if the device was destroyed.
    pub fn allocate_buffer(
        &self,
        buftype: BufferType,
        width: u32,
        height: u32,
        bpp: u32,
        alloc: AllocationInfo,
    ) -> (r: Result<Buffer, Error>)
        ensures
            match r {
                Ok(b) => {
                    &&& self.alive
                    &&& spec_allocation_adequate(alloc, width, height, bpp)
                    &&& b == (Buffer {
                        dev: DeviceHandle { token: self.token },
                        width: alloc.width,
                        height: alloc.height,
                        pitch: alloc.pitch,
                        size: alloc.size,
                        handle: alloc.handle,
                    })
                    &&& b.width >= width
                    &&& b.height >= height
                    &&& b.pitch as int * 8 >= width as int * bpp as int
                    &&& b.size as int * 8 >= width as int * height as int * bpp as int
                },
                Err(e) => {
                    &&& (e == Error::DeviceGone || e == Error::InvalidData)
                    &&& e == Error::DeviceGone <==> !self.alive
                    &&& e == Error::InvalidData ==> !spec_allocation_adequate(
                        alloc,
                        width,
                        height,
                        bpp,
                    )
                },
            },
    {
        if !self.alive {
            return Err(Error::DeviceGone);
        }
        match buftype {
            BufferType::Dumb => Buffer::new(self.handle(), width, height, bpp, alloc),
        }
    }

    /// Returns the discovered connectors, in enumeration order.
    pub fn connectors(&self) -> (r: &Vec<Connector>)
        ensures
            r == &self.connectors,
    {
        &self.connectors
    }

    /// Returns the discovered CRTCs, in enumeration order.
    pub fn crtcs(&self) -> (r: &Vec<Crtc>)
        ensures
            r == &self.crtcs,
    {
        &self.crtcs
    }

    /// Returns the discovered encoders, in enumeration order.
    pub fn encoders(&self) -> (r: &Vec<Encoder>)
        ensures
            r == &self.encoders,
    {
        &self.encoders
    }

    /// Returns the discovered planes, in enumeration order.
    pub fn planes(&self) -> (r: &Vec<Plane>)
        ensures
            r == &self.planes,
    {
        &self.planes
    }

    /// Resolves one display path for a connector, first-fit: the first
    /// encoder the connector reports reachable, in device discovery
    /// order, then the first CRTC that encoder can drive. No global
    /// matching across several outputs is attempted; two outputs resolved
    /// independently may pick the same CRTC.
    ///
    /// Fails with [`Error::DeviceGone`] if the device was destroyed, and
    /// with [`Error::NotFound`] if the connector has no reachable encoder
    /// or that encoder no compatible CRTC.
    pub fn output_from_connector(&self, connector: &Connector) -> (r: Result<Output, Error>)
        requires
            self.wf(),
        ensures
            match r {
                Ok(o) => {
                    let encs = spec_listed_encoders(self.encoders@, connector.encoder_ids@);
                    let crtcs = spec_mask_selected_crtcs(self.crtcs@, encs[0].possible_crtcs);
                    &&& self.spec_accessible(connector.dev)
                    &&& encs.len() > 0
                    &&& crtcs.len() > 0
                    &&& o.encoder == encs[0]
                    &&& o.crtc == crtcs[0]
                    &&& o.dev == (DeviceHandle { token: self.token })
                    &&& crate::connector::spec_connector_eq(o.connector, *connector)
                },
                Err(e) => {
                    &&& (e == Error::DeviceGone || e == Error::NotFound)
                    &&& (e == Error::DeviceGone <==> !self.spec_accessible(connector.dev))
                    &&& e == Error::NotFound ==> {
                        let encs = spec_listed_encoders(self.encoders@, connector.encoder_ids@);
                        encs.len() == 0 || spec_mask_selected_crtcs(
                            self.crtcs@,
                            encs[0].possible_crtcs,
                        ).len() == 0
                    }
                },
            },
    {
        let encoders = match connector.encoders(self) {
            Ok(v) => v,
            Err(e) => {
                return Err(e);
            },
        };
        if encoders.len() == 0 {
            return Err(Error::NotFound);
        }
        let encoder = encoders[0];
        proof {
            lemma_listed_encoders_from(self.encoders@, connector.encoder_ids@, 0);
            let i = choose|i: int|
                0 <= i < self.encoders@.len() && self.encoders@[i] == encoder;
            assert(self.encoders@[i].dev == (DeviceHandle { token: self.token }));
        }
        let crtcs = match encoder.crtcs(self) {
            Ok(v) => v,
            Err(e) => {
                proof {
                    assert(false);
                }
                return Err(e);
            },
        };
        if crtcs.len() == 0 {
            return Err(Error::NotFound);
        }
        let crtc = crtcs[0];
        Ok(Output::new(self, &crtc, &encoder, connector))
    }
}

} // verus!
