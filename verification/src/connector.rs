use vstd::prelude::*;

use crate::device::{Device, DeviceHandle};
use crate::encoder::Encoder;
use crate::error::Error;
use crate::mode::{spec_has_type, Mode, ModeInfo};
use crate::object::Object;
use crate::raw::{drm_connector_status, drm_mode_connector_type, drm_mode_object_type,
    drm_mode_type};

verus! {

/// What the kernel reports for one connector. The kind, kind-local index,
/// physical size and reachable-encoder list are static; the connection
/// status and the mode list can change at runtime (hot-plug) and are only
/// meaningful in a response to a live query.
#[derive(Debug)]
pub struct ConnectorInfo {
    /// The kernel-assigned object ID.
    pub connector_id: u32,
    /// The numeric connector-kind code; see [`drm_mode_connector_type`].
    pub connector_type: u32,
    /// The index of this connector within its kind.
    pub connector_type_id: u32,
    /// The numeric connection-status code; see [`drm_connector_status`].
    pub connection: u32,
    /// Physical width of the sink, in millimetres.
    pub mm_width: u32,
    /// Physical height of the sink, in millimetres.
    pub mm_height: u32,
    /// The object IDs of the encoders this connector can be driven by.
    pub encoder_ids: Vec<u32>,
    /// The modes the sink currently advertises.
    pub modes: Vec<ModeInfo>,
}

/// A display sink: a physical or virtual attachment point for a display.
///
/// Static capability data is stored at discovery time; the connection
/// status and supported modes are never cached because they change at
/// runtime, and are decoded from a fresh query response instead.
#[derive(Debug)]
pub struct Connector {
    /// Back-reference to the owning device.
    pub dev: DeviceHandle,
    /// The kernel-assigned object ID.
    pub id: u32,
    /// The connector kind.
    pub type_: drm_mode_connector_type,
    /// The index of this connector within its kind.
    pub type_id: u32,
    /// Physical width of the sink, in millimetres.
    pub mm_width: u32,
    /// Physical height of the sink, in millimetres.
    pub mm_height: u32,
    /// The object IDs of the encoders that can drive this connector.
    pub encoder_ids: Vec<u32>,
}

impl Clone for Connector {
    fn clone(&self) -> (r: Self)
        ensures
            spec_connector_eq(r, *self),
    {
        Connector {
            dev: self.dev,
            id: self.id,
            type_: self.type_,
            type_id: self.type_id,
            mm_width: self.mm_width,
            mm_height: self.mm_height,
            encoder_ids: copy_ids(&self.encoder_ids),
        }
    }
}

/// Copies a list of object IDs.
fn copy_ids(ids: &Vec<u32>) -> (r: Vec<u32>)
    ensures
        r@ == ids@,
{
    let n = ids.len();
    let mut out: Vec<u32> = Vec::new();
    let mut i: usize = 0;
    while i < n
        invariant
            n == ids@.len(),
            i <= n,
            out@ =~= ids@.take(i as int),
        decreases n - i,
    {
        out.push(ids[i]);
        i += 1;
    }
    proof {
        assert(ids@.take(n as int) =~= ids@);
    }
    out
}

/// Whether `ids` holds `id`.
fn ids_contain(ids: &Vec<u32>, id: u32) -> (r: bool)
    ensures
        r == ids@.contains(id),
{
    let n = ids.len();
    let mut i: usize = 0;
    while i < n
        invariant
            n == ids@.len(),
            i <= n,
            forall|j: int| 0 <= j < i ==> ids@[j] != id,
        decreases n - i,
    {
        if ids[i] == id {
            return true;
        }
        i += 1;
    }
    false
}

/// Field-wise equality of connectors: what a copy preserves.
pub open spec fn spec_connector_eq(a: Connector, b: Connector) -> bool {
    &&& a.dev == b.dev
    &&& a.id == b.id
    &&& a.type_ == b.type_
    &&& a.type_id == b.type_id
    &&& a.mm_width == b.mm_width
    &&& a.mm_height == b.mm_height
    &&& a.encoder_ids@ == b.encoder_ids@
}

/// Whether a connector's stored fields agree with one reported description.
pub open spec fn spec_connector_matches(c: Connector, dev: DeviceHandle, info: ConnectorInfo) -> bool {
    &&& c.dev == dev
    &&& c.id == info.connector_id
    &&& drm_mode_connector_type::spec_from_value(info.connector_type) == Some(c.type_)
    &&& c.type_id == info.connector_type_id
    &&& c.mm_width == info.mm_width
    &&& c.mm_height == info.mm_height
    &&& c.encoder_ids@ == info.encoder_ids@
}

/// The encoders of `encoders` whose ID appears in `ids`, in their original
/// (device discovery) order.
pub open spec fn spec_listed_encoders(encoders: Seq<Encoder>, ids: Seq<u32>) -> Seq<Encoder>
    decreases encoders.len(),
{
    if encoders.len() == 0 {
        Seq::empty()
    } else {
        let prefix = spec_listed_encoders(encoders.drop_last(), ids);
        if ids.contains(encoders.last().id) {
            prefix.push(encoders.last())
        } else {
            prefix
        }
    }
}

/// Every encoder selected by ID membership comes from the device's list.
pub proof fn lemma_listed_encoders_from(encoders: Seq<Encoder>, ids: Seq<u32>, k: int)
    requires
        0 <= k < spec_listed_encoders(encoders, ids).len(),
    ensures
        encoders.contains(spec_listed_encoders(encoders, ids)[k]),
    decreases encoders.len(),
{
    if encoders.len() > 0 {
        let prefix = spec_listed_encoders(encoders.drop_last(), ids);
        if k < prefix.len() {
            lemma_listed_encoders_from(encoders.drop_last(), ids, k);
            let e = prefix[k];
            let i = choose|i: int| 0 <= i < encoders.drop_last().len() && encoders.drop_last()[i] == e;
            assert(encoders[i] == e);
        } else {
            assert(encoders[encoders.len() - 1] == spec_listed_encoders(encoders, ids)[k]);
        }
    }
}

/// The first mode of `modes` whose classification carries the preferred
/// bit, if any.
pub open spec fn spec_first_preferred(modes: Seq<ModeInfo>) -> Option<ModeInfo>
    decreases modes.len(),
{
    if modes.len() == 0 {
        None
    } else if spec_has_type(modes[0].type_, drm_mode_type::Preferred) {
        Some(modes[0])
    } else {
        spec_first_preferred(modes.drop_first())
    }
}

proof fn lemma_first_preferred_prefix(modes: Seq<ModeInfo>, i: int)
    requires
        0 <= i <= modes.len(),
        forall|j: int| 0 <= j < i ==> !spec_has_type(modes[j].type_, drm_mode_type::Preferred),
    ensures
        spec_first_preferred(modes) == spec_first_preferred(modes.skip(i)),
    decreases i,
{
    if i > 0 {
        assert(modes.skip(i - 1).drop_first() =~= modes.skip(i));
        lemma_first_preferred_prefix(modes, i - 1);
    } else {
        assert(modes.skip(0) =~= modes);
    }
}

/// The modes a connector advertised in one query response.
#[derive(Debug)]
pub struct Modes {
    /// The advertised modes, in reported order.
    pub list: Vec<Mode>,
}

impl Modes {
    /// Returns how many modes were advertised.
    pub fn len(&self) -> (r: usize)
        ensures
            r == self.list@.len(),
    {
        self.list.len()
    }

    /// Returns the `i`-th advertised mode, if there is one.
    pub fn get(&self, i: usize) -> (r: Option<&Mode>)
        ensures
            match r {
                Some(m) => i < self.list@.len() && m == &self.list@[i as int],
                None => i >= self.list@.len(),
            },
    {
        if i < self.list.len() {
            Some(&self.list[i])
        } else {
            None
        }
    }

    /// Takes the advertised modes out of the wrapper.
    pub fn into_vec(self) -> (r: Vec<Mode>)
        ensures
            r@ == self.list@,
    {
        self.list
    }
}

impl Connector {
    /// Decodes one reported connector. Fails with [`Error::InvalidData`] if
    /// the connector-kind code is not a known tag.
    pub(crate) fn new(dev: DeviceHandle, info: &ConnectorInfo) -> (r: Result<Self, Error>)
        ensures
            match r {
                Ok(c) => spec_connector_matches(c, dev, *info),
                Err(e) => e == Error::InvalidData
                    && drm_mode_connector_type::spec_from_value(info.connector_type) is None,
            },
    {
        match drm_mode_connector_type::from_value(info.connector_type) {
            Some(t) => Ok(Connector {
                dev,
                id: info.connector_id,
                type_: t,
                type_id: info.connector_type_id,
                mm_width: info.mm_width,
                mm_height: info.mm_height,
                encoder_ids: copy_ids(&info.encoder_ids),
            }),
            None => Err(Error::InvalidData),
        }
    }

    /// Decodes the modes the sink advertises in a fresh query response.
    ///
    /// The list is not cached — it can change at runtime — and is not
    /// exhaustive; the hardware may accept further timings.
    ///
    /// Fails with [`Error::DeviceGone`] if the owning device was destroyed.
    pub fn modes(&self, dev: &Device, info: &ConnectorInfo) -> (r: Result<Modes, Error>)
        ensures
            match r {
                Ok(m) => dev.spec_accessible(self.dev) && m.list@.len() == info.modes@.len()
                    && forall|i: int|
                        0 <= i < info.modes@.len() ==> m.list@[i].inner == info.modes@[i],
                Err(e) => e == Error::DeviceGone && !dev.spec_accessible(self.dev),
            },
    {
        if !dev.accessible(self.dev) {
            return Err(Error::DeviceGone);
        }
        let n = info.modes.len();
        let mut list: Vec<Mode> = Vec::new();
        let mut i: usize = 0;
        while i < n
            invariant
                n == info.modes@.len(),
                i <= n,
                list@.len() == i,
                forall|j: int| 0 <= j < i ==> list@[j].inner == info.modes@[j],
            decreases n - i,
        {
            list.push(Mode::new(info.modes[i].clone()));
            i += 1;
        }
        Ok(Modes { list })
    }

    /// Returns the first advertised mode whose classification carries the
    /// preferred bit.
    ///
    /// Fails with [`Error::DeviceGone`] if the owning device was destroyed,
    /// and with [`Error::NotFound`] if no advertised mode is preferred.
    pub fn preferred_mode(&self, dev: &Device, info: &ConnectorInfo) -> (r: Result<Mode, Error>)
        ensures
            match r {
                Ok(m) => dev.spec_accessible(self.dev)
                    && spec_first_preferred(info.modes@) == Some(m.inner)
                    && spec_has_type(m.inner.type_, drm_mode_type::Preferred),
                Err(e) => {
                    &&& (e == Error::DeviceGone || e == Error::NotFound)
                    &&& e == Error::DeviceGone <==> !dev.spec_accessible(self.dev)
                    &&& e == Error::NotFound ==> spec_first_preferred(info.modes@) is None
                },
            },
    {
        if !dev.accessible(self.dev) {
            return Err(Error::DeviceGone);
        }
        let n = info.modes.len();
        let mut i: usize = 0;
        while i < n
            invariant
                n == info.modes@.len(),
                i <= n,
                dev.spec_accessible(self.dev),
                forall|j: int|
                    0 <= j < i ==> !spec_has_type(
                        info.modes@[j].type_,
                        drm_mode_type::Preferred,
                    ),
            decreases n - i,
        {
            let m = Mode::new(info.modes[i].clone());
            if m.has_type(drm_mode_type::Preferred) {
                proof {
                    lemma_first_preferred_prefix(info.modes@, i as int);
                    assert(info.modes@.skip(i as int)[0] == info.modes@[i as int]);
                    assert(spec_first_preferred(info.modes@.skip(i as int)) == Some(
                        info.modes@[i as int],
                    ));
                }
                return Ok(m);
            }
            i += 1;
        }
        proof {
            lemma_first_preferred_prefix(info.modes@, n as int);
        }
        Err(Error::NotFound)
    }

    /// Decodes the connection status from a fresh query response.
    ///
    /// Fails with [`Error::DeviceGone`] if the owning device was destroyed,
    /// and with [`Error::InvalidData`] if the status code is unknown.
    pub fn status(&self, dev: &Device, info: &ConnectorInfo) -> (r: Result<
        drm_connector_status,
        Error,
    >)
        ensures
            match r {
                Ok(s) => dev.spec_accessible(self.dev)
                    && drm_connector_status::spec_from_value(info.connection) == Some(s),
                Err(e) => {
                    &&& (e == Error::DeviceGone || e == Error::InvalidData)
                    &&& e == Error::DeviceGone <==> !dev.spec_accessible(self.dev)
                    &&& e == Error::InvalidData ==> drm_connector_status::spec_from_value(
                        info.connection,
                    ) is None
                },
            },
    {
        if !dev.accessible(self.dev) {
            return Err(Error::DeviceGone);
        }
        match drm_connector_status::from_value(info.connection) {
            Some(s) => Ok(s),
            None => Err(Error::InvalidData),
        }
    }

    /// Returns the connector kind.
    pub fn connector_type(&self) -> (r: drm_mode_connector_type)
        ensures
            r == self.type_,
    {
        self.type_
    }

    /// Returns the index of this connector within its kind.
    ///
    /// The kernel names a connector both by its global object ID and by the
    /// pair of its kind and this kind-local index.
    pub fn connector_type_id(&self) -> (r: u32)
        ensures
            r == self.type_id,
    {
        self.type_id
    }

    /// Returns the encoders of the device that can drive this connector:
    /// those whose ID appears in the connector's reachable-encoder list,
    /// in device discovery order.
    ///
    /// Fails with [`Error::DeviceGone`] if the owning device was destroyed.
    pub fn encoders(&self, dev: &Device) -> (r: Result<Vec<Encoder>, Error>)
        ensures
            match r {
                Ok(v) => dev.spec_accessible(self.dev)
                    && v@ == spec_listed_encoders(dev.encoders@, self.encoder_ids@),
                Err(e) => e == Error::DeviceGone && !dev.spec_accessible(self.dev),
            },
    {
        if !dev.accessible(self.dev) {
            return Err(Error::DeviceGone);
        }
        let all = dev.encoders();
        let n = all.len();
        let mut out: Vec<Encoder> = Vec::new();
        let mut i: usize = 0;
        while i < n
            invariant
                n == all.len(),
                i <= n,
                out@ == spec_listed_encoders(all@.take(i as int), self.encoder_ids@),
            decreases n - i,
        {
            proof {
                assert(all@.take(i + 1 as int).drop_last() =~= all@.take(i as int));
                assert(all@.take(i + 1 as int).last() == all@[i as int]);
            }
            if ids_contain(&self.encoder_ids, all[i].id) {
                out.push(all[i]);
            }
            i += 1;
        }
        proof {
            assert(all@.take(n as int) =~= all@);
        }
        Ok(out)
    }
}

impl Object for Connector {
    open spec fn spec_device(&self) -> DeviceHandle {
        self.dev
    }

    open spec fn spec_object_id(&self) -> u32 {
        self.id
    }

    open spec fn spec_object_type(&self) -> drm_mode_object_type {
        drm_mode_object_type::Connector
    }

    fn device(&self) -> DeviceHandle {
        self.dev
    }

    fn object_id(&self) -> u32 {
        self.id
    }

    fn object_type(&self) -> drm_mode_object_type {
        drm_mode_object_type::Connector
    }
}

} // verus!
