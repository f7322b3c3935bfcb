use vstd::prelude::*;

use crate::connector::{spec_connector_eq, Connector};
use crate::crtc::{spec_bit_set, bit_set, Crtc};
use crate::device::{Device, DeviceHandle};
use crate::encoder::Encoder;
use crate::error::Error;
use crate::mode::Mode;
use crate::buffer::Framebuffer;
use crate::plane::{spec_plane_eq, Plane};
use crate::property::{spec_find_property_id, find_property_id, Property};
use crate::transaction::{assemble_request, spec_request_wf, spec_strictly_sorted, AtomicRequest,
    PropertyWrite};

verus! {

/// One resolved display path: a connector, the CRTC that scans out to it,
/// and the encoder between them, chosen once and fixed for the output's
/// lifetime.
#[derive(Debug)]
pub struct Output {
    /// Back-reference to the owning device.
    pub dev: DeviceHandle,
    /// The display sink of this path.
    pub connector: Connector,
    /// The scan-out engine of this path.
    pub crtc: Crtc,
    /// The encoder driving the connector.
    pub encoder: Encoder,
}

/// The planes of `planes` whose compatibility mask carries the discovery
/// index `idx`, in their original order.
pub open spec fn spec_mask_selected_planes(planes: Seq<Plane>, idx: usize) -> Seq<Plane>
    decreases planes.len(),
{
    if planes.len() == 0 {
        Seq::empty()
    } else {
        let prefix = spec_mask_selected_planes(planes.drop_last(), idx);
        if spec_bit_set(planes.last().possible_crtcs, idx) {
            prefix.push(planes.last())
        } else {
            prefix
        }
    }
}

impl Output {
    pub(crate) fn new(device: &Device, crtc: &Crtc, encoder: &Encoder, connector: &Connector) -> (r:
        Self)
        ensures
            r.dev == (DeviceHandle { token: device.token }),
            r.crtc == *crtc,
            r.encoder == *encoder,
            spec_connector_eq(r.connector, *connector),
    {
        Output {
            dev: device.handle(),
            connector: connector.clone(),
            crtc: *crtc,
            encoder: *encoder,
        }
    }

    /// Returns the backing CRTC, consuming the output.
    pub fn crtc(self) -> (r: Crtc)
        ensures
            r == self.crtc,
    {
        self.crtc
    }

    /// Returns the planes that can be blended by this output's CRTC: those
    /// whose compatibility mask carries the CRTC's discovery index.
    ///
    /// Fails with [`Error::DeviceGone`] if the owning device was destroyed.
    #[verifier::loop_isolation(false)]
    pub fn planes(&self, dev: &Device) -> (r: Result<Vec<Plane>, Error>)
        ensures
            match r {
                Ok(v) => {
                    let selected = spec_mask_selected_planes(dev.planes@, self.crtc.idx);
                    &&& dev.spec_accessible(self.dev)
                    &&& v@.len() == selected.len()
                    &&& forall|i: int|
                        0 <= i < v@.len() ==> spec_plane_eq(#[trigger] v@[i], selected[i])
                },
                Err(e) => e == Error::DeviceGone && !dev.spec_accessible(self.dev),
            },
    {
        if !dev.accessible(self.dev) {
            return Err(Error::DeviceGone);
        }
        let idx = self.crtc.index();
        let all = dev.planes();
        let n = all.len();
        let mut out: Vec<Plane> = Vec::new();
        let mut i: usize = 0;
        while i < n
            invariant
                i <= n,
                n == all@.len(),
                idx == self.crtc.idx,
                out@.len() == spec_mask_selected_planes(all@.take(i as int), idx).len(),
                forall|k: int|
                    0 <= k < out@.len() ==> spec_plane_eq(
                        #[trigger] out@[k],
                        spec_mask_selected_planes(all@.take(i as int), idx)[k],
                    ),
            decreases n - i,
        {
            proof {
                assert(all@.take(i + 1 as int).drop_last() =~= all@.take(i as int));
                assert(all@.take(i + 1 as int).last() == all@[i as int]);
            }
            if bit_set(all[i].possible_crtcs, idx) {
                out.push(all[i].clone());
            }
            i += 1;
        }
        proof {
            assert(all@.take(n as int) =~= all@);
        }
        Ok(out)
    }

    /// Starts an update of this output: an empty accumulation of property
    /// writes to be committed in one atomic transaction.
    pub fn start_update(self) -> (r: Update)
        ensures
            r.output == self,
            r.mode is None,
            r.connector is None,
            r.planes@ =~= Seq::<PlaneUpdate>::empty(),
    {
        Update { mode: None, output: self, connector: None, planes: Vec::new() }
    }
}

/// One pending symbolic property write: a name to be resolved at commit
/// time, and the value to write.
#[derive(Debug)]
pub struct PendingProperty {
    /// The property name, resolved per object at commit time.
    pub name: String,
    /// The value to write.
    pub value: u64,
}

/// The mathematical content of a pending write list: (name, value) pairs.
pub open spec fn spec_pending_view(s: Seq<PendingProperty>) -> Seq<(Seq<char>, u64)> {
    Seq::new(s.len(), |i: int| (s[i].name@, s[i].value))
}

/// The first index at which `name` occurs in the pending list, or the list
/// length when it does not occur.
pub open spec fn spec_pending_index(s: Seq<(Seq<char>, u64)>, name: Seq<char>) -> int
    decreases s.len(),
{
    if s.len() == 0 {
        0
    } else if s[0].0 == name {
        0
    } else {
        1 + spec_pending_index(s.drop_first(), name)
    }
}

/// A pending list after one symbolic write: the value under `name` is
/// replaced if the name is already pending, appended otherwise — the last
/// write for a given name wins.
pub open spec fn spec_set_pending(
    s: Seq<(Seq<char>, u64)>,
    name: Seq<char>,
    val: u64,
) -> Seq<(Seq<char>, u64)> {
    let i = spec_pending_index(s, name);
    if i < s.len() {
        s.update(i, (s[i].0, val))
    } else {
        s.push((name, val))
    }
}

proof fn lemma_pending_index_skip(s: Seq<(Seq<char>, u64)>, name: Seq<char>, i: int)
    requires
        0 <= i <= s.len(),
        forall|j: int| 0 <= j < i ==> (#[trigger] s[j]).0 != name,
    ensures
        spec_pending_index(s, name) == i + spec_pending_index(s.skip(i), name),
    decreases i,
{
    if i > 0 {
        assert(s.skip(i - 1).drop_first() =~= s.skip(i));
        lemma_pending_index_skip(s, name, i - 1);
        assert(s.skip(i - 1)[0] == s[i - 1]);
    } else {
        assert(s.skip(0) =~= s);
    }
}

/// Records one symbolic write into a pending list, replacing the value of
/// an already-pending name and appending a new one.
#[verifier::loop_isolation(false)]
fn set_pending(props: Vec<PendingProperty>, name: &str, val: u64) -> (r: Vec<PendingProperty>)
    ensures
        spec_pending_view(r@) == spec_set_pending(spec_pending_view(props@), name@, val),
{
    let ghost view = spec_pending_view(props@);
    let query: String = name.to_owned();
    let mut props = props;
    let n = props.len();
    let mut i: usize = 0;
    while i < n
        invariant
            n == props@.len(),
            i <= n,
            query@ == name@,
            spec_pending_view(props@) == view,
            forall|j: int| 0 <= j < i ==> (#[trigger] view[j]).0 != name@,
        decreases n - i,
    {
        if props[i].name == query {
            proof {
                assert(view[i as int].0 == name@);
                lemma_pending_index_skip(view, name@, i as int);
                assert(view.skip(i as int)[0] == view[i as int]);
                assert(spec_pending_index(view, name@) == i as int);
            }
            let kept = props[i].name.clone();
            let ghost before = props@;
            props.set(i, PendingProperty { name: kept, value: val });
            proof {
                assert(spec_pending_view(props@) =~= spec_set_pending(view, name@, val));
            }
            return props;
        }
        proof {
            assert(view[i as int].0 == props@[i as int].name@);
        }
        i += 1;
    }
    proof {
        lemma_pending_index_skip(view, name@, n as int);
        assert(view.skip(n as int) =~= Seq::<(Seq<char>, u64)>::empty());
        assert(spec_pending_index(view, name@) == n as int);
    }
    props.push(PendingProperty { name: query, value: val });
    proof {
        assert(spec_pending_view(props@) =~= spec_set_pending(view, name@, val));
    }
    props
}

/// A pending state update for one KMS object: a name-to-value map of
/// property writes, resolved and staged at commit time.
pub trait ObjectUpdate: Sized {
    /// The ID of the target object, at the specification level.
    spec fn spec_target_id(&self) -> u32;

    /// The pending writes, at the specification level.
    spec fn spec_pending(&self) -> Seq<PendingProperty>;

    /// Records a property write into the pending update. Recording is pure
    /// accumulation: the target never changes, and the last write for a
    /// given name wins.
    fn set_property(self, property: &str, val: u64) -> (r: Self)
        ensures
            r.spec_target_id() == self.spec_target_id(),
            spec_pending_view(r.spec_pending()) == spec_set_pending(
                spec_pending_view(self.spec_pending()),
                property@,
                val,
            ),
    ;
}

/// A pending state update for a connector.
#[derive(Debug)]
pub struct ConnectorUpdate {
    /// The connector the update targets.
    pub connector: Connector,
    /// The pending property writes.
    pub properties: Vec<PendingProperty>,
}

impl ConnectorUpdate {
    /// Starts an empty update of one connector.
    pub fn new(connector: &Connector) -> (r: Self)
        ensures
            spec_connector_eq(r.connector, *connector),
            r.properties@ =~= Seq::<PendingProperty>::empty(),
    {
        ConnectorUpdate { connector: connector.clone(), properties: Vec::new() }
    }
}

impl ObjectUpdate for ConnectorUpdate {
    open spec fn spec_target_id(&self) -> u32 {
        self.connector.id
    }

    open spec fn spec_pending(&self) -> Seq<PendingProperty> {
        self.properties@
    }

    fn set_property(self, property: &str, val: u64) -> (r: Self) {
        ConnectorUpdate {
            connector: self.connector,
            properties: set_pending(self.properties, property, val),
        }
    }
}

/// A pending state update for a plane.
#[derive(Debug)]
pub struct PlaneUpdate {
    /// The plane the update targets.
    pub plane: Plane,
    /// The pending property writes.
    pub properties: Vec<PendingProperty>,
}

impl PlaneUpdate {
    /// Starts an empty update of one plane.
    pub fn new(plane: &Plane) -> (r: Self)
        ensures
            spec_plane_eq(r.plane, *plane),
            r.properties@ =~= Seq::<PendingProperty>::empty(),
    {
        PlaneUpdate { plane: plane.clone(), properties: Vec::new() }
    }

    /// Attaches a framebuffer to the pending update: a symbolic write of
    /// the `"FB_ID"` property to the framebuffer's scan-out ID.
    pub fn set_framebuffer(self, fb: &Framebuffer) -> (r: Self)
        ensures
            r.plane == self.plane,
            spec_pending_view(r.properties@) == spec_set_pending(
                spec_pending_view(self.properties@),
                "FB_ID"@,
                fb.id as u64,
            ),
    {
        let id = fb.id();
        self.set_property("FB_ID", id as u64)
    }

    /// Records the display-rectangle coordinates: plain-integer writes of
    /// `"CRTC_X"` and `"CRTC_Y"`.
    pub fn set_display_coordinates(self, x: usize, y: usize) -> (r: Self)
        ensures
            r.plane == self.plane,
            spec_pending_view(r.properties@) == spec_set_pending(
                spec_set_pending(spec_pending_view(self.properties@), "CRTC_X"@, x as u64),
                "CRTC_Y"@,
                y as u64,
            ),
    {
        self.set_property("CRTC_X", x as u64).set_property("CRTC_Y", y as u64)
    }

    /// Records the display-rectangle size: plain-integer writes of
    /// `"CRTC_H"` and `"CRTC_W"`.
    pub fn set_display_size(self, width: usize, height: usize) -> (r: Self)
        ensures
            r.plane == self.plane,
            spec_pending_view(r.properties@) == spec_set_pending(
                spec_set_pending(spec_pending_view(self.properties@), "CRTC_H"@, height as u64),
                "CRTC_W"@,
                width as u64,
            ),
    {
        self.set_property("CRTC_H", height as u64).set_property("CRTC_W", width as u64)
    }

    /// Records one symbolic property write; the last write for a given
    /// name wins.
    pub fn set_property(self, property: &str, val: u64) -> (r: Self)
        ensures
            r.plane == self.plane,
            spec_pending_view(r.properties@) == spec_set_pending(
                spec_pending_view(self.properties@),
                property@,
                val,
            ),
    {
        PlaneUpdate {
            plane: self.plane,
            properties: set_pending(self.properties, property, val),
        }
    }
}

/// The property tables of one object, as introspected for a commit: the
/// kernel resolves numbers, not names, so every symbolic write is looked
/// up in the table of its target object.
#[derive(Debug)]
pub struct ObjectProperties {
    /// The object the table belongs to.
    pub object_id: u32,
    /// The properties currently attached to that object.
    pub properties: Vec<Property>,
}

/// Everything a commit needs besides the update itself: a property table
/// for every object the update touches, and — when a mode is to be set —
/// the ID of the kernel-side blob holding the new timing.
#[derive(Debug)]
pub struct CommitContext {
    /// Property tables, one per touched object.
    pub tables: Vec<ObjectProperties>,
    /// The blob ID for the pending mode, if one was created.
    pub mode_blob_id: Option<u32>,
}

/// The property table of the first entry for `oid`, if any.
pub open spec fn spec_find_table(tables: Seq<ObjectProperties>, oid: u32) -> Option<Seq<Property>>
    decreases tables.len(),
{
    if tables.len() == 0 {
        None
    } else if tables[0].object_id == oid {
        Some(tables[0].properties@)
    } else {
        spec_find_table(tables.drop_first(), oid)
    }
}

proof fn lemma_find_table_skip(tables: Seq<ObjectProperties>, oid: u32, i: int)
    requires
        0 <= i <= tables.len(),
        forall|j: int| 0 <= j < i ==> (#[trigger] tables[j]).object_id != oid,
    ensures
        spec_find_table(tables, oid) == spec_find_table(tables.skip(i), oid),
    decreases i,
{
    if i > 0 {
        assert(tables.skip(i - 1).drop_first() =~= tables.skip(i));
        lemma_find_table_skip(tables, oid, i - 1);
        assert(tables.skip(i - 1)[0] == tables[i - 1]);
    } else {
        assert(tables.skip(0) =~= tables);
    }
}

/// Linearly scans the commit context for the table of one object.
#[verifier::loop_isolation(false)]
fn find_table<'a>(tables: &'a Vec<ObjectProperties>, oid: u32) -> (r: Option<&'a Vec<Property>>)
    ensures
        match r {
            Some(t) => spec_find_table(tables@, oid) == Some(t@),
            None => spec_find_table(tables@, oid) is None,
        },
{
    let n = tables.len();
    let mut i: usize = 0;
    while i < n
        invariant
            n == tables@.len(),
            i <= n,
            forall|j: int| 0 <= j < i ==> (#[trigger] tables@[j]).object_id != oid,
        decreases n - i,
    {
        if tables[i].object_id == oid {
            proof {
                lemma_find_table_skip(tables@, oid, i as int);
                assert(tables@.skip(i as int)[0] == tables@[i as int]);
            }
            return Some(&tables[i].properties);
        }
        i += 1;
    }
    proof {
        lemma_find_table_skip(tables@, oid, n as int);
    }
    None
}

/// Whether every pending name of the view resolves on the table.
pub open spec fn spec_pending_resolvable(
    table: Seq<Property>,
    pending: Seq<(Seq<char>, u64)>,
) -> bool {
    forall|i: int|
        0 <= i < pending.len() ==> spec_find_property_id(
            table,
            (#[trigger] pending[i]).0,
        ) is Some
}

/// The writes staged for one object update: first the object's
/// `"CRTC_ID"` property set to the output's CRTC, then every pending
/// (name, value) pair, resolved on the object's table, in pending order.
/// Meaningful when every name resolves.
pub open spec fn spec_object_writes(
    oid: u32,
    table: Seq<Property>,
    pending: Seq<(Seq<char>, u64)>,
    crtc_oid: u32,
) -> Seq<PropertyWrite> {
    seq![
        PropertyWrite {
            object_id: oid,
            property_id: spec_find_property_id(table, "CRTC_ID"@).unwrap(),
            value: crtc_oid as u64,
        },
    ] + Seq::new(pending.len(), |i: int| PropertyWrite {
        object_id: oid,
        property_id: spec_find_property_id(table, pending[i].0).unwrap(),
        value: pending[i].1,
    })
}

/// The writes staged for a list of plane updates, in order.
pub open spec fn spec_planes_writes(
    planes: Seq<PlaneUpdate>,
    tables: Seq<ObjectProperties>,
    crtc_oid: u32,
) -> Seq<PropertyWrite>
    decreases planes.len(),
{
    if planes.len() == 0 {
        Seq::empty()
    } else {
        spec_planes_writes(planes.drop_last(), tables, crtc_oid) + spec_object_writes(
            planes.last().plane.id,
            spec_find_table(tables, planes.last().plane.id).unwrap(),
            spec_pending_view(planes.last().properties@),
            crtc_oid,
        )
    }
}

/// Whether one object update can be fully resolved on its table:
/// `"CRTC_ID"` and every pending name exist on the object.
pub open spec fn spec_object_resolvable(
    table: Seq<Property>,
    pending: Seq<(Seq<char>, u64)>,
) -> bool {
    &&& spec_find_property_id(table, "CRTC_ID"@) is Some
    &&& spec_pending_resolvable(table, pending)
}

/// An accumulated update of one output, committed as one atomic
/// transaction: an optional new mode, an optional connector update, and
/// any number of plane updates.
///
/// Accumulation is monotonic and performs no communication; everything is
/// resolved and staged at commit time.
#[derive(Debug)]
pub struct Update {
    /// The mode to set, if any.
    pub mode: Option<Mode>,
    /// The output being updated.
    pub output: Output,
    /// The pending connector update, if any.
    pub connector: Option<ConnectorUpdate>,
    /// The pending plane updates, in order of addition.
    pub planes: Vec<PlaneUpdate>,
}

impl Update {
    /// Whether the commit context holds a property table for every object
    /// this update touches, and a blob for the mode when one is pending.
    /// Anything missing is an I/O-class failure: the facade could not
    /// supply what the commit needs.
    pub open spec fn spec_tables_ok(self, ctx: CommitContext) -> bool {
        &&& spec_find_table(ctx.tables@, self.output.crtc.id) is Some
        &&& forall|i: int|
            0 <= i < self.planes@.len() ==> spec_find_table(
                ctx.tables@,
                (#[trigger] self.planes@[i]).plane.id,
            ) is Some
        &&& match self.connector {
            Some(cu) => spec_find_table(ctx.tables@, cu.connector.id) is Some,
            None => true,
        }
        &&& self.mode is Some ==> ctx.mode_blob_id is Some
    }

    /// Whether every property name this update stages resolves on its
    /// object: `"ACTIVE"` (and `"MODE_ID"` when a mode is pending) on the
    /// CRTC, and `"CRTC_ID"` plus every pending name on each plane and on
    /// the connector. Meaningful when the tables are present.
    pub open spec fn spec_names_ok(self, ctx: CommitContext) -> bool {
        let crtc_table = spec_find_table(ctx.tables@, self.output.crtc.id).unwrap();
        &&& spec_find_property_id(crtc_table, "ACTIVE"@) is Some
        &&& self.mode is Some ==> spec_find_property_id(crtc_table, "MODE_ID"@) is Some
        &&& forall|i: int|
            0 <= i < self.planes@.len() ==> spec_object_resolvable(
                spec_find_table(ctx.tables@, (#[trigger] self.planes@[i]).plane.id).unwrap(),
                spec_pending_view(self.planes@[i].properties@),
            )
        &&& match self.connector {
            Some(cu) => spec_object_resolvable(
                spec_find_table(ctx.tables@, cu.connector.id).unwrap(),
                spec_pending_view(cu.properties@),
            ),
            None => true,
        }
    }

    /// Every write this update stages, in staging order: the plane writes,
    /// the CRTC's `"ACTIVE"` set to 1, the CRTC's `"MODE_ID"` set to the
    /// mode blob when a mode is pending, and the connector writes.
    /// Meaningful when tables and names resolve.
    pub open spec fn spec_staged_writes(self, ctx: CommitContext) -> Seq<PropertyWrite> {
        let crtc_oid = self.output.crtc.id;
        let crtc_table = spec_find_table(ctx.tables@, crtc_oid).unwrap();
        spec_planes_writes(self.planes@, ctx.tables@, crtc_oid) + seq![
            PropertyWrite {
                object_id: crtc_oid,
                property_id: spec_find_property_id(crtc_table, "ACTIVE"@).unwrap(),
                value: 1,
            },
        ] + (match self.mode {
            Some(_) => seq![
                PropertyWrite {
                    object_id: crtc_oid,
                    property_id: spec_find_property_id(crtc_table, "MODE_ID"@).unwrap(),
                    value: ctx.mode_blob_id.unwrap() as u64,
                },
            ],
            None => Seq::empty(),
        }) + (match self.connector {
            Some(cu) => spec_object_writes(
                cu.connector.id,
                spec_find_table(ctx.tables@, cu.connector.id).unwrap(),
                spec_pending_view(cu.properties@),
                crtc_oid,
            ),
            None => Seq::empty(),
        })
    }

    /// Records a connector update; a later one replaces an earlier one.
    pub fn add_connector(self, connector: ConnectorUpdate) -> (r: Self)
        ensures
            r.mode == self.mode,
            r.output == self.output,
            r.planes == self.planes,
            r.connector == Some(connector),
    {
        Update {
            mode: self.mode,
            output: self.output,
            connector: Some(connector),
            planes: self.planes,
        }
    }

    /// Records one more plane update; earlier ones are kept.
    pub fn add_plane(self, plane: PlaneUpdate) -> (r: Self)
        ensures
            r.mode == self.mode,
            r.output == self.output,
            r.connector == self.connector,
            r.planes@ == self.planes@.push(plane),
    {
        let mut planes = self.planes;
        planes.push(plane);
        Update { mode: self.mode, output: self.output, connector: self.connector, planes }
    }

    /// Records the mode to set; a later one replaces an earlier one.
    pub fn set_mode(self, mode: Mode) -> (r: Self)
        ensures
            r.mode == Some(mode),
            r.output == self.output,
            r.connector == self.connector,
            r.planes == self.planes,
    {
        Update {
            mode: Some(mode),
            output: self.output,
            connector: self.connector,
            planes: self.planes,
        }
    }

    /// Commits the accumulated update: resolves every pending name to a
    /// property ID on its object, stages the writes, and flattens them
    /// into one atomic request carrying the four object-grouped arrays.
    /// On success the output comes back unchanged, ready for the next
    /// update; on any failure nothing is handed out.
    ///
    /// Fails with [`Error::DeviceGone`] if the owning device was
    /// destroyed; with [`Error::Io`] if the context lacks a property table
    /// for a touched object or the blob for a pending mode; with
    /// [`Error::NotFound`] if a staged property name does not exist on its
    /// object; and with [`Error::OutOfRange`] if the distinct writes
    /// overflow the transaction's 32-bit counters.
    #[verifier::loop_isolation(false)]
    pub fn commit(self, dev: &Device, ctx: &CommitContext) -> (r: Result<
        (Output, AtomicRequest),
        Error,
    >)
        ensures
            r == Err::<(Output, AtomicRequest), Error>(Error::DeviceGone) <==> !dev.spec_accessible(
                self.output.dev,
            ),
            dev.spec_accessible(self.output.dev) ==> (r == Err::<(Output, AtomicRequest), Error>(
                Error::Io,
            ) <==> !self.spec_tables_ok(*ctx)),
            dev.spec_accessible(self.output.dev) && self.spec_tables_ok(*ctx) ==> (r == Err::<
                (Output, AtomicRequest),
                Error,
            >(Error::NotFound) <==> !self.spec_names_ok(*ctx)),
            dev.spec_accessible(self.output.dev) && self.spec_tables_ok(*ctx)
                && self.spec_names_ok(*ctx) ==> {
                let staged = self.spec_staged_writes(*ctx);
                &&& (r == Err::<(Output, AtomicRequest), Error>(Error::OutOfRange) <==> staged
                    .to_set().len() > 0xffff_ffff)
                &&& (staged.to_set().len() <= 0xffff_ffff ==> r is Ok)
                &&& match r {
                    Ok((out, req)) => {
                        &&& out == self.output
                        &&& spec_strictly_sorted(req.writes@)
                        &&& req.writes@.to_set() == staged.to_set()
                        &&& req.writes@.len() == staged.to_set().len()
                        &&& spec_request_wf(req)
                    },
                    Err(_) => true,
                }
            },
    {
        if !dev.accessible(self.output.dev) {
            return Err(Error::DeviceGone);
        }
        let crtc_oid = self.output.crtc.id;

        // Every property table the update needs, before anything is staged:
        // a missing table is a failed introspection, an I/O-class fault.
        let crtc_table = match find_table(&ctx.tables, crtc_oid) {
            Some(t) => t,
            None => {
                return Err(Error::Io);
            },
        };
        let n_planes = self.planes.len();
        let mut i: usize = 0;
        while i < n_planes
            invariant
                n_planes == self.planes@.len(),
                i <= n_planes,
                forall|j: int|
                    0 <= j < i ==> spec_find_table(
                        ctx.tables@,
                        (#[trigger] self.planes@[j]).plane.id,
                    ) is Some,
            decreases n_planes - i,
        {
            if find_table(&ctx.tables, self.planes[i].plane.id).is_none() {
                return Err(Error::Io);
            }
            i += 1;
        }
        match &self.connector {
            Some(cu) => {
                if find_table(&ctx.tables, cu.connector.id).is_none() {
                    return Err(Error::Io);
                }
            },
            None => (),
        }
        let blob_id: u32 = match (&self.mode, &ctx.mode_blob_id) {
            (Some(_), Some(b)) => *b,
            (Some(_), None) => {
                return Err(Error::Io);
            },
            (None, _) => 0,
        };
        assert(self.spec_tables_ok(*ctx));

        // Stage the plane writes, resolving each name on its plane.
        let mut writes: Vec<PropertyWrite> = Vec::new();
        let mut i: usize = 0;
        while i < n_planes
            invariant
                n_planes == self.planes@.len(),
                i <= n_planes,
                self.spec_tables_ok(*ctx),
                writes@ == spec_planes_writes(self.planes@.take(i as int), ctx.tables@, crtc_oid),
                forall|j: int|
                    0 <= j < i ==> spec_object_resolvable(
                        spec_find_table(
                            ctx.tables@,
                            (#[trigger] self.planes@[j]).plane.id,
                        ).unwrap(),
                        spec_pending_view(self.planes@[j].properties@),
                    ),
            decreases n_planes - i,
        {
            let plane_id = self.planes[i].plane.id;
            let table = match find_table(&ctx.tables, plane_id) {
                Some(t) => t,
                None => {
                    proof {
                        assert(false);
                    }
                    return Err(Error::Io);
                },
            };
            let staged = match stage_object(plane_id, table, &self.planes[i].properties, crtc_oid) {
                Ok(w) => w,
                Err(e) => {
                    return Err(e);
                },
            };
            extend_writes(&mut writes, &staged);
            proof {
                assert(self.planes@.take(i + 1 as int).drop_last() =~= self.planes@.take(i as int));
                assert(self.planes@.take(i + 1 as int).last() == self.planes@[i as int]);
            }
            i += 1;
        }
        proof {
            assert(self.planes@.take(n_planes as int) =~= self.planes@);
        }

        // The CRTC is activated unconditionally.
        let active_id = match find_property_id(crtc_table, "ACTIVE") {
            Some(p) => p,
            None => {
                return Err(Error::NotFound);
            },
        };
        writes.push(PropertyWrite { object_id: crtc_oid, property_id: active_id, value: 1 });

        // A pending mode becomes a write of the CRTC's "MODE_ID" to the
        // blob holding the new timing.
        match &self.mode {
            Some(_) => {
                let mode_prop_id = match find_property_id(crtc_table, "MODE_ID") {
                    Some(p) => p,
                    None => {
                        return Err(Error::NotFound);
                    },
                };
                writes.push(PropertyWrite {
                    object_id: crtc_oid,
                    property_id: mode_prop_id,
                    value: blob_id as u64,
                });
            },
            None => (),
        }

        // The connector update, staged like a plane update.
        match &self.connector {
            Some(cu) => {
                let table = match find_table(&ctx.tables, cu.connector.id) {
                    Some(t) => t,
                    None => {
                        proof {
                            assert(false);
                        }
                        return Err(Error::Io);
                    },
                };
                let staged = match stage_object(cu.connector.id, table, &cu.properties, crtc_oid) {
                    Ok(w) => w,
                    Err(e) => {
                        return Err(e);
                    },
                };
                extend_writes(&mut writes, &staged);
            },
            None => (),
        }
        assert(self.spec_names_ok(*ctx));
        assert(writes@ =~= self.spec_staged_writes(*ctx));

        match assemble_request(writes) {
            Ok(req) => Ok((self.output, req)),
            Err(e) => Err(e),
        }
    }
}

/// A commit with a pending symbolic name that does not resolve on its
/// target object fails with the not-found class and hands nothing out:
/// under a live device and complete property tables, whatever `commit`
/// returned for an update whose names do not all resolve is exactly
/// `Err(NotFound)` — no output, no request.
pub proof fn lemma_commit_unresolved_name_is_not_found(
    u: Update,
    dev: &Device,
    ctx: &CommitContext,
    r: Result<(Output, AtomicRequest), Error>,
)
    requires
        call_ensures(Update::commit, (u, dev, ctx), r),
        dev.spec_accessible(u.output.dev),
        u.spec_tables_ok(*ctx),
        !u.spec_names_ok(*ctx),
    ensures
        r == Err::<(Output, AtomicRequest), Error>(Error::NotFound),
{
}

/// Appends a copy of `src` to `dst`.
#[verifier::loop_isolation(false)]
fn extend_writes(dst: &mut Vec<PropertyWrite>, src: &Vec<PropertyWrite>)
    ensures
        final (dst)@ == old(dst)@ + src@,
{
    let n = src.len();
    let mut i: usize = 0;
    while i < n
        invariant
            n == src@.len(),
            i <= n,
            dst@ == old(dst)@ + src@.take(i as int),
        decreases n - i,
    {
        proof {
            assert(old(dst)@ + src@.take(i + 1 as int) =~= (old(dst)@ + src@.take(i as int)).push(
                src@[i as int],
            ));
        }
        dst.push(src[i]);
        i += 1;
    }
    proof {
        assert(src@.take(n as int) =~= src@);
    }
}

/// Resolves and stages the writes of one object update: the object's
/// `"CRTC_ID"` first, then every pending name in order. Fails with
/// [`Error::NotFound`] as soon as a name does not exist on the object.
#[verifier::loop_isolation(false)]
fn stage_object(oid: u32, table: &Vec<Property>, pending: &Vec<PendingProperty>, crtc_oid: u32) -> (r:
    Result<Vec<PropertyWrite>, Error>)
    ensures
        match r {
            Ok(w) => spec_object_resolvable(table@, spec_pending_view(pending@)) && w@
                == spec_object_writes(oid, table@, spec_pending_view(pending@), crtc_oid),
            Err(e) => e == Error::NotFound && !spec_object_resolvable(
                table@,
                spec_pending_view(pending@),
            ),
        },
{
    let ghost view = spec_pending_view(pending@);
    let crtc_prop_id = match find_property_id(table, "CRTC_ID") {
        Some(p) => p,
        None => {
            return Err(Error::NotFound);
        },
    };
    let mut w: Vec<PropertyWrite> = Vec::new();
    w.push(PropertyWrite { object_id: oid, property_id: crtc_prop_id, value: crtc_oid as u64 });
    let n = pending.len();
    let mut i: usize = 0;
    while i < n
        invariant
            n == pending@.len(),
            i <= n,
            view == spec_pending_view(pending@),
            crtc_prop_id == spec_find_property_id(table@, "CRTC_ID"@).unwrap(),
            spec_find_property_id(table@, "CRTC_ID"@) is Some,
            w@.len() == i + 1,
            w@[0] == (PropertyWrite {
                object_id: oid,
                property_id: crtc_prop_id,
                value: crtc_oid as u64,
            }),
            forall|k: int|
                0 <= k < i ==> spec_find_property_id(table@, (#[trigger] view[k]).0) is Some,
            forall|k: int|
                0 <= k < i ==> w@[k + 1] == (PropertyWrite {
                    object_id: oid,
                    property_id: spec_find_property_id(table@, (#[trigger] view[k]).0).unwrap(),
                    value: view[k].1,
                }),
        decreases n - i,
    {
        let pid = match find_property_id(table, pending[i].name.as_str()) {
            Some(p) => p,
            None => {
                proof {
                    assert(view[i as int].0 == pending@[i as int].name@);
                    assert(!spec_pending_resolvable(table@, view));
                }
                return Err(Error::NotFound);
            },
        };
        proof {
            assert(view[i as int].0 == pending@[i as int].name@);
        }
        w.push(PropertyWrite { object_id: oid, property_id: pid, value: pending[i].value });
        i += 1;
    }
    proof {
        assert(w@ =~= spec_object_writes(oid, table@, view, crtc_oid));
    }
    Ok(w)
}

} // verus!
