use vstd::prelude::*;

use crate::device::{Device, DeviceHandle};
use crate::error::Error;
use crate::format::{spec_format_from_code, Format};
use crate::object::{spec_properties, Object, PropertyListing};
use crate::property::{spec_find_property, find_property};
use crate::raw::drm_mode_object_type;

verus! {

/// The roles a plane can play in the blending done by a CRTC.
#[derive(Clone, Copy, Debug, PartialEq, Eq, Structural)]
pub enum PlaneType {
    /// An overlay, also called a sprite: any plane that is neither a
    /// primary nor a cursor plane.
    Overlay,
    /// The main plane a CRTC acts upon during mode setting.
    Primary,
    /// A cursor plane.
    Cursor,
}

impl PlaneType {
    /// The numeric code of a plane role, as the `"type"` property holds it.
    pub open spec fn spec_value(self) -> u32 {
        match self {
            PlaneType::Overlay => 0,
            PlaneType::Primary => 1,
            PlaneType::Cursor => 2,
        }
    }

    /// The plane role a reported code stands for, if any.
    pub open spec fn spec_from_value(v: u32) -> Option<PlaneType> {
        if v == 0 {
            Some(PlaneType::Overlay)
        } else if v == 1 {
            Some(PlaneType::Primary)
        } else if v == 2 {
            Some(PlaneType::Cursor)
        } else {
            None
        }
    }

    /// Returns the numeric code of this plane role.
    pub fn value(self) -> (r: u32)
        ensures
            r == self.spec_value(),
    {
        match self {
            PlaneType::Overlay => 0,
            PlaneType::Primary => 1,
            PlaneType::Cursor => 2,
        }
    }

    /// Decodes a reported plane-role code; out-of-range codes yield `None`.
    pub fn from_value(v: u32) -> (r: Option<PlaneType>)
        ensures
            r == Self::spec_from_value(v),
    {
        if v == 0 {
            Some(PlaneType::Overlay)
        } else if v == 1 {
            Some(PlaneType::Primary)
        } else if v == 2 {
            Some(PlaneType::Cursor)
        } else {
            None
        }
    }
}

/// The static capability data the kernel reports for one plane.
#[derive(Debug)]
pub struct PlaneInfo {
    /// The kernel-assigned object ID.
    pub plane_id: u32,
    /// Compatibility mask over CRTC discovery indices.
    pub possible_crtcs: u32,
    /// The four-character codes of the supported pixel formats.
    pub formats: Vec<u32>,
}

/// The formats of `codes` that this library knows, in reported order;
/// unknown codes are skipped.
pub open spec fn spec_known_formats(codes: Seq<u32>) -> Seq<Format>
    decreases codes.len(),
{
    if codes.len() == 0 {
        Seq::empty()
    } else {
        let prefix = spec_known_formats(codes.drop_last());
        match spec_format_from_code(codes.last()) {
            Some(f) => prefix.push(f),
            None => prefix,
        }
    }
}

/// An image source eligible for blending by a CRTC.
///
/// The compatibility mask is keyed by CRTC discovery index, like an
/// encoder's. The plane's role is not cached; it is derived on demand from
/// the `"type"` property.
#[derive(Debug)]
pub struct Plane {
    /// Back-reference to the owning device.
    pub dev: DeviceHandle,
    /// The kernel-assigned object ID.
    pub id: u32,
    /// Compatibility mask over CRTC discovery indices.
    pub possible_crtcs: u32,
    /// The supported pixel formats this library knows.
    pub formats: Vec<Format>,
}

impl Clone for Plane {
    fn clone(&self) -> (r: Self)
        ensures
            spec_plane_eq(r, *self),
    {
        Plane {
            dev: self.dev,
            id: self.id,
            possible_crtcs: self.possible_crtcs,
            formats: copy_formats(&self.formats),
        }
    }
}

/// Copies a list of formats.
fn copy_formats(fs: &Vec<Format>) -> (r: Vec<Format>)
    ensures
        r@ == fs@,
{
    let n = fs.len();
    let mut out: Vec<Format> = Vec::new();
    let mut i: usize = 0;
    while i < n
        invariant
            n == fs@.len(),
            i <= n,
            out@ =~= fs@.take(i as int),
        decreases n - i,
    {
        out.push(fs[i]);
        i += 1;
    }
    proof {
        assert(fs@.take(n as int) =~= fs@);
    }
    out
}

/// Field-wise equality of planes: what a copy preserves.
pub open spec fn spec_plane_eq(a: Plane, b: Plane) -> bool {
    &&& a.dev == b.dev
    &&& a.id == b.id
    &&& a.possible_crtcs == b.possible_crtcs
    &&& a.formats@ == b.formats@
}

/// Whether a plane's stored fields agree with one reported description.
pub open spec fn spec_plane_matches(p: Plane, dev: DeviceHandle, info: PlaneInfo) -> bool {
    &&& p.dev == dev
    &&& p.id == info.plane_id
    &&& p.possible_crtcs == info.possible_crtcs
    &&& p.formats@ == spec_known_formats(info.formats@)
}

/// The formats a plane supports.
#[derive(Debug)]
pub struct Formats {
    /// The supported formats, in reported order.
    pub list: Vec<Format>,
}

impl Formats {
    /// Returns how many known formats the plane supports.
    pub fn len(&self) -> (r: usize)
        ensures
            r == self.list@.len(),
    {
        self.list.len()
    }

    /// Returns the `i`-th supported format, if there is one.
    pub fn get(&self, i: usize) -> (r: Option<Format>)
        ensures
            match r {
                Some(f) => i < self.list@.len() && f == self.list@[i as int],
                None => i >= self.list@.len(),
            },
    {
        if i < self.list.len() {
            Some(self.list[i])
        } else {
            None
        }
    }

    /// Whether the plane supports `f`.
    pub fn supports(&self, f: Format) -> (r: bool)
        ensures
            r == self.list@.contains(f),
    {
        let n = self.list.len();
        let mut i: usize = 0;
        while i < n
            invariant
                n == self.list@.len(),
                i <= n,
                forall|j: int| 0 <= j < i ==> self.list@[j] != f,
            decreases n - i,
        {
            if self.list[i] == f {
                return true;
            }
            i += 1;
        }
        false
    }

    /// Takes the formats out of the wrapper.
    pub fn into_vec(self) -> (r: Vec<Format>)
        ensures
            r@ == self.list@,
    {
        self.list
    }
}

impl Plane {
    /// Decodes one reported plane. Format codes this library does not know
    /// are skipped; everything else is stored as reported.
    pub(crate) fn new(dev: DeviceHandle, info: &PlaneInfo) -> (r: Self)
        ensures
            spec_plane_matches(r, dev, *info),
    {
        let n = info.formats.len();
        let mut formats: Vec<Format> = Vec::new();
        let mut i: usize = 0;
        while i < n
            invariant
                n == info.formats@.len(),
                i <= n,
                formats@ == spec_known_formats(info.formats@.take(i as int)),
            decreases n - i,
        {
            proof {
                assert(info.formats@.take(i + 1 as int).drop_last() =~= info.formats@.take(
                    i as int,
                ));
                assert(info.formats@.take(i + 1 as int).last() == info.formats@[i as int]);
            }
            match Format::from_code(info.formats[i]) {
                Some(f) => formats.push(f),
                None => (),
            }
            i += 1;
        }
        proof {
            assert(info.formats@.take(n as int) =~= info.formats@);
        }
        Plane { dev, id: info.plane_id, possible_crtcs: info.possible_crtcs, formats }
    }

    /// Returns the compatibility mask over CRTC discovery indices.
    pub fn possible_crtcs(&self) -> (r: u32)
        ensures
            r == self.possible_crtcs,
    {
        self.possible_crtcs
    }

    /// Returns the supported pixel formats this library knows.
    pub fn formats(&self) -> (r: Formats)
        ensures
            r.list@ == self.formats@,
    {
        Formats { list: copy_formats(&self.formats) }
    }

    /// Derives the plane's role from the `"type"` property of a fresh
    /// introspection response.
    ///
    /// Exactly one outcome fits each input: [`Error::DeviceGone`] when the
    /// owning device was destroyed; else [`Error::Io`] when the response
    /// columns disagree in length; else [`Error::NotFound`] when no
    /// `"type"` property is attached; else [`Error::OutOfRange`] when its
    /// value does not fit a `u32`; else [`Error::InvalidData`] when the
    /// value is not a known role code; else `Ok` with that role.
    pub fn plane_type(&self, dev: &Device, listing: &PropertyListing) -> (r: Result<
        PlaneType,
        Error,
    >)
        ensures
            ({
                let found = spec_find_property(
                    spec_properties(self.id, listing.ids@, listing.values@, listing.names@),
                    "type"@,
                );
                let columns_ok = listing.ids@.len() == listing.values@.len()
                    && listing.ids@.len() == listing.names@.len();
                &&& (r == Err::<PlaneType, Error>(Error::DeviceGone) <==> !dev.spec_accessible(
                    self.dev,
                ))
                &&& dev.spec_accessible(self.dev) ==> {
                    &&& (r == Err::<PlaneType, Error>(Error::Io) <==> !columns_ok)
                    &&& columns_ok ==> match found {
                        None => r == Err::<PlaneType, Error>(Error::NotFound),
                        Some(p) => {
                            &&& (r == Err::<PlaneType, Error>(Error::OutOfRange) <==> p.value
                                > u32::MAX)
                            &&& p.value <= u32::MAX ==> match PlaneType::spec_from_value(
                                p.value as u32,
                            ) {
                                Some(t) => r == Ok::<PlaneType, Error>(t),
                                None => r == Err::<PlaneType, Error>(Error::InvalidData),
                            }
                        },
                    }
                }
            }),
    {
        let props = self.properties(dev, listing)?;
        let type_prop = match find_property(&props, "type") {
            Some(p) => p,
            None => {
                return Err(Error::NotFound);
            },
        };
        let value = type_prop.value();
        if value > 0xffff_ffff {
            return Err(Error::OutOfRange);
        }
        match PlaneType::from_value(value as u32) {
            Some(t) => Ok(t),
            None => Err(Error::InvalidData),
        }
    }
}

impl Object for Plane {
    open spec fn spec_device(&self) -> DeviceHandle {
        self.dev
    }

    open spec fn spec_object_id(&self) -> u32 {
        self.id
    }

    open spec fn spec_object_type(&self) -> drm_mode_object_type {
        drm_mode_object_type::Plane
    }

    fn device(&self) -> DeviceHandle {
        self.dev
    }

    fn object_id(&self) -> u32 {
        self.id
    }

    fn object_type(&self) -> drm_mode_object_type {
        drm_mode_object_type::Plane
    }
}

} // verus!
