use vstd::prelude::*;

use crate::device::{Device, DeviceHandle};
use crate::error::Error;
use crate::property::{spec_find_property, spec_find_property_id, find_property, find_property_id,
    Property};
use crate::raw::drm_mode_object_type;

verus! {

/// The response of one property introspection round: the (ID, value) pairs
/// the per-object enumeration returned, and — per returned ID, in the same
/// order — the name the per-property query resolved it to.
#[derive(Debug)]
pub struct PropertyListing {
    /// The property IDs attached to the object.
    pub ids: Vec<u32>,
    /// The current value of each property, parallel to `ids`.
    pub values: Vec<u64>,
    /// The resolved name of each property, parallel to `ids`.
    pub names: Vec<String>,
}

/// The properties described by one introspection response, attached to
/// `object_id`. Meaningful when the three columns have equal length.
pub open spec fn spec_properties(
    object_id: u32,
    ids: Seq<u32>,
    values: Seq<u64>,
    names: Seq<String>,
) -> Seq<Property> {
    Seq::new(ids.len(), |i: int| Property {
        object_id,
        id: ids[i],
        name: names[i],
        value: values[i],
    })
}

/// A hardware-addressable entity: anything with a kernel object ID, an
/// object kind, a back-reference to its owning device, and per-object
/// property introspection.
pub trait Object {
    /// The owning device, at the specification level.
    spec fn spec_device(&self) -> DeviceHandle;

    /// The object ID, at the specification level.
    spec fn spec_object_id(&self) -> u32;

    /// The object kind, at the specification level.
    spec fn spec_object_type(&self) -> drm_mode_object_type;

    /// Returns a handle naming the device this object belongs to.
    fn device(&self) -> (r: DeviceHandle)
        ensures
            r == self.spec_device(),
    ;

    /// Returns the kernel-assigned object ID.
    fn object_id(&self) -> (r: u32)
        ensures
            r == self.spec_object_id(),
    ;

    /// Returns the kind tag of this object.
    fn object_type(&self) -> (r: drm_mode_object_type)
        ensures
            r == self.spec_object_type(),
    ;

    /// Assembles the properties currently attached to this object from one
    /// introspection response.
    ///
    /// Nothing is cached: property IDs are only valid for the lifetime of
    /// the query, so each introspection pays the full enumeration cost.
    ///
    /// Fails with [`Error::DeviceGone`] if the owning device was destroyed,
    /// and with [`Error::Io`] if the response columns disagree in length
    /// (a short response).
    fn properties(&self, dev: &Device, listing: &PropertyListing) -> (r: Result<
        Vec<Property>,
        Error,
    >)
        ensures
            match r {
                Ok(props) => dev.spec_accessible(self.spec_device())
                    && listing.ids@.len() == listing.values@.len()
                    && listing.ids@.len() == listing.names@.len()
                    && props@ == spec_properties(
                        self.spec_object_id(),
                        listing.ids@,
                        listing.values@,
                        listing.names@,
                    ),
                Err(e) => {
                    &&& (e == Error::DeviceGone || e == Error::Io)
                    &&& e == Error::DeviceGone <==> !dev.spec_accessible(self.spec_device())
                    &&& e == Error::Io ==> (listing.ids@.len() != listing.values@.len()
                        || listing.ids@.len() != listing.names@.len())
                },
            },
    {
        if !dev.accessible(self.device()) {
            return Err(Error::DeviceGone);
        }
        let n = listing.ids.len();
        if listing.values.len() != n || listing.names.len() != n {
            return Err(Error::Io);
        }
        let object_id = self.object_id();
        let mut props: Vec<Property> = Vec::new();
        let mut i: usize = 0;
        while i < n
            invariant
                n == listing.ids@.len(),
                n == listing.values@.len(),
                n == listing.names@.len(),
                i <= n,
                object_id == self.spec_object_id(),
                props@ =~= spec_properties(
                    object_id,
                    listing.ids@.take(i as int),
                    listing.values@.take(i as int),
                    listing.names@.take(i as int),
                ),
            decreases n - i,
        {
            props.push(Property::new(
                object_id,
                listing.ids[i],
                listing.names[i].clone(),
                listing.values[i],
            ));
            i += 1;
        }
        proof {
            assert(listing.ids@.take(n as int) =~= listing.ids@);
            assert(listing.values@.take(n as int) =~= listing.values@);
            assert(listing.names@.take(n as int) =~= listing.names@);
        }
        Ok(props)
    }

    /// Looks up a property by name on this object: the first exact name
    /// match of the introspection response, or `Ok(None)` when no property
    /// of that name is attached.
    fn property(&self, dev: &Device, listing: &PropertyListing, name: &str) -> (r: Result<
        Option<Property>,
        Error,
    >)
        ensures
            match r {
                Ok(found) => dev.spec_accessible(self.spec_device()) && found
                    == spec_find_property(
                    spec_properties(
                        self.spec_object_id(),
                        listing.ids@,
                        listing.values@,
                        listing.names@,
                    ),
                    name@,
                ),
                Err(e) => {
                    &&& (e == Error::DeviceGone || e == Error::Io)
                    &&& e == Error::DeviceGone <==> !dev.spec_accessible(self.spec_device())
                    &&& e == Error::Io ==> (listing.ids@.len() != listing.values@.len()
                        || listing.ids@.len() != listing.names@.len())
                },
            },
    {
        let props = self.properties(dev, listing)?;
        match find_property(&props, name) {
            Some(p) => Ok(Some(p.clone())),
            None => Ok(None),
        }
    }

    /// Looks up a property ID by name on this object.
    fn property_id(&self, dev: &Device, listing: &PropertyListing, name: &str) -> (r: Result<
        Option<u32>,
        Error,
    >)
        ensures
            match r {
                Ok(found) => dev.spec_accessible(self.spec_device()) && found
                    == spec_find_property_id(
                    spec_properties(
                        self.spec_object_id(),
                        listing.ids@,
                        listing.values@,
                        listing.names@,
                    ),
                    name@,
                ),
                Err(e) => {
                    &&& (e == Error::DeviceGone || e == Error::Io)
                    &&& e == Error::DeviceGone <==> !dev.spec_accessible(self.spec_device())
                    &&& e == Error::Io ==> (listing.ids@.len() != listing.values@.len()
                        || listing.ids@.len() != listing.names@.len())
                },
            },
    {
        let props = self.properties(dev, listing)?;
        Ok(find_property_id(&props, name))
    }
}

/// Property introspection is idempotent: two queries of an unchanged object
/// — that is, two identical introspection responses — describe the same
/// properties, name for name and value for value.
pub proof fn lemma_properties_idempotent(
    object_id: u32,
    ids: Seq<u32>,
    values: Seq<u64>,
    names: Seq<String>,
    r1: Seq<Property>,
    r2: Seq<Property>,
)
    requires
        r1 == spec_properties(object_id, ids, values, names),
        r2 == spec_properties(object_id, ids, values, names),
    ensures
        r1 == r2,
{
}

} // verus!
