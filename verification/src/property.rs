use vstd::prelude::*;

verus! {

/// One object-scoped property: the owning object, the numeric property ID
/// the kernel assigned for this query, the human-readable name, and the
/// current value packed into an unsigned 64-bit word.
///
/// Property IDs are only stable for the lifetime of the query that produced
/// them; symbolic access therefore always goes through the name.
#[derive(Debug, PartialEq, Eq)]
pub struct Property {
    /// The ID of the object the property is attached to.
    pub object_id: u32,
    /// The numeric ID of the property itself.
    pub id: u32,
    /// The human-readable name.
    pub name: String,
    /// The current value.
    pub value: u64,
}

impl Clone for Property {
    fn clone(&self) -> (r: Self)
        ensures
            r == *self,
    {
        Property {
            object_id: self.object_id,
            id: self.id,
            name: self.name.clone(),
            value: self.value,
        }
    }
}

impl Property {
    /// Builds a property from the two query responses that describe it: the
    /// (ID, value) pair of the per-object enumeration and the name of the
    /// per-property lookup.
    pub fn new(object_id: u32, id: u32, name: String, value: u64) -> (r: Self)
        ensures
            r == (Property { object_id, id, name, value }),
    {
        Property { object_id, id, name, value }
    }

    /// Returns the property ID of this query.
    pub fn id(&self) -> (r: u32)
        ensures
            r == self.id,
    {
        self.id
    }

    /// Returns the property name.
    pub fn name(&self) -> (r: &String)
        ensures
            r == &self.name,
    {
        &self.name
    }

    /// Returns the property value.
    pub fn value(&self) -> (r: u64)
        ensures
            r == self.value,
    {
        self.value
    }
}

/// The first property of `props` whose name reads `name`, if any.
pub open spec fn spec_find_property(props: Seq<Property>, name: Seq<char>) -> Option<Property>
    decreases props.len(),
{
    if props.len() == 0 {
        None
    } else if props[0].name@ == name {
        Some(props[0])
    } else {
        spec_find_property(props.drop_first(), name)
    }
}

/// The ID of the first property of `props` whose name reads `name`, if any.
pub open spec fn spec_find_property_id(props: Seq<Property>, name: Seq<char>) -> Option<u32> {
    match spec_find_property(props, name) {
        Some(p) => Some(p.id),
        None => None,
    }
}

proof fn lemma_find_property_prefix(props: Seq<Property>, name: Seq<char>, i: int)
    requires
        0 <= i <= props.len(),
        forall|j: int| 0 <= j < i ==> props[j].name@ != name,
    ensures
        spec_find_property(props, name) == spec_find_property(props.skip(i), name),
    decreases i,
{
    if i > 0 {
        assert(props.skip(i - 1).drop_first() =~= props.skip(i));
        lemma_find_property_prefix(props, name, i - 1);
    } else {
        assert(props.skip(0) =~= props);
    }
}

/// Linearly scans `props` for the first property named `name`.
pub fn find_property<'a>(props: &'a Vec<Property>, name: &str) -> (r: Option<&'a Property>)
    ensures
        match r {
            Some(p) => spec_find_property(props@, name@) == Some(*p),
            None => spec_find_property(props@, name@) is None,
        },
{
    let query: String = name.to_owned();
    let n = props.len();
    let mut i: usize = 0;
    while i < n
        invariant
            n == props.len(),
            i <= n,
            query@ == name@,
            forall|j: int| 0 <= j < i ==> props@[j].name@ != name@,
        decreases n - i,
    {
        if props[i].name == query {
            proof {
                lemma_find_property_prefix(props@, name@, i as int);
                assert(props@.skip(i as int)[0] == props@[i as int]);
            }
            return Some(&props[i]);
        }
        i += 1;
    }
    proof {
        lemma_find_property_prefix(props@, name@, n as int);
    }
    None
}

/// Looks up the ID under which `name` is currently attached, if any.
pub fn find_property_id(props: &Vec<Property>, name: &str) -> (r: Option<u32>)
    ensures
        r == spec_find_property_id(props@, name@),
{
    match find_property(props, name) {
        Some(p) => Some(p.id),
        None => None,
    }
}

} // verus!
