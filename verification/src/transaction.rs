//! The atomic transaction format: flattening staged property writes into
//! the object-grouped parallel arrays the kernel's one-shot commit expects.
//!
//! The staged writes are sorted as exact triples and full duplicates are
//! collapsed; two writes that name the same object and property with
//! different values both survive and are both sent, the kernel being the
//! layer where the last writer wins. The sorted list is then grouped by
//! object into four mutually consistent arrays: object IDs, per-object
//! property counts, property IDs and property values.

use vstd::prelude::*;

use vstd::seq_lib::lemma_multiset_commutative;

use crate::error::Error;

verus! {

/// The flag word sent with every commit: the kernel may perform a full
/// mode change to satisfy the request.
pub const ATOMIC_ALLOW_MODESET: u32 = 0x0400;

/// One staged property write: set property `property_id` of object
/// `object_id` to `value`.
#[derive(Clone, Copy, Debug, PartialEq, Eq, Structural)]
pub struct PropertyWrite {
    /// The object written to.
    pub object_id: u32,
    /// The property written, as resolved on that object.
    pub property_id: u32,
    /// The value written.
    pub value: u64,
}

/// Lexicographic order on write triples: by object, then property, then
/// value.
pub open spec fn spec_write_le(a: PropertyWrite, b: PropertyWrite) -> bool {
    if a.object_id != b.object_id {
        a.object_id < b.object_id
    } else if a.property_id != b.property_id {
        a.property_id < b.property_id
    } else {
        a.value <= b.value
    }
}

/// Strict lexicographic order on write triples.
pub open spec fn spec_write_lt(a: PropertyWrite, b: PropertyWrite) -> bool {
    spec_write_le(a, b) && a != b
}

/// Whether a sequence of writes is sorted.
pub open spec fn spec_sorted(s: Seq<PropertyWrite>) -> bool {
    forall|i: int, j: int| 0 <= i < j < s.len() ==> spec_write_le(#[trigger] s[i], #[trigger] s[j])
}

/// Whether a sequence of writes is strictly sorted — sorted and free of
/// duplicates.
pub open spec fn spec_strictly_sorted(s: Seq<PropertyWrite>) -> bool {
    forall|i: int, j: int| 0 <= i < j < s.len() ==> spec_write_lt(#[trigger] s[i], #[trigger] s[j])
}

/// Compares two write triples lexicographically.
fn write_le(a: &PropertyWrite, b: &PropertyWrite) -> (r: bool)
    ensures
        r == spec_write_le(*a, *b),
{
    if a.object_id != b.object_id {
        a.object_id < b.object_id
    } else if a.property_id != b.property_id {
        a.property_id < b.property_id
    } else {
        a.value <= b.value
    }
}

/// The sum of the first `j` per-object counts.
pub open spec fn spec_count_prefix(counts: Seq<u32>, j: int) -> int
    decreases j,
{
    if j <= 0 {
        0
    } else {
        spec_count_prefix(counts, j - 1) + counts[j - 1]
    }
}

/// The sum of all per-object counts.
pub open spec fn spec_count_sum(counts: Seq<u32>) -> int {
    spec_count_prefix(counts, counts.len() as int)
}

/// An atomic commit request: the sorted, deduplicated writes, and the four
/// parallel arrays — object IDs, per-object counts, property IDs, values —
/// in exactly the shape the kernel transaction takes.
#[derive(Debug)]
pub struct AtomicRequest {
    /// The deduplicated writes, sorted as triples.
    pub writes: Vec<PropertyWrite>,
    /// The distinct object IDs, in ascending order.
    pub objects: Vec<u32>,
    /// How many of `property_ids` belong to each object of `objects`.
    pub count_props: Vec<u32>,
    /// The property IDs of `writes`, in order.
    pub property_ids: Vec<u32>,
    /// The property values of `writes`, in order.
    pub values: Vec<u64>,
}

/// Mutual consistency of the four shape arrays with the flat write list:
/// the ID and value columns project the writes; the counts sum to the
/// number of writes; each object's contiguous segment holds exactly the
/// writes naming that object; and the object column is strictly ascending.
pub open spec fn spec_request_wf(r: AtomicRequest) -> bool {
    &&& r.property_ids@.len() == r.writes@.len()
    &&& r.values@.len() == r.writes@.len()
    &&& forall|i: int|
        0 <= i < r.writes@.len() ==> #[trigger] r.property_ids@[i] == r.writes@[i].property_id
    &&& forall|i: int| 0 <= i < r.writes@.len() ==> #[trigger] r.values@[i] == r.writes@[i].value
    &&& r.objects@.len() == r.count_props@.len()
    &&& spec_count_sum(r.count_props@) == r.writes@.len()
    &&& forall|j: int| 0 <= j < r.count_props@.len() ==> #[trigger] r.count_props@[j] >= 1
    &&& forall|j: int, k: int|
        0 <= j < r.objects@.len() && spec_count_prefix(r.count_props@, j) <= k
            < spec_count_prefix(r.count_props@, j) + r.count_props@[j] ==> (#[trigger] r.writes@[
            k
        ]).object_id == #[trigger] r.objects@[j]
    &&& forall|j1: int, j2: int|
        0 <= j1 < j2 < r.objects@.len() ==> #[trigger] r.objects@[j1] < #[trigger] r.objects@[j2]
}

/// Inserting an element anywhere adds exactly it to the multiset.
proof fn lemma_insert_to_multiset(s: Seq<PropertyWrite>, p: int, x: PropertyWrite)
    requires
        0 <= p <= s.len(),
    ensures
        s.insert(p, x).to_multiset() =~= s.to_multiset().insert(x),
{
    broadcast use vstd::seq_lib::group_to_multiset_ensures;
    broadcast use vstd::multiset::group_multiset_axioms;

    let a = s.subrange(0, p);
    let b = s.subrange(p, s.len() as int);
    assert(s =~= a + b);
    assert(s.insert(p, x) =~= a.push(x) + b);
    lemma_multiset_commutative(a.push(x), b);
    lemma_multiset_commutative(a, b);
    assert(a.push(x).to_multiset() =~= a.to_multiset().insert(x));
}

#[verifier::loop_isolation(false)]
/// Finds the position before the first element strictly above `x` in a
/// sorted list.
fn insert_position(out: &Vec<PropertyWrite>, x: &PropertyWrite) -> (p: usize)
    requires
        spec_sorted(out@),
    ensures
        p <= out@.len(),
        forall|j: int| 0 <= j < p ==> spec_write_le(#[trigger] out@[j], *x),
        p < out@.len() ==> !spec_write_le(out@[p as int], *x),
{
    let n = out.len();
    let mut p: usize = 0;
    while p < n && write_le(&out[p], x)
        invariant
            n == out@.len(),
            p <= n,
            forall|j: int| 0 <= j < p ==> spec_write_le(#[trigger] out@[j], *x),
        decreases n - p,
    {
        p += 1;
    }
    p
}

#[verifier::loop_isolation(false)]
fn sort_writes(v: &Vec<PropertyWrite>) -> (r: Vec<PropertyWrite>)
    ensures
        spec_sorted(r@),
        r@.to_multiset() == v@.to_multiset(),
{
    broadcast use vstd::seq_lib::group_to_multiset_ensures;

    let n = v.len();
    let mut out: Vec<PropertyWrite> = Vec::new();
    let mut i: usize = 0;
    while i < n
        invariant
            n == v@.len(),
            i <= n,
            spec_sorted(out@),
            out@.to_multiset() == v@.take(i as int).to_multiset(),
        decreases n - i,
    {
        let x = v[i];
        let p = insert_position(&out, &x);
        let ghost prev = out@;
        out.insert(p, x);
        proof {
            prev.insert_ensures(p as int, x);
            lemma_insert_to_multiset(prev, p as int, x);
            assert(v@.take(i + 1 as int).drop_last() =~= v@.take(i as int));
            assert(v@.take(i + 1 as int) =~= v@.take(i as int).push(v@[i as int]));
            assert(out@.to_multiset() =~= v@.take(i + 1 as int).to_multiset());
            assert forall|a: int, b: int| 0 <= a < b < out@.len() implies spec_write_le(
                out@[a],
                out@[b],
            ) by {
                if b < p {
                } else if a < p && b == p {
                } else if a == p {
                    assert(!spec_write_le(prev[p as int], x));
                    assert(out@[b] == prev[b - 1]);
                } else if a < p {
                    assert(out@[b] == prev[b - 1]);
                } else {
                    assert(out@[a] == prev[a - 1]);
                    assert(out@[b] == prev[b - 1]);
                }
            }
        }
        i += 1;
    }
    proof {
        assert(v@.take(n as int) =~= v@);
    }
    out
}

/// Collapses runs of identical triples in a sorted list, leaving one of
/// each; the result is strictly sorted and carries the same set of writes,
/// one entry per distinct write.
#[verifier::loop_isolation(false)]
fn dedup_writes(v: &Vec<PropertyWrite>) -> (r: Vec<PropertyWrite>)
    requires
        spec_sorted(v@),
    ensures
        spec_strictly_sorted(r@),
        r@.to_set() == v@.to_set(),
        r@.len() == v@.to_set().len(),
{
    broadcast use vstd::set::group_set_axioms;
    broadcast use vstd::seq_lib::lemma_seq_contains_after_push;

    let n = v.len();
    let mut out: Vec<PropertyWrite> = Vec::new();
    let mut i: usize = 0;
    while i < n
        invariant
            n == v@.len(),
            i <= n,
            spec_sorted(v@),
            spec_strictly_sorted(out@),
            out@.to_set() == v@.take(i as int).to_set(),
            i == 0 ==> out@.len() == 0,
            i > 0 ==> out@.len() > 0 && out@.last() == v@[i - 1],
        decreases n - i,
    {
        let x = v[i];
        let keep = if out.len() == 0 {
            true
        } else {
            let last = out.len() - 1;
            out[last] != x
        };
        let ghost prev = out@;
        if keep {
            out.push(x);
        }
        proof {
            assert(v@.take(i + 1 as int) =~= v@.take(i as int).push(v@[i as int]));
            assert(v@.take(i + 1 as int).to_set() =~= v@.take(i as int).to_set().insert(x));
            if keep {
                assert(out@ =~= prev.push(x));
                assert(out@.to_set() =~= prev.to_set().insert(x));
                if i > 0 {
                    assert(spec_write_le(v@[i - 1 as int], v@[i as int]));
                    assert(spec_write_lt(prev.last(), x));
                }
                assert forall|a: int, b: int| 0 <= a < b < out@.len() implies spec_write_lt(
                    out@[a],
                    out@[b],
                ) by {
                    if b == out@.len() - 1 && i > 0 {
                        assert(spec_write_le(prev[a], prev.last()));
                    }
                }
            } else {
                assert(prev.to_set().contains(x));
                assert(v@.take(i as int).to_set().insert(x) =~= v@.take(i as int).to_set());
            }
        }
        i += 1;
    }
    proof {
        assert(v@.take(n as int) =~= v@);
        assert forall|a: int, b: int| 0 <= a < b < out@.len() implies out@[a] != out@[b] by {
            assert(spec_write_lt(out@[a], out@[b]));
        }
        assert(out@.no_duplicates());
        out@.unique_seq_to_set();
    }
    out
}

/// The prefix sums of an unchanged prefix are unchanged: updating or
/// appending at position `l` leaves every `spec_count_prefix(_, j)` with
/// `j <= l` alone.
proof fn lemma_count_prefix_same(c1: Seq<u32>, c2: Seq<u32>, j: int)
    requires
        0 <= j <= c1.len(),
        j <= c2.len(),
        forall|k: int| 0 <= k < j ==> c1[k] == c2[k],
    ensures
        spec_count_prefix(c1, j) == spec_count_prefix(c2, j),
    decreases j,
{
    if j > 0 {
        lemma_count_prefix_same(c1, c2, j - 1);
    }
}

/// Prefix sums grow by at least one per group when every count is at
/// least one, and never shrink.
proof fn lemma_count_prefix_monotone(counts: Seq<u32>, j1: int, j2: int)
    requires
        0 <= j1 <= j2 <= counts.len(),
        forall|j: int| 0 <= j < counts.len() ==> #[trigger] counts[j] >= 0,
    ensures
        spec_count_prefix(counts, j1) <= spec_count_prefix(counts, j2),
    decreases j2 - j1,
{
    if j1 < j2 {
        lemma_count_prefix_monotone(counts, j1, j2 - 1);
    }
}

/// Groups a sorted write list by object ID into the four parallel arrays.
#[verifier::loop_isolation(false)]
fn group_writes(v: &Vec<PropertyWrite>) -> (r: (Vec<u32>, Vec<u32>, Vec<u32>, Vec<u64>))
    requires
        spec_sorted(v@),
        v@.len() <= 0xffff_ffff,
    ensures
        ({
            let (objects, count_props, property_ids, values) = r;
            &&& property_ids@.len() == v@.len()
            &&& values@.len() == v@.len()
            &&& forall|i: int|
                0 <= i < v@.len() ==> #[trigger] property_ids@[i] == v@[i].property_id
            &&& forall|i: int| 0 <= i < v@.len() ==> #[trigger] values@[i] == v@[i].value
            &&& objects@.len() == count_props@.len()
            &&& spec_count_sum(count_props@) == v@.len()
            &&& forall|j: int| 0 <= j < count_props@.len() ==> #[trigger] count_props@[j] >= 1
            &&& forall|j: int, k: int|
                0 <= j < objects@.len() && spec_count_prefix(count_props@, j) <= k
                    < spec_count_prefix(count_props@, j) + count_props@[j] ==> (#[trigger] v@[
                    k
                ]).object_id == #[trigger] objects@[j]
            &&& forall|j1: int, j2: int|
                0 <= j1 < j2 < objects@.len() ==> #[trigger] objects@[j1]
                    < #[trigger] objects@[j2]
            &&& v@.len() > 0 ==> objects@.len() > 0
        }),
{
    let n = v.len();
    let mut objects: Vec<u32> = Vec::new();
    let mut count_props: Vec<u32> = Vec::new();
    let mut property_ids: Vec<u32> = Vec::new();
    let mut values: Vec<u64> = Vec::new();
    let mut i: usize = 0;
    while i < n
        invariant
            n == v@.len(),
            n <= 0xffff_ffff,
            i <= n,
            spec_sorted(v@),
            property_ids@.len() == i,
            values@.len() == i,
            forall|k: int| 0 <= k < i ==> #[trigger] property_ids@[k] == v@[k].property_id,
            forall|k: int| 0 <= k < i ==> #[trigger] values@[k] == v@[k].value,
            objects@.len() == count_props@.len(),
            spec_count_sum(count_props@) == i,
            forall|j: int| 0 <= j < count_props@.len() ==> #[trigger] count_props@[j] >= 1,
            forall|j: int, k: int|
                0 <= j < objects@.len() && spec_count_prefix(count_props@, j) <= k
                    < spec_count_prefix(count_props@, j) + count_props@[j] ==> (#[trigger] v@[
                    k
                ]).object_id == #[trigger] objects@[j],
            forall|j: int|
                #![trigger objects@[j]]
                0 <= j && j + 1 < objects@.len() ==> objects@[j] < objects@[j + 1],
            i == 0 ==> objects@.len() == 0,
            i > 0 ==> objects@.len() > 0 && objects@.last() == v@[i - 1].object_id,
        decreases n - i,
    {
        let x = v[i];
        property_ids.push(x.property_id);
        values.push(x.value);
        let new_group = if objects.len() == 0 {
            true
        } else {
            let l = objects.len() - 1;
            objects[l] != x.object_id
        };
        let ghost old_counts = count_props@;
        let ghost old_objects = objects@;
        if new_group {
            proof {
                if i > 0 {
                    assert(spec_write_le(v@[i - 1 as int], v@[i as int]));
                }
            }
            objects.push(x.object_id);
            count_props.push(1);
            proof {
                assert forall|j: int|
                    #![trigger objects@[j]]
                    0 <= j && j + 1 < objects@.len() implies objects@[j] < objects@[j + 1] by {
                    if j + 1 < old_objects.len() {
                        assert(old_objects[j] < old_objects[j + 1]);
                    } else {
                        assert(j == old_objects.len() - 1);
                        assert(objects@[j] == old_objects.last());
                        assert(old_objects.len() > 0);
                        assert(i > 0);
                        assert(old_objects.last() == v@[i - 1].object_id);
                        assert(spec_write_le(v@[i - 1 as int], v@[i as int]));
                        assert(v@[i - 1].object_id != x.object_id);
                    }
                }
                lemma_count_prefix_same(old_counts, count_props@, old_counts.len() as int);
                assert forall|j: int| 0 <= j <= old_counts.len() implies spec_count_prefix(
                    count_props@,
                    j,
                ) == spec_count_prefix(old_counts, j) by {
                    lemma_count_prefix_same(old_counts, count_props@, j);
                }
                assert(spec_count_prefix(count_props@, count_props@.len() as int)
                    == spec_count_prefix(count_props@, old_counts.len() as int)
                    + count_props@[old_counts.len() as int]);
                assert(spec_count_sum(count_props@) == i + 1);
            }
        } else {
            let l = count_props.len() - 1;
            proof {
                lemma_count_prefix_monotone(count_props@, 0, l as int);
                lemma_count_prefix_monotone(
                    count_props@,
                    l as int,
                    count_props@.len() as int,
                );
                assert(spec_count_prefix(count_props@, l as int) + count_props@[l as int]
                    == spec_count_sum(count_props@));
                assert(count_props@[l as int] <= i);
            }
            let c = count_props[l];
            count_props.set(l, c + 1);
            proof {
                assert forall|j: int| 0 <= j <= l implies spec_count_prefix(count_props@, j)
                    == spec_count_prefix(old_counts, j) by {
                    lemma_count_prefix_same(old_counts, count_props@, j);
                }
                assert(spec_count_prefix(count_props@, count_props@.len() as int)
                    == spec_count_prefix(count_props@, l as int) + count_props@[l as int]);
                assert(spec_count_sum(count_props@) == i + 1);
            }
        }
        proof {
            let counts = count_props@;
            let lastg = counts.len() - 1;
            assert forall|j: int, k: int|
                0 <= j < objects@.len() && spec_count_prefix(counts, j) <= k < spec_count_prefix(
                    counts,
                    j,
                ) + counts[j] implies (#[trigger] v@[k]).object_id == #[trigger] objects@[j] by {
                if j < lastg {
                    lemma_count_prefix_same(old_counts, counts, j + 1);
                    lemma_count_prefix_same(old_counts, counts, j);
                    assert(old_objects[j] == objects@[j]);
                } else {
                    assert(j == lastg);
                    lemma_count_prefix_same(old_counts, counts, j);
                    lemma_count_prefix_monotone(
                        counts,
                        j,
                        counts.len() as int,
                    );
                    assert(spec_count_prefix(counts, j) + counts[j] == i + 1);
                    if k < i {
                        if new_group {
                            assert(spec_count_prefix(old_counts, old_counts.len() as int)
                                == i);
                            assert(false);
                        } else {
                            assert(spec_count_prefix(old_counts, j) <= k < spec_count_prefix(
                                old_counts,
                                j,
                            ) + old_counts[j]);
                            assert(old_objects[j] == objects@[j]);
                        }
                    } else {
                        assert(k == i);
                        assert(objects@[j] == objects@.last());
                        assert(v@[k].object_id == objects@[j]);
                    }
                }
            }
        }
        i += 1;
    }
    proof {
        assert forall|j1: int, j2: int| 0 <= j1 < j2 < objects@.len() implies #[trigger] objects@[
            j1
        ] < #[trigger] objects@[j2] by {
            lemma_ascending_adjacent_all(objects@, j1, j2);
        }
    }
    (objects, count_props, property_ids, values)
}

/// A sequence whose adjacent elements ascend ascends everywhere.
proof fn lemma_ascending_adjacent_all(s: Seq<u32>, j1: int, j2: int)
    requires
        forall|j: int| #![trigger s[j]] 0 <= j && j + 1 < s.len() ==> s[j] < s[j + 1],
        0 <= j1 < j2 < s.len(),
    ensures
        s[j1] < s[j2],
    decreases j2 - j1,
{
    if j1 + 1 < j2 {
        lemma_ascending_adjacent_all(s, j1, j2 - 1);
    }
}

/// Flattens staged writes into one atomic request: sorts the triples,
/// collapses exact duplicates, and groups the survivors by object into the
/// four parallel arrays of the kernel transaction.
///
/// Duplicate staged triples collapse to one entry; two writes naming the
/// same object and property with two different values are both kept and
/// both sent. Fails with [`Error::OutOfRange`] if the number of distinct
/// writes does not fit the transaction's 32-bit counters.
pub fn assemble_request(writes: Vec<PropertyWrite>) -> (r: Result<AtomicRequest, Error>)
    ensures
        match r {
            Ok(req) => {
                &&& writes@.to_set().len() <= 0xffff_ffff
                &&& spec_strictly_sorted(req.writes@)
                &&& req.writes@.to_set() == writes@.to_set()
                &&& req.writes@.len() == writes@.to_set().len()
                &&& spec_request_wf(req)
            },
            Err(e) => e == Error::OutOfRange && writes@.to_set().len() > 0xffff_ffff,
        },
{
    let sorted = sort_writes(&writes);
    proof {
        broadcast use vstd::seq_lib::group_to_multiset_ensures;

        assert forall|w: PropertyWrite| sorted@.to_set().contains(w) implies
            writes@.to_set().contains(w) by {
            assert(sorted@.to_multiset().count(w) > 0);
        }
        assert forall|w: PropertyWrite| writes@.to_set().contains(w) implies
            sorted@.to_set().contains(w) by {
            assert(writes@.to_multiset().count(w) > 0);
        }
        assert(sorted@.to_set() =~= writes@.to_set());
    }
    let deduped = dedup_writes(&sorted);
    if deduped.len() > 0xffff_ffff {
        return Err(Error::OutOfRange);
    }
    let (objects, count_props, property_ids, values) = group_writes(&deduped);
    Ok(AtomicRequest { writes: deduped, objects, count_props, property_ids, values })
}


/// The triple order is antisymmetric: two writes below each other are the
/// same write.
proof fn lemma_write_le_antisymmetric(a: PropertyWrite, b: PropertyWrite)
    requires
        spec_write_le(a, b),
        spec_write_le(b, a),
    ensures
        a == b,
{
}

/// A strictly sorted write list is determined by its set of writes alone:
/// together with [`assemble_request`]'s contract, the request built from a
/// given set of staged writes is unique.
pub proof fn lemma_strictly_sorted_unique(a: Seq<PropertyWrite>, b: Seq<PropertyWrite>)
    requires
        spec_strictly_sorted(a),
        spec_strictly_sorted(b),
        a.to_set() == b.to_set(),
    ensures
        a == b,
    decreases a.len(),
{
    broadcast use vstd::set::group_set_axioms;

    if a.len() == 0 {
        if b.len() > 0 {
            assert(b.to_set().contains(b[0]));
            assert(a.contains(b[0]));
            assert(false);
        }
        assert(a =~= b);
    } else if b.len() == 0 {
        assert(a.to_set().contains(a[0]));
        assert(b.contains(a[0]));
        assert(false);
    } else {
        let x = a.last();
        let y = b.last();
        assert(a.to_set().contains(x)) by {
            assert(a[a.len() - 1] == x);
        }
        assert(b.to_set().contains(y)) by {
            assert(b[b.len() - 1] == y);
        }
        let j = choose|j: int| 0 <= j < b.len() && b[j] == x;
        assert(spec_write_le(x, y)) by {
            if j < b.len() - 1 {
                assert(spec_write_lt(b[j], b[b.len() - 1]));
            }
        }
        let k = choose|k: int| 0 <= k < a.len() && a[k] == y;
        assert(spec_write_le(y, x)) by {
            if k < a.len() - 1 {
                assert(spec_write_lt(a[k], a[a.len() - 1]));
            }
        }
        lemma_write_le_antisymmetric(x, y);

        let a2 = a.drop_last();
        let b2 = b.drop_last();
        assert(spec_strictly_sorted(a2)) by {
            assert(forall|i: int, j2: int|
                0 <= i < j2 < a2.len() ==> a2[i] == a[i] && a2[j2] == a[j2]);
        }
        assert(spec_strictly_sorted(b2)) by {
            assert(forall|i: int, j2: int|
                0 <= i < j2 < b2.len() ==> b2[i] == b[i] && b2[j2] == b[j2]);
        }
        assert(a2.to_set() =~= a.to_set().remove(x)) by {
            assert forall|e: PropertyWrite| a2.to_set().contains(e) implies a.to_set().contains(e)
                && e != x by {
                let i = choose|i: int| 0 <= i < a2.len() && a2[i] == e;
                assert(a[i] == e);
                assert(spec_write_lt(a[i], a[a.len() - 1]));
            }
            assert forall|e: PropertyWrite|
                a.to_set().contains(e) && e != x implies a2.to_set().contains(e) by {
                let i = choose|i: int| 0 <= i < a.len() && a[i] == e;
                assert(i < a.len() - 1);
                assert(a2[i] == e);
            }
        }
        assert(b2.to_set() =~= b.to_set().remove(y)) by {
            assert forall|e: PropertyWrite| b2.to_set().contains(e) implies b.to_set().contains(e)
                && e != y by {
                let i = choose|i: int| 0 <= i < b2.len() && b2[i] == e;
                assert(b[i] == e);
                assert(spec_write_lt(b[i], b[b.len() - 1]));
            }
            assert forall|e: PropertyWrite|
                b.to_set().contains(e) && e != y implies b2.to_set().contains(e) by {
                let i = choose|i: int| 0 <= i < b.len() && b[i] == e;
                assert(i < b.len() - 1);
                assert(b2[i] == e);
            }
        }
        lemma_strictly_sorted_unique(a2, b2);
        assert(a =~= a2.push(x));
        assert(b =~= b2.push(y));
    }
}

/// The grouping of a well-formed request is a partition: two distinct
/// groups name distinct objects, and their index ranges into the property
/// ID and value columns are disjoint — the later group starts at or after
/// the earlier group's end.
pub proof fn lemma_group_ranges_disjoint(req: AtomicRequest, j1: int, j2: int)
    requires
        spec_request_wf(req),
        0 <= j1 < j2 < req.objects@.len(),
    ensures
        req.objects@[j1] < req.objects@[j2],
        spec_count_prefix(req.count_props@, j1) + req.count_props@[j1] <= spec_count_prefix(
            req.count_props@,
            j2,
        ),
{
    assert(spec_count_prefix(req.count_props@, j1 + 1) == spec_count_prefix(
        req.count_props@,
        j1,
    ) + req.count_props@[j1]);
    lemma_count_prefix_monotone(req.count_props@, j1 + 1, j2);
}

} // verus!
