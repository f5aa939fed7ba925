//! Which revision of a resource a lookup by name, type and time selects.
//!
//! The revisions of a collection are listed by the ledger in no promised
//! order. A lookup keeps those of the name and type asked for, orders them
//! from the latest to the earliest, and takes the first that was created
//! before the time asked for.

use crate::proto::{
    lemma_normal_forms_are_ordered, lemma_normal_is_unchanged, CheqdResourceMetadata, Timestamp,
};
use crate::text::str_eq;
use std::cmp::Ordering;
use vstd::prelude::*;

verus! {

/// Whether `m` has the name and the type asked for.
pub open spec fn named(m: CheqdResourceMetadata, name: Seq<char>, rtyp: Seq<char>) -> bool {
    m.name@ == name && m.resource_type@ == rtyp
}

/// The time by which a revision is ordered: its creation time in normal form,
/// or the epoch where none is recorded.
pub open spec fn order_time(m: CheqdResourceMetadata) -> Timestamp {
    match m.created {
        Some(t) => t.normal_form(),
        None => Timestamp { seconds: 0, nanos: 0 },
    }
}

/// Whether `a` is ordered as created later than `b`: at a later second, or in
/// the same second at a later nanosecond.
pub open spec fn later(a: CheqdResourceMetadata, b: CheqdResourceMetadata) -> bool {
    let x = order_time(a);
    let y = order_time(b);
    x.seconds > y.seconds || (x.seconds == y.seconds && x.nanos > y.nanos)
}

/// The instant by which a revision is ordered, in nanoseconds since the
/// epoch.
pub open spec fn order_instant(m: CheqdResourceMetadata) -> int {
    match m.created {
        Some(t) => t.clamped_nanos(),
        None => 0,
    }
}

/// One revision is ordered as later than another where its instant is the
/// later one.
pub proof fn lemma_later_is_by_instant(a: CheqdResourceMetadata, b: CheqdResourceMetadata)
    ensures
        later(a, b) <==> order_instant(a) > order_instant(b),
{
    let zero = Timestamp { seconds: 0, nanos: 0 };
    let x = match a.created {
        Some(t) => t,
        None => zero,
    };
    let y = match b.created {
        Some(t) => t,
        None => zero,
    };
    lemma_normal_is_unchanged(zero);
    lemma_normal_forms_are_ordered(y, x);
}

/// Whether `m` records a creation time that is an earlier instant than
/// `before`, to the nanosecond. A revision created at the instant `before`
/// itself does not count, and one without a creation time never does.
pub open spec fn created_before(m: CheqdResourceMetadata, before: Timestamp) -> bool {
    m.created matches Some(t) && t.is_before(before)
}

/// Whether the revision at `i` stands before the one at `j` in the order of a
/// lookup: the later one first, and of two of the same time the one that is
/// listed first.
pub open spec fn precedes(listing: Seq<CheqdResourceMetadata>, i: int, j: int) -> bool {
    later(listing[i], listing[j]) || (!later(listing[j], listing[i]) && i < j)
}

/// Whether a lookup can select `m`: it has the name and type, and was created
/// before the time asked for.
pub open spec fn eligible(
    m: CheqdResourceMetadata,
    name: Seq<char>,
    rtyp: Seq<char>,
    before: Timestamp,
) -> bool {
    named(m, name, rtyp) && created_before(m, before)
}

/// Whether a lookup selects the revision at `i`: it is eligible, and it
/// stands before every other eligible one.
pub open spec fn is_selected(
    listing: Seq<CheqdResourceMetadata>,
    name: Seq<char>,
    rtyp: Seq<char>,
    before: Timestamp,
    i: int,
) -> bool {
    &&& 0 <= i < listing.len()
    &&& eligible(listing[i], name, rtyp, before)
    &&& forall|j: int|
        0 <= j < listing.len() && j != i && eligible(#[trigger] listing[j], name, rtyp, before)
            ==> precedes(listing, i, j)
}

/// A lookup selects at most one revision.
pub proof fn lemma_selection_is_unique(
    listing: Seq<CheqdResourceMetadata>,
    name: Seq<char>,
    rtyp: Seq<char>,
    before: Timestamp,
    i: int,
    j: int,
)
    requires
        is_selected(listing, name, rtyp, before, i),
        is_selected(listing, name, rtyp, before, j),
    ensures
        i == j,
{
    if i != j {
        assert(precedes(listing, i, j));
        assert(precedes(listing, j, i));
    }
}

/// The revision that a lookup selects is the latest of the eligible ones: none
/// of them is later, and none of the same time is listed before it.
pub proof fn lemma_selected_is_latest(
    listing: Seq<CheqdResourceMetadata>,
    name: Seq<char>,
    rtyp: Seq<char>,
    before: Timestamp,
    i: int,
    j: int,
)
    requires
        is_selected(listing, name, rtyp, before, i),
        0 <= j < listing.len(),
        eligible(listing[j], name, rtyp, before),
    ensures
        !later(listing[j], listing[i]),
        later(listing[i], listing[j]) || i <= j,
{
    if i != j {
        assert(precedes(listing, i, j));
    }
}

/// Among the first `k` revisions, where any of them is eligible, one stands
/// before every other eligible one.
proof fn lemma_first_of_prefix(
    listing: Seq<CheqdResourceMetadata>,
    name: Seq<char>,
    rtyp: Seq<char>,
    before: Timestamp,
    k: int,
) -> (best: int)
    requires
        0 <= k <= listing.len(),
        exists|j: int| 0 <= j < k && eligible(#[trigger] listing[j], name, rtyp, before),
    ensures
        0 <= best < k,
        eligible(listing[best], name, rtyp, before),
        forall|j: int|
            0 <= j < k && j != best && eligible(#[trigger] listing[j], name, rtyp, before)
                ==> precedes(listing, best, j),
    decreases k,
{
    let last = k - 1;
    if exists|j: int| 0 <= j < last && eligible(#[trigger] listing[j], name, rtyp, before) {
        let earlier = lemma_first_of_prefix(listing, name, rtyp, before, last);
        if eligible(listing[last], name, rtyp, before) && !precedes(listing, earlier, last) {
            assert forall|j: int|
                0 <= j < k && j != last && eligible(
                    #[trigger] listing[j],
                    name,
                    rtyp,
                    before,
                ) implies precedes(listing, last, j) by {
                if j != earlier {
                    assert(precedes(listing, earlier, j));
                }
            }
            last
        } else {
            earlier
        }
    } else {
        let j = choose|j: int| 0 <= j < k && eligible(#[trigger] listing[j], name, rtyp, before);
        assert(j == last);
        last
    }
}

/// Where any revision is eligible, a lookup selects one.
pub proof fn lemma_some_revision_is_selected(
    listing: Seq<CheqdResourceMetadata>,
    name: Seq<char>,
    rtyp: Seq<char>,
    before: Timestamp,
)
    requires
        exists|j: int|
            0 <= j < listing.len() && eligible(#[trigger] listing[j], name, rtyp, before),
    ensures
        exists|i: int| is_selected(listing, name, rtyp, before, i),
{
    let best = lemma_first_of_prefix(listing, name, rtyp, before, listing.len() as int);
    assert(is_selected(listing, name, rtyp, before, best));
}

/// The revisions of `resources` that have the name and the type asked for, in
/// the order in which they are listed.
pub fn filter_resources_by_name_and_type<'a>(
    resources: &'a Vec<CheqdResourceMetadata>,
    name: &str,
    rtyp: &str,
) -> (kept: Vec<&'a CheqdResourceMetadata>)
    ensures
        kept@.unref() == resources@.filter(|m: CheqdResourceMetadata| named(m, name@, rtyp@)),
{
    let (kept, _) = filter_with_origin(resources, name, rtyp);
    kept
}

/// As `filter_resources_by_name_and_type`, with the place in `resources` of
/// each revision that it keeps.
fn filter_with_origin<'a>(
    resources: &'a Vec<CheqdResourceMetadata>,
    name: &str,
    rtyp: &str,
) -> (out: (Vec<&'a CheqdResourceMetadata>, Ghost<Seq<int>>))
    ensures
        out.0@.unref() == resources@.filter(|m: CheqdResourceMetadata| named(m, name@, rtyp@)),
        out.0.len() == out.1@.len(),
        forall|k: int|
            0 <= k < out.0.len() ==> {
                &&& 0 <= #[trigger] out.1@[k] < resources.len()
                &&& *out.0@[k] == resources@[out.1@[k]]
                &&& named(resources@[out.1@[k]], name@, rtyp@)
            },
        forall|a: int, b: int| 0 <= a < b < out.0.len() ==> out.1@[a] < out.1@[b],
        forall|i: int|
            0 <= i < resources.len() && named(#[trigger] resources@[i], name@, rtyp@)
                ==> out.1@.contains(i),
{
    let ghost pred = |m: CheqdResourceMetadata| named(m, name@, rtyp@);
    let mut kept: Vec<&CheqdResourceMetadata> = Vec::new();
    let ghost mut origin: Seq<int> = Seq::empty();
    let mut i: usize = 0;
    proof {
        reveal(Seq::filter);
        assert(resources@.take(0).filter(pred) =~= Seq::<CheqdResourceMetadata>::empty());
        assert(kept@.unref() =~= Seq::<CheqdResourceMetadata>::empty());
    }
    while i < resources.len()
        invariant
            i <= resources.len(),
            pred == |m: CheqdResourceMetadata| named(m, name@, rtyp@),
            kept@.unref() == resources@.take(i as int).filter(pred),
            kept.len() == origin.len(),
            forall|k: int|
                0 <= k < kept.len() ==> {
                    &&& 0 <= #[trigger] origin[k] < i
                    &&& *kept@[k] == resources@[origin[k]]
                    &&& named(resources@[origin[k]], name@, rtyp@)
                },
            forall|a: int, b: int| 0 <= a < b < kept.len() ==> origin[a] < origin[b],
            forall|j: int|
                0 <= j < i && named(#[trigger] resources@[j], name@, rtyp@) ==> origin.contains(j),
        decreases resources.len() - i,
    {
        let r = &resources[i];
        let ghost before_kept = kept@;
        let ghost before_origin = origin;
        proof {
            resources@.lemma_take_succ_push(i as int);
            resources@.take(i as int).lemma_filter_push(resources@[i as int], pred);
        }
        if str_eq(r.name.as_str(), name) && str_eq(r.resource_type.as_str(), rtyp) {
            kept.push(r);
            proof {
                origin = origin.push(i as int);
                assert(kept@.unref() =~= before_kept.unref().push(resources@[i as int]));
                assert(origin[kept.len() - 1] == i);
                assert forall|j: int|
                    0 <= j < i + 1 && named(
                        #[trigger] resources@[j],
                        name@,
                        rtyp@,
                    ) implies origin.contains(j) by {
                    if j < i {
                        let k = before_origin.index_of(j);
                        assert(origin[k] == j);
                    }
                }
            }
        }
        i += 1;
    }
    proof {
        assert(resources@.take(resources.len() as int) =~= resources@);
    }
    (kept, Ghost(origin))
}

/// The order of two revisions when the later is to come first: `Less` where
/// `b` was created later than `a`, `Greater` where `a` was created later than
/// `b`, `Equal` where they are of the same time.
///
/// Handed to a sort with its arguments in their order, it sorts from the
/// latest to the earliest.
pub fn desc_chronological_sort_resources(
    b: &CheqdResourceMetadata,
    a: &CheqdResourceMetadata,
) -> (order: Ordering)
    ensures
        order == Ordering::Less <==> later(*b, *a),
        order == Ordering::Greater <==> later(*a, *b),
{
    let x = order_time_of(a);
    let y = order_time_of(b);
    if x.seconds < y.seconds {
        Ordering::Less
    } else if x.seconds > y.seconds {
        Ordering::Greater
    } else if x.nanos < y.nanos {
        Ordering::Less
    } else if x.nanos > y.nanos {
        Ordering::Greater
    } else {
        Ordering::Equal
    }
}

/// The time by which `m` is ordered.
fn order_time_of(m: &CheqdResourceMetadata) -> (time: Timestamp)
    ensures
        time == order_time(*m),
{
    match m.created {
        Some(t) => t.normalized(),
        None => Timestamp { seconds: 0, nanos: 0 },
    }
}

/// Whether `x` is to stand before `e`, being later.
fn goes_before(x: &CheqdResourceMetadata, e: &CheqdResourceMetadata) -> (yes: bool)
    ensures
        yes == later(*x, *e),
{
    match desc_chronological_sort_resources(x, e) {
        Ordering::Less => true,
        _ => false,
    }
}

/// `items` from the latest to the earliest; those of the same time keep their
/// order. With the sorted revisions comes, for each, its place in `items`.
fn sort_descending<'a>(items: &Vec<&'a CheqdResourceMetadata>) -> (out: (
    Vec<&'a CheqdResourceMetadata>,
    Ghost<Seq<int>>,
))
    ensures
        out.0.len() == items.len(),
        out.1@.len() == items.len(),
        forall|k: int|
            0 <= k < items.len() ==> 0 <= #[trigger] out.1@[k] < items.len() && out.0@[k]
                == items@[out.1@[k]],
        forall|t: int| 0 <= t < items.len() ==> out.1@.contains(t),
        forall|a: int, b: int|
            0 <= a < b < items.len() ==> precedes(items@.unref(), out.1@[a], out.1@[b]),
{
    let ghost values = items@.unref();
    let mut sorted: Vec<&CheqdResourceMetadata> = Vec::new();
    let ghost mut from: Seq<int> = Seq::empty();
    let mut t: usize = 0;
    while t < items.len()
        invariant
            t <= items.len(),
            values == items@.unref(),
            sorted.len() == t,
            from.len() == t,
            forall|k: int|
                0 <= k < t ==> 0 <= #[trigger] from[k] < t && sorted@[k] == items@[from[k]],
            forall|u: int| 0 <= u < t ==> from.contains(u),
            forall|a: int, b: int| 0 <= a < b < t ==> precedes(values, from[a], from[b]),
        decreases items.len() - t,
    {
        let x = items[t];
        let mut p: usize = 0;
        while p < sorted.len() && !goes_before(x, sorted[p])
            invariant
                p <= sorted.len(),
                sorted.len() == t,
                forall|q: int| 0 <= q < p ==> !later(*x, *sorted@[q]),
            decreases sorted.len() - p,
        {
            p += 1;
        }
        let ghost before_sorted = sorted@;
        let ghost before_from = from;
        sorted.insert(p, x);
        proof {
            from = from.insert(p as int, t as int);
            assert forall|k: int| 0 <= k < t + 1 implies 0 <= #[trigger] from[k] < t + 1
                && sorted@[k] == items@[from[k]] by {
                if k < p {
                    assert(from[k] == before_from[k]);
                } else if k > p {
                    assert(from[k] == before_from[k - 1]);
                }
            }
            assert forall|u: int| 0 <= u < t + 1 implies from.contains(u) by {
                if u < t {
                    assert(before_from.contains(u));
                    let k = before_from.index_of(u);
                    if k < p {
                        assert(from[k] == u);
                    } else {
                        assert(from[k + 1] == u);
                    }
                } else {
                    assert(from[p as int] == u);
                }
            }
            assert forall|a: int, b: int| 0 <= a < b < t + 1 implies precedes(
                values,
                from[a],
                from[b],
            ) by {
                let old_a = if a < p {
                    a
                } else {
                    a - 1
                };
                let old_b = if b < p {
                    b
                } else {
                    b - 1
                };
                if a == p {
                    // x before a revision that stood at or after p
                    assert(from[b] == before_from[old_b]);
                    assert(values[from[b]] == *before_sorted[old_b]);
                    if old_b > p {
                        assert(precedes(values, before_from[p as int], before_from[old_b]));
                    }
                    assert(later(*x, *before_sorted[p as int]));
                } else if b == p {
                    // a revision that stood before p, before x
                    assert(from[a] == before_from[old_a]);
                    assert(values[from[a]] == *before_sorted[old_a]);
                    assert(!later(*x, *before_sorted[old_a]));
                } else {
                    assert(from[a] == before_from[old_a]);
                    assert(from[b] == before_from[old_b]);
                    assert(precedes(values, before_from[old_a], before_from[old_b]));
                }
            }
        }
        t += 1;
    }
    (sorted, Ghost(from))
}

/// The place of the first revision of `resources` that was created before
/// `before`, or their number where none was.
fn first_before(resources: &Vec<&CheqdResourceMetadata>, before: Timestamp) -> (k: usize)
    ensures
        k <= resources.len(),
        forall|j: int| 0 <= j < k ==> !created_before(*#[trigger] resources@[j], before),
        k < resources.len() ==> created_before(*resources@[k as int], before),
{
    let mut k: usize = 0;
    while k < resources.len()
        invariant
            k <= resources.len(),
            forall|j: int| 0 <= j < k ==> !created_before(*#[trigger] resources@[j], before),
        decreases resources.len() - k,
    {
        if let Some(created) = resources[k].created {
            if created.before(&before) {
                return k;
            }
        }
        k += 1;
    }
    k
}

/// The first revision of `resources` that was created before the instant
/// `before_time`. Where `resources` run from the latest to the earliest, this
/// is the latest revision that existed before that instant.
pub fn find_resource_just_before_time<'a>(
    resources: &Vec<&'a CheqdResourceMetadata>,
    before_time: Timestamp,
) -> (found: Option<&'a CheqdResourceMetadata>)
    ensures
        match found {
            Some(m) => exists|k: int|
                {
                    &&& 0 <= k < resources.len()
                    &&& m == #[trigger] resources@[k]
                    &&& created_before(*m, before_time)
                    &&& forall|j: int|
                        0 <= j < k ==> !created_before(*#[trigger] resources@[j], before_time)
                },
            None => forall|j: int|
                0 <= j < resources.len() ==> !created_before(
                    *#[trigger] resources@[j],
                    before_time,
                ),
        },
{
    let k = first_before(resources, before_time);
    if k < resources.len() {
        Some(resources[k])
    } else {
        None
    }
}

/// The revision of the name and type asked for that a lookup as of `before`
/// selects among `resources`: the latest that was created before that
/// instant, and of several of that time the one listed first. `None` where no
/// revision of that name and type was created before it.
pub fn select_revision<'a>(
    resources: &'a Vec<CheqdResourceMetadata>,
    name: &str,
    rtyp: &str,
    before: Timestamp,
) -> (found: Option<&'a CheqdResourceMetadata>)
    ensures
        match found {
            Some(m) => exists|i: int|
                is_selected(resources@, name@, rtyp@, before, i) && *m == #[trigger] resources@[i],
            None => forall|j: int|
                0 <= j < resources.len() ==> !eligible(
                    #[trigger] resources@[j],
                    name@,
                    rtyp@,
                    before,
                ),
        },
{
    let (kept, Ghost(origin)) = filter_with_origin(resources, name, rtyp);
    let (sorted, Ghost(from)) = sort_descending(&kept);
    let k = first_before(&sorted, before);
    if k < sorted.len() {
        proof {
            let i = origin[from[k as int]];
            assert(*sorted@[k as int] == resources@[i]);
            assert forall|j: int|
                0 <= j < resources.len() && j != i && eligible(
                    #[trigger] resources@[j],
                    name@,
                    rtyp@,
                    before,
                ) implies precedes(resources@, i, j) by {
                assert(origin.contains(j));
                let u = origin.index_of(j);
                assert(from.contains(u));
                let v = from.index_of(u);
                assert(*sorted@[v] == resources@[j]);
                assert(v >= k);
                assert(v != k);
                assert(precedes(kept@.unref(), from[k as int], from[v]));
            }
            assert(is_selected(resources@, name@, rtyp@, before, i));
        }
        Some(sorted[k])
    } else {
        proof {
            assert forall|j: int| 0 <= j < resources.len() implies !eligible(
                #[trigger] resources@[j],
                name@,
                rtyp@,
                before,
            ) by {
                if named(resources@[j], name@, rtyp@) {
                    assert(origin.contains(j));
                    let u = origin.index_of(j);
                    assert(from.contains(u));
                    let v = from.index_of(u);
                    assert(*sorted@[v] == resources@[j]);
                }
            }
        }
        None
    }
}

} // verus!
