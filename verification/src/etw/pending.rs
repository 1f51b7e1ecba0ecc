//! Stack walks that wait for the event they belong to, by timestamp.

use crate::etw::decode::{DecodedStackWalkEvent, StackWalkInput};
use std::collections::BTreeMap;
use vstd::prelude::*;

verus! {

/// The most timestamps that wait at the same time.
pub const MAX_PENDING_STACK_TIMESTAMPS: usize = 4096;

/// The most stack walks that wait under one timestamp.
pub const MAX_PENDING_STACKS_PER_TIMESTAMP: usize = 32;

/// The views of a list of stack walks.
pub open spec fn walk_views(v: Seq<DecodedStackWalkEvent>) -> Seq<StackWalkInput> {
    v.map_values(|s: DecodedStackWalkEvent| s@)
}

/// The view of a table of stack walks.
pub open spec fn pending_view(m: Map<i64, Vec<DecodedStackWalkEvent>>) -> Map<
    i64,
    Seq<StackWalkInput>,
> {
    m.map_values(|v: Vec<DecodedStackWalkEvent>| walk_views(v@))
}

/// The number of elements in all lists of a table.
pub open spec fn total<A>(m: Map<i64, Seq<A>>) -> nat
    decreases m.dom().len(),
{
    if m.dom().finite() && m.dom().len() > 0 {
        let k = m.dom().choose();
        m[k].len() + total(m.remove(k))
    } else {
        0
    }
}

/// Taking one list out of a table lowers the total by the length of that list.
pub proof fn total_remove<A>(m: Map<i64, Seq<A>>, k: i64)
    requires
        m.dom().finite(),
        m.contains_key(k),
    ensures
        total(m) == m[k].len() + total(m.remove(k)),
    decreases m.dom().len(),
{
    let c = m.dom().choose();
    assert(m.dom().len() > 0);
    if c != k {
        total_remove(m.remove(c), k);
        total_remove(m.remove(k), c);
        assert(m.remove(c).remove(k) =~= m.remove(k).remove(c));
    }
}

/// Putting a list under a free key raises the total by its length.
pub proof fn total_insert<A>(m: Map<i64, Seq<A>>, k: i64, s: Seq<A>)
    requires
        m.dom().finite(),
        !m.contains_key(k),
    ensures
        total(m.insert(k, s)) == total(m) + s.len(),
{
    total_remove(m.insert(k, s), k);
    assert(m.insert(k, s).remove(k) =~= m);
}

/// The part of a table from a timestamp on.
pub open spec fn kept<A>(m: Map<i64, Seq<A>>, timestamp: i64) -> Map<i64, Seq<A>> {
    m.restrict(Set::new(|k: i64| k >= timestamp))
}

/// The part of a table before a timestamp.
pub open spec fn outdated<A>(m: Map<i64, Seq<A>>, timestamp: i64) -> Map<i64, Seq<A>> {
    m.restrict(Set::new(|k: i64| k < timestamp))
}

/// Nothing is lost between the two parts of a table.
pub proof fn total_split<A>(m: Map<i64, Seq<A>>, timestamp: i64)
    requires
        m.dom().finite(),
    ensures
        total(m) == total(kept(m, timestamp)) + total(outdated(m, timestamp)),
    decreases m.dom().len(),
{
    let keep = kept(m, timestamp);
    let old = outdated(m, timestamp);
    assert(keep.dom().subset_of(m.dom()));
    assert(old.dom().subset_of(m.dom()));
    vstd::set_lib::lemma_set_subset_finite(m.dom(), keep.dom());
    vstd::set_lib::lemma_set_subset_finite(m.dom(), old.dom());
    if m.dom().len() > 0 {
        let k = m.dom().choose();
        total_split(m.remove(k), timestamp);
        if k >= timestamp {
            total_remove(keep, k);
            assert(keep.remove(k) =~= kept(m.remove(k), timestamp));
            assert(old =~= outdated(m.remove(k), timestamp));
        } else {
            total_remove(old, k);
            assert(old.remove(k) =~= outdated(m.remove(k), timestamp));
            assert(keep =~= kept(m.remove(k), timestamp));
        }
    } else {
        assert(m.dom() =~= Set::empty());
        assert(keep.dom() =~= Set::empty());
        assert(old.dom() =~= Set::empty());
    }
}

/// Whether `k` is the smallest key of a table.
pub open spec fn oldest_key<A>(m: Map<i64, A>, k: i64) -> bool {
    &&& m.contains_key(k)
    &&& forall|j: i64| #[trigger] m.contains_key(j) ==> k <= j
}

/// The smallest key of a table.
pub fn oldest<A>(m: &BTreeMap<i64, A>) -> (r: Option<i64>)
    ensures
        match r {
            Some(k) => oldest_key(m@, k),
            None => m@.dom() =~= Set::empty(),
        },
{
    let entries = m.iter();
    let ghost all = vstd::std_specs::iter::IteratorSpec::remaining(&entries);
    let ghost keys = all.map_values(|kv: (&i64, &A)| *kv.0);
    proof {
        broadcast use vstd::std_specs::btree::group_btree_axioms;

        assert(vstd::std_specs::btree::increasing_seq(keys));
    }
    for kv in it: entries
        invariant
            it.index() == 0,
            it.seq() == all,
            keys == all.map_values(|kv: (&i64, &A)| *kv.0),
            vstd::std_specs::btree::increasing_seq(keys),
            all == vstd::std_specs::iter::IteratorSpec::remaining(
                &vstd::std_specs::btree::spec_btree_map_iter(m),
            ),
    {
        let k = *kv.0;
        proof {
            broadcast use vstd::std_specs::btree::group_btree_axioms;

            assert(keys[0] == k);
            assert(m@.contains_key(*all[0].0));
            assert forall|j: i64| #[trigger] m@.contains_key(j) implies k <= j by {
                assert(all.contains((&j, &m@[j])));
                let i = choose|i: int| 0 <= i < all.len() && all[i] == (&j, &m@[j]);
                assert(keys[i] == j);
                assert(0 < i ==> vstd::std_specs::cmp::OrdSpec::cmp_spec(
                    &keys[0],
                    &keys[i],
                ) is Less);
            }
        }
        return Some(k);
    }
    None
}

} // verus!
