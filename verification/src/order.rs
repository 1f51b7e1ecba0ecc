//! Sorting of texts.

use crate::text;
use crate::text::chars_of;
use vstd::prelude::*;

verus! {

/// Whether a text comes before another or equals it, character by character.
pub open spec fn text_le(a: Seq<char>, b: Seq<char>) -> bool
    decreases a.len(),
{
    if a.len() == 0 {
        true
    } else if b.len() == 0 {
        false
    } else if a[0] != b[0] {
        a[0] < b[0]
    } else {
        text_le(a.drop_first(), b.drop_first())
    }
}

/// Whether a list of texts is in order.
pub open spec fn sorted(s: Seq<Seq<char>>) -> bool {
    forall|i: int, j: int| 0 <= i <= j < s.len() ==> text_le(#[trigger] s[i], #[trigger] s[j])
}

/// A list with one more text, behind the last one that does not come after it.
pub open spec fn inserted(s: Seq<Seq<char>>, x: Seq<char>) -> Seq<Seq<char>>
    decreases s.len(),
{
    if s.len() == 0 || text_le(s.last(), x) {
        s.push(x)
    } else {
        inserted(s.drop_last(), x).push(s.last())
    }
}

/// The texts of a list in order.
pub open spec fn sort(s: Seq<Seq<char>>) -> Seq<Seq<char>>
    decreases s.len(),
{
    if s.len() == 0 {
        Seq::empty()
    } else {
        inserted(sort(s.drop_last()), s.last())
    }
}

proof fn le_reflexive(a: Seq<char>)
    ensures
        text_le(a, a),
    decreases a.len(),
{
    if a.len() > 0 {
        le_reflexive(a.drop_first());
    }
}

proof fn le_transitive(a: Seq<char>, b: Seq<char>, c: Seq<char>)
    requires
        text_le(a, b),
        text_le(b, c),
    ensures
        text_le(a, c),
    decreases a.len(),
{
    if a.len() > 0 && b.len() > 0 && c.len() > 0 && a[0] == b[0] && b[0] == c[0] {
        le_transitive(a.drop_first(), b.drop_first(), c.drop_first());
    }
}

proof fn le_total(a: Seq<char>, b: Seq<char>)
    ensures
        text_le(a, b) || text_le(b, a),
    decreases a.len(),
{
    if a.len() > 0 && b.len() > 0 && a[0] == b[0] {
        le_total(a.drop_first(), b.drop_first());
    }
}

proof fn inserted_facts(s: Seq<Seq<char>>, x: Seq<char>)
    requires
        sorted(s),
    ensures
        sorted(inserted(s, x)),
        inserted(s, x).len() == s.len() + 1,
        inserted(s, x).to_multiset() == s.to_multiset().insert(x),
        forall|y: Seq<char>|
            (forall|i: int| 0 <= i < s.len() ==> text_le(#[trigger] s[i], y)) && text_le(x, y)
                ==> (forall|i: int|
                0 <= i < inserted(s, x).len() ==> text_le(#[trigger] inserted(s, x)[i], y)),
    decreases s.len(),
{
    broadcast use vstd::seq_lib::group_to_multiset_ensures;

    let t = inserted(s, x);
    if s.len() == 0 || text_le(s.last(), x) {
        le_reflexive(x);
        assert forall|i: int, j: int| 0 <= i <= j < t.len() implies text_le(
            #[trigger] t[i],
            #[trigger] t[j],
        ) by {
            if j == s.len() && i < s.len() {
                le_transitive(s[i], s.last(), x);
            }
        }
    } else {
        let rest = s.drop_last();
        inserted_facts(rest, x);
        le_total(s.last(), x);
        le_reflexive(s.last());
        assert(forall|i: int| 0 <= i < rest.len() ==> text_le(#[trigger] rest[i], s.last()));
        let u = inserted(rest, x);
        assert forall|i: int, j: int| 0 <= i <= j < t.len() implies text_le(
            #[trigger] t[i],
            #[trigger] t[j],
        ) by {
            if j < u.len() {
                assert(text_le(u[i], u[j]));
            } else if i < u.len() {
                assert(text_le(u[i], s.last()));
            }
        }
        assert(s =~= rest.push(s.last()));
        assert(t.to_multiset() =~= s.to_multiset().insert(x));
        assert forall|y: Seq<char>|
            (forall|i: int| 0 <= i < s.len() ==> text_le(#[trigger] s[i], y)) && text_le(
                x,
                y,
            ) implies (forall|i: int| 0 <= i < t.len() ==> text_le(#[trigger] t[i], y)) by {
            assert forall|i: int| 0 <= i < t.len() implies text_le(#[trigger] t[i], y) by {
                assert(forall|k: int| 0 <= k < rest.len() ==> rest[k] == #[trigger] s[k]);
                if i < u.len() {
                    assert(text_le(u[i], y));
                } else {
                    assert(t[i] == s[s.len() - 1]);
                }
            }
        }
    }
}

/// Sorting puts texts in order and neither adds, drops nor changes any.
pub proof fn sort_sorts(s: Seq<Seq<char>>)
    ensures
        sorted(sort(s)),
        sort(s).to_multiset() == s.to_multiset(),
    decreases s.len(),
{
    broadcast use vstd::seq_lib::group_to_multiset_ensures;

    if s.len() > 0 {
        sort_sorts(s.drop_last());
        inserted_facts(sort(s.drop_last()), s.last());
        assert(s =~= s.drop_last().push(s.last()));
    } else {
        assert(sort(s) =~= s);
    }
}

fn comes_first(a: &str, b: &str) -> (r: bool)
    ensures
        r == text_le(a@, b@),
{
    let x = chars_of(a);
    let y = chars_of(b);
    let mut i: usize = 0;
    assert(a@.skip(0) =~= a@);
    assert(b@.skip(0) =~= b@);
    while i < x.len() && i < y.len()
        invariant
            i <= x@.len(),
            i <= y@.len(),
            x@ == a@,
            y@ == b@,
            text_le(a@, b@) == text_le(a@.skip(i as int), b@.skip(i as int)),
        decreases x@.len() - i,
    {
        assert(a@.skip(i as int).drop_first() =~= a@.skip(i + 1));
        assert(b@.skip(i as int).drop_first() =~= b@.skip(i + 1));
        if x[i] != y[i] {
            return x[i] < y[i];
        }
        i += 1;
    }
    i == x.len()
}

/// The texts of a list in order.
pub fn sort_texts(v: &[String]) -> (r: Vec<String>)
    ensures
        text::views(r@) == sort(text::views(v@)),
{
    let ghost all = text::views(v@);
    let mut out: Vec<String> = Vec::new();
    let mut i: usize = 0;
    assert(all.take(0) =~= Seq::<Seq<char>>::empty());
    assert(text::views(out@) =~= sort(all.take(0)));
    while i < v.len()
        invariant
            i <= v@.len(),
            all == text::views(v@),
            text::views(out@) == sort(all.take(i as int)),
        decreases v@.len() - i,
    {
        let ghost before = text::views(out@);
        assert(all.take(i + 1).drop_last() =~= all.take(i as int));
        assert(all.take(i + 1).last() == v@[i as int]@);
        let mut at: usize = out.len();
        assert(before.take(at as int) =~= before);
        assert(before.skip(at as int) =~= Seq::<Seq<char>>::empty());
        assert(inserted(before, all[i as int]) =~= inserted(
            before.take(at as int),
            all[i as int],
        ) + before.skip(at as int));
        while at > 0 && !comes_first(out[at - 1].as_str(), v[i].as_str())
            invariant
                at <= out@.len(),
                i < v@.len(),
                all == text::views(v@),
                before == text::views(out@),
                inserted(before, all[i as int]) == inserted(before.take(at as int), all[i as int])
                    + before.skip(at as int),
            decreases at,
        {
            let ghost front = before.take(at as int);
            assert(front.last() == out@[at - 1]@);
            assert(front.drop_last() =~= before.take(at - 1));
            assert(inserted(before.take(at - 1), all[i as int]).push(front.last()) + before.skip(
                at as int,
            ) =~= inserted(before.take(at - 1), all[i as int]) + before.skip(at - 1));
            at -= 1;
        }
        proof {
            let front = before.take(at as int);
            if at > 0 {
                assert(front.last() == out@[at - 1]@);
            }
            assert(inserted(front, all[i as int]) == front.push(all[i as int]));
        }
        out.insert(at, v[i].clone());
        assert(text::views(out@) =~= before.take(at as int).push(all[i as int]) + before.skip(
            at as int,
        ));
        i += 1;
    }
    assert(all.take(i as int) =~= all);
    out
}

/// Whether a text comes before another, looking from an index on.
pub open spec fn text_lt(a: Seq<char>, b: Seq<char>, from: int) -> bool
    decreases b.len() - from,
{
    if from >= b.len() {
        false
    } else if from >= a.len() {
        true
    } else if a[from] != b[from] {
        a[from] < b[from]
    } else {
        text_lt(a, b, from + 1)
    }
}

proof fn lt_irreflexive(a: Seq<char>, from: int)
    ensures
        !text_lt(a, a, from),
    decreases a.len() - from,
{
    if from < a.len() {
        lt_irreflexive(a, from + 1);
    }
}

proof fn lt_transitive(a: Seq<char>, b: Seq<char>, c: Seq<char>, from: int)
    requires
        text_lt(a, b, from),
        text_lt(b, c, from),
    ensures
        text_lt(a, c, from),
    decreases c.len() - from,
{
    if from < a.len() && a[from] == b[from] && b[from] == c[from] {
        lt_transitive(a, b, c, from + 1);
    }
}

proof fn lt_along(s: Seq<Seq<char>>, i: int, j: int)
    requires
        forall|k: int| 0 <= k < s.len() - 1 ==> text_lt(#[trigger] s[k], s[k + 1], 0),
        0 <= i < j < s.len(),
    ensures
        text_lt(s[i], s[j], 0),
    decreases j - i,
{
    assert(text_lt(s[j - 1], s[j - 1 + 1], 0));
    if i < j - 1 {
        lt_along(s, i, j - 1);
        lt_transitive(s[i], s[j - 1], s[j], 0);
    }
}

/// In a list each text of which comes before the next, no text stands twice.
pub proof fn increasing_texts_differ(s: Seq<Seq<char>>)
    requires
        forall|k: int| 0 <= k < s.len() - 1 ==> text_lt(#[trigger] s[k], s[k + 1], 0),
    ensures
        s.no_duplicates(),
{
    assert forall|i: int, j: int| 0 <= i < s.len() && 0 <= j < s.len() && i != j implies s[i]
        != s[j] by {
        if i < j {
            lt_along(s, i, j);
        } else {
            lt_along(s, j, i);
        }
        lt_irreflexive(s[i], 0);
    }
}

} // verus!
