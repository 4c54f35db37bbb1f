//! The order of texts, and sorting by it.
//!
//! Texts are ordered as strings are: character by character, a text
//! standing before every longer text that begins with it.

use vstd::prelude::*;
use vstd::relations::{sorted_by, total_ordering};
use vstd::seq_lib::{lemma_multiset_commutative, lemma_sorted_unique};
use crate::lister::texts;
use crate::text::chars_of;

verus! {

/// Whether `a` stands before `b` or equals it.
pub open spec fn text_le(a: Seq<char>, b: Seq<char>) -> bool
    decreases a.len(),
{
    if a.len() == 0 {
        true
    } else if b.len() == 0 {
        false
    } else if a[0] != b[0] {
        a[0] < b[0]
    } else {
        text_le(a.drop_first(), b.drop_first())
    }
}

/// The order of texts as a relation.
pub open spec fn text_order() -> spec_fn(Seq<char>, Seq<char>) -> bool {
    |a: Seq<char>, b: Seq<char>| text_le(a, b)
}

/// The texts in ascending order.
pub open spec fn sorted_texts(items: Seq<Seq<char>>) -> Seq<Seq<char>> {
    items.sort_by(text_order())
}

proof fn lemma_text_le_reflexive(a: Seq<char>)
    ensures
        text_le(a, a),
    decreases a.len(),
{
    if a.len() > 0 {
        lemma_text_le_reflexive(a.drop_first());
    }
}

proof fn lemma_text_le_antisymmetric(a: Seq<char>, b: Seq<char>)
    requires
        text_le(a, b),
        text_le(b, a),
    ensures
        a == b,
    decreases a.len(),
{
    if a.len() == 0 || b.len() == 0 {
        assert(a =~= b);
    } else {
        lemma_text_le_antisymmetric(a.drop_first(), b.drop_first());
        assert(a =~= seq![a[0]] + a.drop_first());
        assert(b =~= seq![b[0]] + b.drop_first());
    }
}

proof fn lemma_text_le_transitive(a: Seq<char>, b: Seq<char>, c: Seq<char>)
    requires
        text_le(a, b),
        text_le(b, c),
    ensures
        text_le(a, c),
    decreases a.len(),
{
    if a.len() > 0 && b.len() > 0 && c.len() > 0 && a[0] == b[0] && b[0] == c[0] {
        lemma_text_le_transitive(a.drop_first(), b.drop_first(), c.drop_first());
    }
}

proof fn lemma_text_le_connected(a: Seq<char>, b: Seq<char>)
    ensures
        text_le(a, b) || text_le(b, a),
    decreases a.len(),
{
    if a.len() > 0 && b.len() > 0 && a[0] == b[0] {
        lemma_text_le_connected(a.drop_first(), b.drop_first());
    }
}

/// The order of texts is a total order.
pub proof fn lemma_text_order_total()
    ensures
        total_ordering(text_order()),
{
    let r = text_order();
    assert forall|x: Seq<char>| #[trigger] r(x, x) by {
        lemma_text_le_reflexive(x);
    }
    assert forall|x: Seq<char>, y: Seq<char>| #[trigger] r(x, y) && #[trigger] r(y, x) implies x
        == y by {
        lemma_text_le_antisymmetric(x, y);
    }
    assert forall|x: Seq<char>, y: Seq<char>, z: Seq<char>| #[trigger]
        r(x, y) && #[trigger] r(y, z) implies r(x, z) by {
        lemma_text_le_transitive(x, y, z);
    }
    assert forall|x: Seq<char>, y: Seq<char>| #[trigger] r(x, y) || #[trigger] r(y, x) by {
        lemma_text_le_connected(x, y);
    }
}

/// Sorting keeps every text as often as it occurs and puts the texts in
/// ascending order; no other sequence does both.
pub proof fn law_sorted_texts(items: Seq<Seq<char>>)
    ensures
        sorted_texts(items).to_multiset() == items.to_multiset(),
        sorted_by(sorted_texts(items), text_order()),
        forall|other: Seq<Seq<char>>|
            other.to_multiset() == items.to_multiset() && sorted_by(other, text_order())
                ==> other == sorted_texts(items),
{
    lemma_text_order_total();
    items.lemma_sort_by_ensures(text_order());
    assert forall|other: Seq<Seq<char>>|
        other.to_multiset() == items.to_multiset() && sorted_by(
            other,
            text_order(),
        ) implies other == sorted_texts(items) by {
        lemma_sorted_unique(other, sorted_texts(items), text_order());
    }
}

/// Whether the text `a` stands before the text `b` or equals it.
pub fn le_chars(a: &Vec<char>, b: &Vec<char>) -> (r: bool)
    ensures
        r == text_le(a@, b@),
{
    let mut i: usize = 0;
    assert(a@.subrange(0, a@.len() as int) == a@);
    assert(b@.subrange(0, b@.len() as int) == b@);
    while i < a.len()
        invariant
            i <= a.len(),
            i <= b.len(),
            text_le(a@, b@) == text_le(
                a@.subrange(i as int, a@.len() as int),
                b@.subrange(i as int, b@.len() as int),
            ),
        decreases a.len() - i,
    {
        let ghost x = a@.subrange(i as int, a@.len() as int);
        let ghost y = b@.subrange(i as int, b@.len() as int);
        if i >= b.len() {
            assert(y.len() == 0);
            return false;
        }
        assert(x[0] == a@[i as int] && y[0] == b@[i as int]);
        if a[i] != b[i] {
            return a[i] < b[i];
        }
        assert(x.drop_first() == a@.subrange(i + 1, a@.len() as int));
        assert(y.drop_first() == b@.subrange(i + 1, b@.len() as int));
        i += 1;
    }
    true
}

/// Sorts names in ascending order.
pub fn sort_names(names: Vec<String>) -> (sorted: Vec<String>)
    ensures
        texts(sorted@) == sorted_texts(texts(names@)),
{
    let ghost items = texts(names@);
    let mut out: Vec<String> = Vec::new();
    let mut i: usize = 0;
    assert(texts(out@) =~= Seq::empty());
    assert(items.subrange(0, 0) =~= Seq::empty());
    while i < names.len()
        invariant
            i <= names.len(),
            items == texts(names@),
            sorted_by(texts(out@), text_order()),
            texts(out@).to_multiset() == items.subrange(0, i as int).to_multiset(),
            out@.len() == i,
        decreases names.len() - i,
    {
        let name = names[i].clone();
        let x = chars_of(name.as_str());
        let ghost before = texts(out@);
        // The place after every name that does not stand after this one.
        let mut p: usize = 0;
        while p < out.len()
            invariant
                p <= out.len(),
                before == texts(out@),
                x@ == name@,
                forall|k: int| 0 <= k < p ==> text_le(#[trigger] before[k], x@),
            ensures
                p <= out.len(),
                forall|k: int| 0 <= k < p ==> text_le(#[trigger] before[k], x@),
                p < out.len() ==> !text_le(before[p as int], x@),
            decreases out.len() - p,
        {
            let y = chars_of(out[p].as_str());
            if !le_chars(&y, &x) {
                break;
            }
            p += 1;
        }
        out.insert(p, name);
        proof {
            let after = texts(out@);
            assert(after =~= before.insert(p as int, x@));
            let r = text_order();
            assert forall|m: int, n: int| 0 <= m < n < after.len() implies #[trigger] r(
                after[m],
                after[n],
            ) by {
                if n < p {
                    assert(r(before[m], before[n]));
                } else if n == p {
                    assert(text_le(before[m], x@));
                } else if m == p {
                    // before[p] stands after x, and before[n - 1] not before it.
                    lemma_text_le_connected(before[p as int], x@);
                    if n - 1 > p {
                        assert(r(before[p as int], before[n - 1]));
                        lemma_text_le_transitive(x@, before[p as int], before[n - 1]);
                    }
                } else if m < p {
                    assert(r(before[m], before[n - 1]));
                } else {
                    assert(r(before[m - 1], before[n - 1]));
                }
            }
            // The names so far, with the new one, are what was inserted into.
            let head = before.subrange(0, p as int);
            let tail = before.subrange(p as int, before.len() as int);
            assert(before =~= head + tail);
            assert(after =~= head.push(x@) + tail);
            lemma_multiset_commutative(head, tail);
            lemma_multiset_commutative(head.push(x@), tail);
            head.to_multiset_ensures();
            assert(after.to_multiset() =~= before.to_multiset().insert(x@));
            let seen = items.subrange(0, i as int);
            assert(items.subrange(0, i + 1) =~= seen.push(x@));
            seen.to_multiset_ensures();
        }
        i += 1;
    }
    proof {
        assert(items.subrange(0, i as int) == items);
        law_sorted_texts(items);
    }
    out
}

} // verus!
