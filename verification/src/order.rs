//! The order of texts, which is the order of their UTF-8 bytes, and sorting by
//! it.

use crate::text::texts;
use vstd::prelude::*;
use vstd::relations::{sorted_by, total_ordering};
use vstd::seq_lib::*;
use vstd::string::*;
use vstd::utf8::{decode_utf8, encode_utf8, encode_utf8_decode_utf8};

verus! {

/// Whether `a` comes before `b` or equals it, byte by byte: the first byte that
/// differs decides, and a prefix comes before what it is a prefix of.
pub open spec fn bytes_le(a: Seq<u8>, b: Seq<u8>) -> bool
    decreases a.len(),
{
    if a.len() == 0 {
        true
    } else if b.len() == 0 {
        false
    } else if a[0] != b[0] {
        a[0] < b[0]
    } else {
        bytes_le(a.drop_first(), b.drop_first())
    }
}

/// Whether text `a` comes before text `b` or equals it.
pub open spec fn text_le(a: Seq<char>, b: Seq<char>) -> bool {
    bytes_le(encode_utf8(a), encode_utf8(b))
}

/// The order of texts as a relation.
pub open spec fn text_order() -> spec_fn(Seq<char>, Seq<char>) -> bool {
    |a: Seq<char>, b: Seq<char>| text_le(a, b)
}

/// The texts in ascending order.
pub open spec fn sorted_texts(list: Seq<Seq<char>>) -> Seq<Seq<char>> {
    list.sort_by(text_order())
}

proof fn lemma_bytes_le_reflexive(a: Seq<u8>)
    ensures
        bytes_le(a, a),
    decreases a.len(),
{
    if a.len() > 0 {
        lemma_bytes_le_reflexive(a.drop_first());
    }
}

proof fn lemma_bytes_le_antisymmetric(a: Seq<u8>, b: Seq<u8>)
    requires
        bytes_le(a, b),
        bytes_le(b, a),
    ensures
        a == b,
    decreases a.len(),
{
    if a.len() == 0 {
        assert(a =~= b);
    } else {
        lemma_bytes_le_antisymmetric(a.drop_first(), b.drop_first());
        assert(a =~= seq![a[0]] + a.drop_first());
        assert(b =~= seq![b[0]] + b.drop_first());
    }
}

proof fn lemma_bytes_le_transitive(a: Seq<u8>, b: Seq<u8>, c: Seq<u8>)
    requires
        bytes_le(a, b),
        bytes_le(b, c),
    ensures
        bytes_le(a, c),
    decreases a.len(),
{
    if a.len() > 0 && a[0] == b[0] && b[0] == c[0] {
        lemma_bytes_le_transitive(a.drop_first(), b.drop_first(), c.drop_first());
    }
}

proof fn lemma_bytes_le_connected(a: Seq<u8>, b: Seq<u8>)
    ensures
        bytes_le(a, b) || bytes_le(b, a),
    decreases a.len(),
{
    if a.len() > 0 && b.len() > 0 && a[0] == b[0] {
        lemma_bytes_le_connected(a.drop_first(), b.drop_first());
    }
}

/// The order of texts is total: reflexive, antisymmetric, transitive, and any
/// two texts are comparable.
pub proof fn lemma_text_order_total()
    ensures
        total_ordering(text_order()),
{
    let r = text_order();
    assert forall|x: Seq<char>| #[trigger] r(x, x) by {
        lemma_bytes_le_reflexive(encode_utf8(x));
    }
    assert forall|x: Seq<char>, y: Seq<char>| #[trigger] r(x, y) && #[trigger] r(y, x) implies x
        == y by {
        lemma_bytes_le_antisymmetric(encode_utf8(x), encode_utf8(y));
        encode_utf8_decode_utf8(x);
        encode_utf8_decode_utf8(y);
        assert(decode_utf8(encode_utf8(x)) == x);
        assert(decode_utf8(encode_utf8(y)) == y);
    }
    assert forall|x: Seq<char>, y: Seq<char>, z: Seq<char>| #[trigger]
        r(x, y) && #[trigger] r(y, z) implies r(x, z) by {
        lemma_bytes_le_transitive(encode_utf8(x), encode_utf8(y), encode_utf8(z));
    }
    assert forall|x: Seq<char>, y: Seq<char>| #[trigger] r(x, y) || #[trigger] r(y, x) by {
        lemma_bytes_le_connected(encode_utf8(x), encode_utf8(y));
    }
}

/// Sorting depends on the texts and how often each occurs, not on the order in
/// which they are given.
pub proof fn lemma_sorted_texts_of_permutation(a: Seq<Seq<char>>, b: Seq<Seq<char>>)
    requires
        a.to_multiset() == b.to_multiset(),
    ensures
        sorted_texts(a) == sorted_texts(b),
{
    lemma_text_order_total();
    a.lemma_sort_by_ensures(text_order());
    b.lemma_sort_by_ensures(text_order());
    lemma_sorted_unique(sorted_texts(a), sorted_texts(b), text_order());
}

/// Whether `a` comes before `b` or equals it, byte by byte.
fn bytes_before_or_equal(a: &[u8], b: &[u8]) -> (le: bool)
    ensures
        le == bytes_le(a@, b@),
{
    let mut i: usize = 0;
    assert(a@.skip(0) =~= a@ && b@.skip(0) =~= b@);
    while i < a.len() && i < b.len()
        invariant
            i <= a.len(),
            i <= b.len(),
            bytes_le(a@, b@) == bytes_le(a@.skip(i as int), b@.skip(i as int)),
        decreases a.len() - i,
    {
        assert(a@.skip(i as int)[0] == a@[i as int]);
        assert(b@.skip(i as int)[0] == b@[i as int]);
        if a[i] != b[i] {
            return a[i] < b[i];
        }
        assert(a@.skip(i as int).drop_first() =~= a@.skip(i + 1));
        assert(b@.skip(i as int).drop_first() =~= b@.skip(i + 1));
        i += 1;
    }
    i == a.len()
}

/// Whether text `a` comes before text `b` or equals it.
pub fn str_le(a: &str, b: &str) -> (le: bool)
    ensures
        le == text_le(a@, b@),
{
    bytes_before_or_equal(a.as_bytes(), b.as_bytes())
}

/// The list without the texts that repeat their left neighbour. Of a sorted
/// list this keeps each text once.
pub open spec fn without_repeats(list: Seq<Seq<char>>) -> Seq<Seq<char>>
    decreases list.len(),
{
    if list.len() <= 1 {
        list
    } else if list.last() == list[list.len() - 2] {
        without_repeats(list.drop_last())
    } else {
        without_repeats(list.drop_last()).push(list.last())
    }
}

/// A copy of a list of strings without those that repeat their left neighbour.
pub fn drop_repeats(list: &Vec<String>) -> (kept: Vec<String>)
    ensures
        texts(kept@) == without_repeats(texts(list@)),
{
    let mut kept: Vec<String> = Vec::new();
    let mut i: usize = 0;
    assert(texts(kept@) =~= without_repeats(texts(list@.take(0))));
    while i < list.len()
        invariant
            i <= list.len(),
            texts(kept@) == without_repeats(texts(list@.take(i as int))),
        decreases list.len() - i,
    {
        let ghost before = texts(kept@);
        let ghost prefix = texts(list@.take(i as int));
        let ghost next = texts(list@.take(i + 1));
        proof {
            crate::text::lemma_texts_take(list@, i as int);
            if i > 0 {
                assert(next[i - 1] == list@[i - 1]@);
            }
        }
        let repeats = i > 0 && crate::text::str_eq(list[i].as_str(), list[i - 1].as_str());
        if !repeats {
            kept.push(list[i].clone());
            assert(texts(kept@) =~= before.push(list@[i as int]@));
        }
        proof {
            if i == 0 {
                assert(next =~= seq![list@[0]@]);
                assert(before =~= Seq::<Seq<char>>::empty());
            }
        }
        i += 1;
    }
    assert(list@.take(list.len() as int) =~= list@);
    kept
}

/// A sorted copy of a list of strings.
pub fn sort_texts(list: &Vec<String>) -> (sorted: Vec<String>)
    ensures
        texts(sorted@) == sorted_texts(texts(list@)),
{
    let mut sorted: Vec<String> = Vec::new();
    let mut i: usize = 0;
    proof {
        lemma_text_order_total();
        assert(texts(sorted@) =~= texts(list@.take(0)));
    }
    while i < list.len()
        invariant
            i <= list.len(),
            total_ordering(text_order()),
            sorted_by(texts(sorted@), text_order()),
            texts(sorted@).to_multiset() == texts(list@.take(i as int)).to_multiset(),
        decreases list.len() - i,
    {
        let item = list[i].clone();
        let mut p: usize = 0;
        while p < sorted.len() && str_le(sorted[p].as_str(), item.as_str())
            invariant
                p <= sorted.len(),
                forall|k: int| 0 <= k < p ==> text_order()(#[trigger] texts(sorted@)[k], item@),
            decreases sorted.len() - p,
        {
            p += 1;
        }
        let ghost before = texts(sorted@);
        sorted.insert(p, item);
        proof {
            let after = texts(sorted@);
            let r = text_order();
            assert(after =~= before.insert(p as int, item@));
            if p < before.len() {
                assert(!r(before[p as int], item@));
                assert(r(item@, before[p as int]));
            }
            assert forall|x: int, y: int| 0 <= x < y < after.len() implies #[trigger] r(
                after[x],
                after[y],
            ) by {
                if y < p {
                    assert(r(before[x], before[y]));
                } else if y == p {
                    assert(r(before[x], item@));
                } else if x == p {
                    if y - 1 > p {
                        assert(r(before[p as int], before[y - 1]));
                    }
                    assert(r(item@, before[y - 1]));
                } else if x < p {
                    assert(r(before[x], before[y - 1]));
                } else {
                    assert(r(before[x - 1], before[y - 1]));
                }
            }
            to_multiset_insert(before, p as int, item@);
            let prefix = texts(list@.take(i as int));
            assert(texts(list@.take(i + 1)) =~= prefix.push(item@));
            to_multiset_build(prefix, item@);
        }
        i += 1;
    }
    proof {
        assert(list@.take(list.len() as int) =~= list@);
        texts(list@).lemma_sort_by_ensures(text_order());
        lemma_sorted_unique(texts(sorted@), sorted_texts(texts(list@)), text_order());
    }
    sorted
}

} // verus!
