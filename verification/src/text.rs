//! Building texts: the views of lists of strings, and joining with a separator.

use vstd::prelude::*;
use vstd::string::*;

verus! {

/// The views of a list of strings, in order.
pub open spec fn texts(list: Seq<String>) -> Seq<Seq<char>> {
    Seq::new(list.len(), |i: int| list[i]@)
}

/// The view of an optional string.
pub open spec fn opt_text(value: Option<String>) -> Option<Seq<char>> {
    match value {
        Some(s) => Some(s@),
        None => None,
    }
}

/// The parts in order, with `sep` between every two neighbours.
pub open spec fn join_texts(parts: Seq<Seq<char>>, sep: Seq<char>) -> Seq<char>
    decreases parts.len(),
{
    if parts.len() == 0 {
        Seq::empty()
    } else if parts.len() == 1 {
        parts[0]
    } else {
        join_texts(parts.drop_last(), sep) + sep + parts.last()
    }
}

/// The first `n + 1` views are the first `n` views followed by the view at `n`.
pub proof fn lemma_texts_take(list: Seq<String>, n: int)
    requires
        0 <= n < list.len(),
    ensures
        texts(list.take(n + 1)).drop_last() == texts(list.take(n)),
        texts(list.take(n + 1)).last() == list[n]@,
        texts(list.take(n + 1)).len() == n + 1,
{
    assert(texts(list.take(n + 1)).drop_last() =~= texts(list.take(n)));
}

/// Joins the strings of `parts` with `sep` between neighbours.
pub fn join(parts: &Vec<String>, sep: &str) -> (out: String)
    ensures
        out@ == join_texts(texts(parts@), sep@),
{
    let mut out = String::new();
    let mut i: usize = 0;
    while i < parts.len()
        invariant
            i <= parts.len(),
            out@ == join_texts(texts(parts@.take(i as int)), sep@),
        decreases parts.len() - i,
    {
        proof {
            lemma_texts_take(parts@, i as int);
        }
        if i > 0 {
            out.append(sep);
        }
        out.append(parts[i].as_str());
        assert(out@ == join_texts(texts(parts@.take(i + 1)), sep@)) by {
            if i == 0 {
                assert(out@ =~= parts@[0]@);
            }
        }
        i += 1;
    }
    assert(parts@.take(parts.len() as int) =~= parts@);
    out
}

/// A copy of a list of strings.
pub fn clone_texts(list: &Vec<String>) -> (copy: Vec<String>)
    ensures
        copy@ == list@,
{
    let mut copy: Vec<String> = Vec::new();
    let mut i: usize = 0;
    while i < list.len()
        invariant
            i <= list.len(),
            copy@ == list@.take(i as int),
        decreases list.len() - i,
    {
        copy.push(list[i].clone());
        assert(copy@ =~= list@.take(i + 1));
        i += 1;
    }
    assert(list@.take(list.len() as int) =~= list@);
    copy
}

/// A copy of an optional string.
pub fn clone_opt(value: &Option<String>) -> (copy: Option<String>)
    ensures
        copy == *value,
{
    match value {
        Some(s) => Some(s.clone()),
        None => None,
    }
}

/// Whether `list` holds a string equal to `wanted`.
pub fn contains_text(list: &Vec<String>, wanted: &str) -> (found: bool)
    ensures
        found == texts(list@).contains(wanted@),
{
    let mut i: usize = 0;
    while i < list.len()
        invariant
            i <= list.len(),
            forall|k: int| 0 <= k < i ==> list@[k]@ != wanted@,
        decreases list.len() - i,
    {
        if str_eq(list[i].as_str(), wanted) {
            assert(texts(list@)[i as int] == wanted@);
            return true;
        }
        i += 1;
    }
    false
}

/// The predicate that holds of the texts that are not in `set`.
pub open spec fn absent_from(set: Set<Seq<char>>) -> spec_fn(Seq<char>) -> bool {
    |text: Seq<char>| !set.contains(text)
}

/// The strings of `list` that do not occur in `dropped`, in their order.
pub fn without(list: &Vec<String>, dropped: &Vec<String>) -> (kept: Vec<String>)
    ensures
        texts(kept@) == texts(list@).filter(absent_from(texts(dropped@).to_set())),
{
    let ghost absent = absent_from(texts(dropped@).to_set());
    let mut kept: Vec<String> = Vec::new();
    let mut i: usize = 0;
    assert(texts(list@.take(0)).filter(absent) =~= Seq::<Seq<char>>::empty()) by {
        reveal(Seq::filter);
    }
    assert(texts(kept@) =~= Seq::<Seq<char>>::empty());
    while i < list.len()
        invariant
            i <= list.len(),
            absent == absent_from(texts(dropped@).to_set()),
            texts(kept@) == texts(list@.take(i as int)).filter(absent),
        decreases list.len() - i,
    {
        let ghost before = texts(kept@);
        let ghost prefix = texts(list@.take(i as int));
        let present = contains_text(dropped, list[i].as_str());
        if !present {
            kept.push(list[i].clone());
        }
        proof {
            let item = list@[i as int]@;
            assert(texts(list@.take(i + 1)) =~= prefix.push(item));
            assert(prefix.push(item).drop_last() =~= prefix);
            assert(prefix.push(item).filter(absent) == if absent(item) {
                prefix.filter(absent).push(item)
            } else {
                prefix.filter(absent)
            }) by {
                reveal(Seq::filter);
            }
            if !present {
                assert(texts(kept@) =~= before.push(item));
            } else {
                assert(texts(kept@) =~= before);
            }
        }
        i += 1;
    }
    assert(list@.take(list.len() as int) =~= list@);
    kept
}

/// Whether two strings hold the same text.
pub fn str_eq(a: &str, b: &str) -> (same: bool)
    ensures
        same == (a@ == b@),
{
    let left = a.to_owned();
    let right = b.to_owned();
    left == right
}

} // verus!
