use vstd::prelude::*;
use vstd::string::*;

verus! {

/// A piece of source text, as the characters it is made of.
pub type Text = Seq<char>;

/// The texts of a list of strings, in order.
pub open spec fn texts(v: Seq<String>) -> Seq<Text> {
    v.map_values(|s: String| s@)
}

/// The text of an optional string.
pub open spec fn opt_text(o: Option<String>) -> Option<Text> {
    match o {
        Some(s) => Some(s@),
        None => None,
    }
}

/// Whether every text of `a` occurs in `b`.
pub open spec fn subset_of(a: Seq<Text>, b: Seq<Text>) -> bool {
    forall|i: int| 0 <= i < a.len() ==> b.contains(#[trigger] a[i])
}

/// Whether `a` and `b` hold the same texts, whatever their order and number.
pub open spec fn same_texts(a: Seq<Text>, b: Seq<Text>) -> bool {
    subset_of(a, b) && subset_of(b, a)
}

/// `items` with `item` behind it, unless it occurs in `items` already.
pub open spec fn push_new(items: Seq<Text>, item: Text) -> Seq<Text> {
    if items.contains(item) {
        items
    } else {
        items.push(item)
    }
}

/// `base` followed by the texts of `more` that did not occur before, each
/// once, in the order of their first occurrence.
pub open spec fn union_texts(base: Seq<Text>, more: Seq<Text>) -> Seq<Text>
    decreases more.len(),
{
    if more.len() == 0 {
        base
    } else {
        push_new(union_texts(base, more.drop_last()), more.last())
    }
}

/// Whether no text occurs twice in `items`.
pub open spec fn distinct(items: Seq<Text>) -> bool {
    forall|i: int, j: int| 0 <= i < j < items.len() ==> items[i] != items[j]
}

/// Copies a string.
pub fn clone_text(s: &String) -> (r: String)
    ensures
        r@ == s@,
{
    s.clone()
}

/// Copies an optional string.
pub fn clone_opt_text(o: &Option<String>) -> (r: Option<String>)
    ensures
        opt_text(r) == opt_text(*o),
{
    match o {
        Some(s) => Some(s.clone()),
        None => None,
    }
}

/// Whether two optional strings are the same text, or both missing.
pub fn same_opt_text(a: &Option<String>, b: &Option<String>) -> (r: bool)
    ensures
        r == (opt_text(*a) == opt_text(*b)),
{
    match (a, b) {
        (Some(x), Some(y)) => *x == *y,
        (None, None) => true,
        _ => false,
    }
}

/// Writes copies of `more` behind `base`.
pub fn append_texts(base: &mut Vec<String>, more: &Vec<String>)
    ensures
        texts(final(base)@) == texts(old(base)@) + texts(more@),
{
    let mut i: usize = 0;
    proof {
        assert(texts(base@) =~= texts(old(base)@) + texts(more@).take(0));
    }
    while i < more.len()
        invariant
            i <= more.len(),
            texts(base@) == texts(old(base)@) + texts(more@).take(i as int),
        decreases more.len() - i,
    {
        let ghost before = texts(base@);
        let item = clone_text(&more[i]);
        base.push(item);
        proof {
            assert(texts(base@) =~= before.push(item@));
            assert(texts(more@).take(i + 1) =~= texts(more@).take(i as int).push(item@));
            assert(texts(base@) =~= texts(old(base)@) + texts(more@).take(i + 1));
        }
        i += 1;
    }
    proof {
        assert(texts(more@).take(more.len() as int) =~= texts(more@));
    }
}

/// Copies a list of strings.
pub fn clone_texts(v: &Vec<String>) -> (r: Vec<String>)
    ensures
        texts(r@) == texts(v@),
{
    let mut r: Vec<String> = Vec::new();
    let mut i: usize = 0;
    while i < v.len()
        invariant
            i <= v.len(),
            texts(r@) == texts(v@).take(i as int),
        decreases v.len() - i,
    {
        let ghost before = r@;
        let item = clone_text(&v[i]);
        r.push(item);
        proof {
            assert(texts(before).len() == i);
            assert(texts(r@) =~= texts(before).push(item@));
            assert(texts(r@) =~= texts(v@).take(i + 1));
        }
        i += 1;
    }
    proof {
        assert(texts(v@).take(v.len() as int) =~= texts(v@));
    }
    r
}

/// Whether `s` is among `v`.
pub fn contains_text(v: &Vec<String>, s: &String) -> (b: bool)
    ensures
        b == texts(v@).contains(s@),
{
    let mut i: usize = 0;
    while i < v.len()
        invariant
            i <= v.len(),
            forall|k: int| 0 <= k < i ==> texts(v@)[k] != s@,
        decreases v.len() - i,
    {
        if v[i] == *s {
            proof {
                assert(texts(v@)[i as int] == s@);
            }
            return true;
        }
        i += 1;
    }
    false
}

/// Whether every string of `a` is among `b`.
pub fn is_subset(a: &Vec<String>, b: &Vec<String>) -> (r: bool)
    ensures
        r == subset_of(texts(a@), texts(b@)),
{
    let mut i: usize = 0;
    while i < a.len()
        invariant
            i <= a.len(),
            forall|k: int| 0 <= k < i ==> texts(b@).contains(#[trigger] texts(a@)[k]),
        decreases a.len() - i,
    {
        if !contains_text(b, &a[i]) {
            proof {
                assert(texts(a@)[i as int] == a@[i as int]@);
            }
            return false;
        }
        i += 1;
    }
    true
}

/// Whether `a` and `b` hold the same strings, whatever their order and
/// number.
pub fn has_same_texts(a: &Vec<String>, b: &Vec<String>) -> (r: bool)
    ensures
        r == same_texts(texts(a@), texts(b@)),
{
    is_subset(a, b) && is_subset(b, a)
}

/// Appends to `base` each string of `more` that it does not hold yet.
pub fn extend_new(base: &mut Vec<String>, more: &Vec<String>)
    ensures
        texts(final(base)@) == union_texts(texts(old(base)@), texts(more@)),
{
    let mut i: usize = 0;
    while i < more.len()
        invariant
            i <= more.len(),
            texts(base@) == union_texts(texts(old(base)@), texts(more@).take(i as int)),
        decreases more.len() - i,
    {
        proof {
            assert(texts(more@).take(i + 1).drop_last() =~= texts(more@).take(i as int));
            assert(texts(more@).take(i + 1).last() == more@[i as int]@);
        }
        if !contains_text(base, &more[i]) {
            let ghost before = texts(base@);
            base.push(more[i].clone());
            proof {
                assert(texts(base@) =~= before.push(more@[i as int]@));
            }
        }
        i += 1;
    }
    proof {
        assert(texts(more@).take(more.len() as int) =~= texts(more@));
    }
}

} // verus!
