//! Association lists keyed by strings: a vector of `(key, value)` pairs with
//! unique keys, read as a finite map.
use vstd::prelude::*;

verus! {

/// The map that a sequence of entries stands for; a later entry for a key
/// overrides an earlier one.
pub open spec fn map_of<V>(e: Seq<(String, V)>) -> Map<Seq<char>, V>
    decreases e.len(),
{
    if e.len() == 0 {
        Map::empty()
    } else {
        map_of(e.drop_last()).insert(e.last().0@, e.last().1)
    }
}

pub open spec fn keys_unique<V>(e: Seq<(String, V)>) -> bool {
    forall|i: int, j: int|
        0 <= i < e.len() && 0 <= j < e.len() && i != j ==> #[trigger] e[i].0@ != #[trigger] e[j].0@
}

pub proof fn lemma_map_of_has<V>(e: Seq<(String, V)>, k: Seq<char>)
    ensures
        map_of(e).contains_key(k) <==> exists|i: int| 0 <= i < e.len() && #[trigger] e[i].0@ == k,
    decreases e.len(),
{
    if e.len() > 0 {
        lemma_map_of_has(e.drop_last(), k);
        if map_of(e.drop_last()).contains_key(k) {
            let i = choose|i: int| 0 <= i < e.drop_last().len() && #[trigger] e.drop_last()[i].0@ == k;
            assert(e[i].0@ == k);
        }
        if exists|i: int| 0 <= i < e.len() && #[trigger] e[i].0@ == k {
            let i = choose|i: int| 0 <= i < e.len() && #[trigger] e[i].0@ == k;
            if i < e.len() - 1 {
                assert(e.drop_last()[i].0@ == k);
            }
        }
    }
}

pub proof fn lemma_map_of_at<V>(e: Seq<(String, V)>, i: int)
    requires
        keys_unique(e),
        0 <= i < e.len(),
    ensures
        map_of(e).contains_key(e[i].0@),
        map_of(e)[e[i].0@] == e[i].1,
    decreases e.len(),
{
    if i < e.len() - 1 {
        assert(e.drop_last()[i] == e[i]);
        lemma_map_of_at(e.drop_last(), i);
        assert(e[i].0@ != e[e.len() - 1].0@);
    }
}

pub proof fn lemma_map_of_update<V>(e: Seq<(String, V)>, i: int, kv: (String, V))
    requires
        keys_unique(e),
        0 <= i < e.len(),
        kv.0@ == e[i].0@,
    ensures
        map_of(e.update(i, kv)) == map_of(e).insert(kv.0@, kv.1),
        keys_unique(e.update(i, kv)),
    decreases e.len(),
{
    let u = e.update(i, kv);
    assert(u.drop_last() =~= if i == e.len() - 1 {
        e.drop_last()
    } else {
        e.drop_last().update(i, kv)
    });
    if i < e.len() - 1 {
        lemma_map_of_update(e.drop_last(), i, kv);
        assert(e.last().0@ != kv.0@);
        assert(map_of(u) =~= map_of(e).insert(kv.0@, kv.1));
    } else {
        assert(map_of(u) =~= map_of(e).insert(kv.0@, kv.1));
    }
}

pub proof fn lemma_unique_len<V>(e: Seq<(String, V)>)
    requires
        keys_unique(e),
    ensures
        map_of(e).len() == e.len(),
        map_of(e).dom().finite(),
    decreases e.len(),
{
    if e.len() > 0 {
        lemma_unique_len(e.drop_last());
        lemma_map_of_has(e.drop_last(), e.last().0@);
        if map_of(e.drop_last()).contains_key(e.last().0@) {
            let i = choose|i: int| 0 <= i < e.drop_last().len() && #[trigger] e.drop_last()[i].0@ == e.last().0@;
            assert(e[i].0@ == e[e.len() - 1].0@);
        }
    }
}

/// Whether two strings hold the same characters.
pub fn str_equal(a: &str, b: &str) -> (r: bool)
    ensures
        r == (a@ == b@),
{
    let x = crate::text::chars_of(a);
    let y = crate::text::chars_of(b);
    crate::text::chars_equal(&x, &y)
}

/// Index of the entry whose key is `key`, if any.
pub fn find_key<V>(e: &Vec<(String, V)>, key: &str) -> (r: Option<usize>)
    requires
        keys_unique(e@),
    ensures
        match r {
            Some(i) => i < e@.len() && e@[i as int].0@ == key@,
            None => !map_of(e@).contains_key(key@),
        },
{
    let mut i: usize = 0;
    while i < e.len()
        invariant
            i <= e@.len(),
            forall|j: int| 0 <= j < i ==> #[trigger] e@[j].0@ != key@,
        decreases e.len() - i,
    {
        if str_equal(e[i].0.as_str(), key) {
            return Some(i);
        }
        i = i + 1;
    }
    proof {
        lemma_map_of_has(e@, key@);
    }
    None
}

} // verus!
