//! Stable ordering by a key.

use vstd::prelude::*;

verus! {

/// The number of items at the start whose key is not above the given one.
pub open spec fn place<T>(s: Seq<(i32, T)>, key: i32) -> int
    decreases s.len(),
{
    if s.len() == 0 || s[0].0 > key { 0 } else { 1 + place(s.drop_first(), key) }
}

/// An ordered list with one more item, behind those whose key is not above its own.
pub open spec fn with_item<T>(s: Seq<(i32, T)>, item: (i32, T)) -> Seq<(i32, T)> {
    s.insert(place(s, item.0), item)
}

/// The items in the order of their keys; items with the same key keep their order.
pub open spec fn ordered<T>(s: Seq<(i32, T)>) -> Seq<(i32, T)>
    decreases s.len(),
{
    if s.len() == 0 {
        Seq::empty()
    } else {
        with_item(ordered(s.drop_last()), s.last())
    }
}

/// The keys never fall.
pub open spec fn ascending<T>(s: Seq<(i32, T)>) -> bool {
    forall|i: int, j: int| 0 <= i <= j < s.len() ==> (#[trigger] s[i]).0 <= (#[trigger] s[j]).0
}

/// The items with a key, in order.
pub open spec fn with_key<T>(s: Seq<(i32, T)>, key: i32) -> Seq<(i32, T)>
    decreases s.len(),
{
    if s.len() == 0 {
        Seq::empty()
    } else if s.last().0 == key {
        with_key(s.drop_last(), key).push(s.last())
    } else {
        with_key(s.drop_last(), key)
    }
}

proof fn lemma_place<T>(s: Seq<(i32, T)>, key: i32)
    requires
        ascending(s),
    ensures
        0 <= place(s, key) <= s.len(),
        forall|i: int| 0 <= i < place(s, key) ==> (#[trigger] s[i]).0 <= key,
        forall|i: int| place(s, key) <= i < s.len() ==> (#[trigger] s[i]).0 > key,
    decreases s.len(),
{
    if s.len() > 0 && s[0].0 <= key {
        let rest = s.drop_first();
        assert forall|i: int, j: int| 0 <= i <= j < rest.len() implies (#[trigger] rest[i]).0 <= (
        #[trigger] rest[j]).0 by {
            assert(rest[i] == s[i + 1] && rest[j] == s[j + 1]);
        }
        lemma_place(rest, key);
        assert forall|i: int| 0 <= i < place(s, key) implies (#[trigger] s[i]).0 <= key by {
            if i > 0 {
                assert(s[i] == rest[i - 1]);
            }
        }
        assert forall|i: int| place(s, key) <= i < s.len() implies (#[trigger] s[i]).0 > key by {
            assert(s[i] == rest[i - 1]);
        }
    }
}

proof fn lemma_with_item<T>(s: Seq<(i32, T)>, item: (i32, T))
    requires
        ascending(s),
    ensures
        ascending(with_item(s, item)),
        with_item(s, item).len() == s.len() + 1,
        with_item(s, item).to_multiset() == s.to_multiset().insert(item),
{
    lemma_place(s, item.0);
    let at = place(s, item.0);
    let out = with_item(s, item);
    assert forall|i: int, j: int| 0 <= i <= j < out.len() implies (#[trigger] out[i]).0 <= (
    #[trigger] out[j]).0 by {
        if i < at {
            assert(out[i] == s[i]);
        } else if i > at {
            assert(out[i] == s[i - 1]);
        }
        if j < at {
            assert(out[j] == s[j]);
        } else if j > at {
            assert(out[j] == s[j - 1]);
        }
    }
    vstd::seq_lib::to_multiset_insert(s, at, item);
}

proof fn lemma_with_key_add<T>(a: Seq<(i32, T)>, b: Seq<(i32, T)>, key: i32)
    ensures
        with_key(a + b, key) == with_key(a, key) + with_key(b, key),
    decreases b.len(),
{
    if b.len() == 0 {
        assert(a + b =~= a);
        assert(with_key(a, key) + with_key(b, key) =~= with_key(a, key));
    } else {
        lemma_with_key_add(a, b.drop_last(), key);
        assert((a + b).drop_last() =~= a + b.drop_last());
        assert((a + b).last() == b.last());
        assert(with_key(a + b, key) =~= with_key(a, key) + with_key(b, key));
    }
}

proof fn lemma_with_key_none<T>(s: Seq<(i32, T)>, key: i32)
    requires
        forall|i: int| 0 <= i < s.len() ==> (#[trigger] s[i]).0 != key,
    ensures
        with_key(s, key).len() == 0,
    decreases s.len(),
{
    if s.len() > 0 {
        assert(s[s.len() - 1].0 != key);
        assert forall|i: int| 0 <= i < s.drop_last().len() implies (#[trigger] s.drop_last()[i]).0
            != key by {
            assert(s[i].0 != key);
        }
        lemma_with_key_none(s.drop_last(), key);
    }
}

proof fn lemma_with_key_insert<T>(s: Seq<(i32, T)>, item: (i32, T), key: i32)
    requires
        ascending(s),
    ensures
        with_key(with_item(s, item), key) == (if item.0 == key {
            with_key(s, key).push(item)
        } else {
            with_key(s, key)
        }),
{
    lemma_place(s, item.0);
    let at = place(s, item.0);
    let head = s.take(at);
    let tail = s.skip(at);
    assert(s =~= head + tail);
    assert(with_item(s, item) =~= head.push(item) + tail);
    lemma_with_key_add(head, tail, key);
    lemma_with_key_add(head.push(item), tail, key);
    assert(head.push(item).drop_last() =~= head);
    if item.0 == key {
        assert forall|i: int| 0 <= i < tail.len() implies (#[trigger] tail[i]).0 != key by {
            assert(tail[i] == s[at + i]);
        }
        lemma_with_key_none(tail, key);
        assert(with_key(with_item(s, item), key) =~= with_key(s, key).push(item));
    }
}

proof fn lemma_ordered<T>(s: Seq<(i32, T)>)
    ensures
        ascending(ordered(s)),
        ordered(s).len() == s.len(),
        ordered(s).to_multiset() == s.to_multiset(),
    decreases s.len(),
{
    if s.len() == 0 {
        assert(ordered(s) =~= s);
    } else {
        lemma_ordered(s.drop_last());
        lemma_with_item(ordered(s.drop_last()), s.last());
        assert(s.drop_last().push(s.last()) =~= s);
        vstd::seq_lib::to_multiset_build(s.drop_last(), s.last());
    }
}

/// Ordering loses and adds nothing, and the keys never fall.
pub proof fn law_ordered_is_sorted_permutation<T>(s: Seq<(i32, T)>)
    ensures
        ascending(ordered(s)),
        ordered(s).len() == s.len(),
        ordered(s).to_multiset() == s.to_multiset(),
{
    lemma_ordered(s);
}

/// Items with the same key keep their order.
pub proof fn law_ordered_is_stable<T>(s: Seq<(i32, T)>, key: i32)
    ensures
        with_key(ordered(s), key) == with_key(s, key),
    decreases s.len(),
{
    if s.len() > 0 {
        lemma_ordered(s.drop_last());
        law_ordered_is_stable(s.drop_last(), key);
        lemma_with_key_insert(ordered(s.drop_last()), s.last(), key);
    }
}

/// A list is another one in the order of `from`: each item is taken once, keys rise, and
/// items with the same key stand as they did.
pub open spec fn is_ranking<T>(s: Seq<(i32, T)>, out: Seq<(i32, T)>, from: Seq<int>) -> bool {
    &&& out.len() == s.len()
    &&& from.len() == s.len()
    &&& forall|d: int| 0 <= d < from.len() ==> 0 <= (#[trigger] from[d]) < s.len()
    &&& forall|d: int| 0 <= d < from.len() ==> out[d] == s[#[trigger] from[d]]
    &&& forall|d: int, e: int|
        0 <= d < e < from.len() ==> s[#[trigger] from[d]].0 < s[#[trigger] from[e]].0 || (
        s[from[d]].0 == s[from[e]].0 && from[d] < from[e])
}

/// Ordering is a ranking: by the keys, and among equal ones by the places before.
pub proof fn law_ordered_is_a_ranking<T>(s: Seq<(i32, T)>) -> (from: Seq<int>)
    ensures
        is_ranking(s, ordered(s), from),
    decreases s.len(),
{
    if s.len() == 0 {
        Seq::empty()
    } else {
        let rest = s.drop_last();
        let item = s.last();
        let before = law_ordered_is_a_ranking(rest);
        lemma_ordered(rest);
        lemma_ordered(s);
        let old_list = ordered(rest);
        let list = ordered(s);
        let at = place(old_list, item.0);
        lemma_place(old_list, item.0);
        let from = before.insert(at, s.len() - 1);
        assert(list == old_list.insert(at, item));
        assert forall|d: int| 0 <= d < from.len() implies 0 <= (#[trigger] from[d]) < s.len()
            && list[d] == s[from[d]] by {
            if d != at {
                let k = if d < at {
                    d
                } else {
                    d - 1
                };
                assert(from[d] == before[k]);
                assert(list[d] == old_list[k]);
                assert(rest[before[k]] == s[before[k]]);
            }
        }
        assert forall|d: int, e: int| 0 <= d < e < from.len() implies s[#[trigger] from[d]].0 < s[
            #[trigger] from[e]
        ].0 || (s[from[d]].0 == s[from[e]].0 && from[d] < from[e]) by {
            let k = if d < at {
                d
            } else {
                d - 1
            };
            let l = if e < at {
                e
            } else {
                e - 1
            };
            assert(list[d] == s[from[d]] && list[e] == s[from[e]]);
            if d == at {
                assert(list[e] == old_list[l]);
            } else if e == at {
                assert(list[d] == old_list[k]);
                assert(from[d] == before[k]);
            } else {
                assert(from[d] == before[k] && from[e] == before[l]);
                assert(rest[before[k]] == s[before[k]] && rest[before[l]] == s[before[l]]);
            }
        }
        from
    }
}

fn find_place<T>(s: &Vec<(i32, T)>, key: i32) -> (r: usize)
    ensures
        r == place(s@, key),
        r <= s@.len(),
{
    let mut i: usize = 0;
    assert(s@.skip(0) =~= s@);
    while i < s.len()
        invariant
            i <= s.len(),
            place(s@, key) == i + place(s@.skip(i as int), key),
        decreases s.len() - i,
    {
        if s[i].0 > key {
            return i;
        }
        assert(s@.skip(i as int).drop_first() =~= s@.skip(i + 1));
        i = i + 1;
    }
    i
}

/// The items in the order of their keys; items with the same key keep their order.
pub fn order_by_key<T>(items: Vec<(i32, T)>) -> (r: Vec<(i32, T)>)
    ensures
        r@ == ordered(items@),
{
    let mut rest: Vec<(i32, T)> = items;
    let mut out: Vec<(i32, T)> = Vec::new();
    let ghost all = items@;
    let ghost mut done: int = 0;
    assert(all.take(0) =~= Seq::empty());
    assert(rest@ =~= all.skip(0));
    while rest.len() > 0
        invariant
            0 <= done <= all.len(),
            rest@ == all.skip(done),
            out@ == ordered(all.take(done)),
        decreases rest.len(),
    {
        let item = rest.remove(0);
        let at: usize = find_place(&out, item.0);
        proof {
            assert(item == all[done]);
            assert(all.take(done + 1).drop_last() =~= all.take(done));
            assert(rest@ =~= all.skip(done + 1));
            done = done + 1;
        }
        out.insert(at, item);
    }
    assert(all.take(done) =~= all);
    out
}

} // verus!
