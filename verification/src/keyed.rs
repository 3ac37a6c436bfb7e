//! Lists of key-value pairs with unique keys, read as maps.
use vstd::prelude::*;

verus! {

/// The map of a list of pairs; a later pair overrides an earlier one.
pub open spec fn pairs_to_map<K, V>(s: Seq<(K, V)>) -> Map<K, V>
    decreases s.len(),
{
    if s.len() == 0 {
        Map::empty()
    } else {
        pairs_to_map(s.drop_last()).insert(s.last().0, s.last().1)
    }
}

/// No key occurs twice.
pub open spec fn unique_keys<K, V>(s: Seq<(K, V)>) -> bool {
    forall|i: int, j: int| 0 <= i < s.len() && 0 <= j < s.len() && i != j ==> s[i].0 != s[j].0
}

/// `k` is the key of some pair.
pub open spec fn has_key<K, V>(s: Seq<(K, V)>, k: K) -> bool {
    exists|i: int| 0 <= i < s.len() && s[i].0 == k
}

pub proof fn lemma_push<K, V>(s: Seq<(K, V)>, p: (K, V))
    ensures
        pairs_to_map(s.push(p)) == pairs_to_map(s).insert(p.0, p.1),
{
    assert(s.push(p).drop_last() =~= s);
}

pub proof fn lemma_dom<K, V>(s: Seq<(K, V)>, k: K)
    ensures
        pairs_to_map(s).dom().contains(k) <==> has_key(s, k),
    decreases s.len(),
{
    if s.len() > 0 {
        lemma_dom(s.drop_last(), k);
        if has_key(s.drop_last(), k) {
            let i = choose|i: int| 0 <= i < s.drop_last().len() && s.drop_last()[i].0 == k;
            assert(s[i].0 == k);
        }
        if has_key(s, k) && s.last().0 != k {
            let i = choose|i: int| 0 <= i < s.len() && s[i].0 == k;
            assert(s.drop_last()[i].0 == k);
        }
        if s.last().0 == k {
            assert(s[s.len() - 1].0 == k);
        }
    }
}

pub proof fn lemma_value<K, V>(s: Seq<(K, V)>, i: int)
    requires
        unique_keys(s),
        0 <= i < s.len(),
    ensures
        pairs_to_map(s).dom().contains(s[i].0),
        pairs_to_map(s)[s[i].0] == s[i].1,
    decreases s.len(),
{
    if i < s.len() - 1 {
        lemma_value(s.drop_last(), i);
    }
}

pub proof fn lemma_update<K, V>(s: Seq<(K, V)>, i: int, v: V)
    requires
        unique_keys(s),
        0 <= i < s.len(),
    ensures
        pairs_to_map(s.update(i, (s[i].0, v))) == pairs_to_map(s).insert(s[i].0, v),
        unique_keys(s.update(i, (s[i].0, v))),
    decreases s.len(),
{
    let k = s[i].0;
    let t = s.update(i, (k, v));
    if i == s.len() - 1 {
        assert(t.drop_last() =~= s.drop_last());
        assert(pairs_to_map(t) =~= pairs_to_map(s).insert(k, v));
    } else {
        assert(t.drop_last() =~= s.drop_last().update(i, (k, v)));
        lemma_update(s.drop_last(), i, v);
        assert(s.last().0 != k);
        assert(pairs_to_map(t) =~= pairs_to_map(s).insert(k, v));
    }
}

pub proof fn lemma_push_unique<K, V>(s: Seq<(K, V)>, p: (K, V))
    requires
        unique_keys(s),
        !has_key(s, p.0),
    ensures
        unique_keys(s.push(p)),
{
    assert forall|i: int, j: int|
        0 <= i < s.push(p).len() && 0 <= j < s.push(p).len() && i != j implies s.push(p)[i].0 != s.push(p)[j].0 by {
        if i == s.len() {
            assert(s[j].0 != p.0);
        } else if j == s.len() {
            assert(s[i].0 != p.0);
        }
    }
}

pub proof fn lemma_remove<K, V>(s: Seq<(K, V)>, i: int)
    requires
        unique_keys(s),
        0 <= i < s.len(),
    ensures
        pairs_to_map(s.remove(i)) == pairs_to_map(s).remove(s[i].0),
        unique_keys(s.remove(i)),
    decreases s.len(),
{
    let k = s[i].0;
    let t = s.remove(i);
    if i == s.len() - 1 {
        assert(t =~= s.drop_last());
        lemma_dom(s.drop_last(), k);
        assert(!has_key(s.drop_last(), k));
        assert(pairs_to_map(t) =~= pairs_to_map(s).remove(k));
    } else {
        assert(t.drop_last() =~= s.drop_last().remove(i));
        assert(t.last() == s.last());
        lemma_remove(s.drop_last(), i);
        assert(s.last().0 != k);
        assert(pairs_to_map(t) =~= pairs_to_map(s).remove(k));
    }
}


/// Two lists of pairs with the same keys in the same order have maps with
/// the same domain, and one has unique keys when the other does.
pub proof fn lemma_same_keys<K, V, W>(s: Seq<(K, V)>, t: Seq<(K, W)>)
    requires
        s.len() == t.len(),
        forall|i: int| 0 <= i < s.len() ==> #[trigger] s[i].0 == t[i].0,
    ensures
        unique_keys(s) ==> unique_keys(t),
        pairs_to_map(s).dom() == pairs_to_map(t).dom(),
    decreases s.len(),
{
    if s.len() > 0 {
        lemma_same_keys(s.drop_last(), t.drop_last());
        assert(s.last().0 == t.last().0);
        assert(pairs_to_map(s).dom() =~= pairs_to_map(t).dom());
    } else {
        assert(pairs_to_map(s).dom() =~= pairs_to_map(t).dom());
    }
    if unique_keys(s) {
        assert forall|i: int, j: int| 0 <= i < t.len() && 0 <= j < t.len() && i != j implies t[i].0 != t[j].0 by {
            assert(s[i].0 == t[i].0);
            assert(s[j].0 == t[j].0);
        }
    }
}

} // verus!
