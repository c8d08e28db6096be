//! Association lists: a sequence of `(key, value)` pairs with distinct keys,
//! viewed as a finite map. The widget registry keeps its entries this way,
//! sorted by id.
use vstd::prelude::*;

verus! {

/// No key occurs twice in `s`.
pub open spec fn distinct_keys<K, V>(s: Seq<(K, V)>) -> bool {
    forall|i: int, j: int| 0 <= i < s.len() && 0 <= j < s.len() && i != j ==> s[i].0 != s[j].0
}

/// The map that an association list denotes; a later pair wins over an earlier one.
pub open spec fn assoc<K, V>(s: Seq<(K, V)>) -> Map<K, V>
    decreases s.len(),
{
    if s.len() == 0 {
        Map::empty()
    } else {
        assoc(s.drop_last()).insert(s.last().0, s.last().1)
    }
}

/// `k` is the key of some pair of `s`.
pub open spec fn has_key<K, V>(s: Seq<(K, V)>, k: K) -> bool {
    exists|i: int| 0 <= i < s.len() && s[i].0 == k
}

/// The domain of `assoc(s)` is the set of keys of `s`, and it is finite.
pub proof fn lemma_assoc_dom<K, V>(s: Seq<(K, V)>)
    ensures
        forall|k: K| #[trigger] assoc(s).contains_key(k) <==> has_key(s, k),
        assoc(s).dom().finite(),
    decreases s.len(),
{
    if s.len() > 0 {
        let d = s.drop_last();
        lemma_assoc_dom(d);
        assert forall|k: K| #[trigger] assoc(s).contains_key(k) <==> has_key(s, k) by {
            if has_key(s, k) {
                let i = choose|i: int| 0 <= i < s.len() && s[i].0 == k;
                if i < s.len() - 1 {
                    assert(d[i].0 == k);
                }
            }
            if assoc(d).contains_key(k) {
                let i = choose|i: int| 0 <= i < d.len() && d[i].0 == k;
                assert(s[i].0 == k);
            }
        }
    }
}

/// With distinct keys, `assoc(s)` has exactly `s.len()` entries.
pub proof fn lemma_assoc_len<K, V>(s: Seq<(K, V)>)
    requires
        distinct_keys(s),
    ensures
        assoc(s).dom().len() == s.len(),
    decreases s.len(),
{
    if s.len() > 0 {
        let d = s.drop_last();
        lemma_assoc_len(d);
        lemma_assoc_dom(d);
        if assoc(d).contains_key(s.last().0) {
            let i = choose|i: int| 0 <= i < d.len() && d[i].0 == s.last().0;
            assert(s[i].0 == s[s.len() - 1].0);
        }
    }
}

/// With distinct keys, the pair at index `i` is what `assoc(s)` holds for its key.
pub proof fn lemma_assoc_index<K, V>(s: Seq<(K, V)>, i: int)
    requires
        distinct_keys(s),
        0 <= i < s.len(),
    ensures
        assoc(s).contains_key(s[i].0),
        assoc(s)[s[i].0] == s[i].1,
    decreases s.len(),
{
    if i < s.len() - 1 {
        let d = s.drop_last();
        assert(d[i] == s[i]);
        lemma_assoc_index(d, i);
        assert(s[i].0 != s[s.len() - 1].0);
    }
}

/// Replacing the value at index `i` updates the map at that key.
pub proof fn lemma_assoc_update<K, V>(s: Seq<(K, V)>, i: int, v: V)
    requires
        distinct_keys(s),
        0 <= i < s.len(),
    ensures
        assoc(s.update(i, (s[i].0, v))) == assoc(s).insert(s[i].0, v),
        distinct_keys(s.update(i, (s[i].0, v))),
    decreases s.len(),
{
    let t = s.update(i, (s[i].0, v));
    let d = s.drop_last();
    if i == s.len() - 1 {
        assert(t.drop_last() =~= d);
        assert(assoc(t) =~= assoc(s).insert(s[i].0, v));
    } else {
        assert(t.drop_last() =~= d.update(i, (d[i].0, v)));
        lemma_assoc_update(d, i, v);
        assert(s[i].0 != s[s.len() - 1].0);
        assert(assoc(t) =~= assoc(s).insert(s[i].0, v));
    }
}

/// Removing the pair at index `i` removes its key from the map.
pub proof fn lemma_assoc_remove<K, V>(s: Seq<(K, V)>, i: int)
    requires
        distinct_keys(s),
        0 <= i < s.len(),
    ensures
        assoc(s.remove(i)) == assoc(s).remove(s[i].0),
        distinct_keys(s.remove(i)),
    decreases s.len(),
{
    let t = s.remove(i);
    let d = s.drop_last();
    lemma_assoc_dom(d);
    if i == s.len() - 1 {
        assert(t =~= d);
        if assoc(d).contains_key(s[i].0) {
            let j = choose|j: int| 0 <= j < d.len() && d[j].0 == s[i].0;
            assert(s[j].0 == s[i].0);
        }
        assert(assoc(t) =~= assoc(s).remove(s[i].0));
    } else {
        assert(t.drop_last() =~= d.remove(i));
        assert(t.last() == s.last());
        lemma_assoc_remove(d, i);
        assert(s[i].0 != s[s.len() - 1].0);
        assert(assoc(t) =~= assoc(s).remove(s[i].0));
    }
}

/// Appending a pair whose key is new inserts it into the map.
pub proof fn lemma_assoc_push<K, V>(s: Seq<(K, V)>, k: K, v: V)
    requires
        distinct_keys(s),
        !has_key(s, k),
    ensures
        assoc(s.push((k, v))) == assoc(s).insert(k, v),
        distinct_keys(s.push((k, v))),
{
    assert(s.push((k, v)).drop_last() =~= s);
    let t = s.push((k, v));
    assert forall|i: int, j: int| 0 <= i < t.len() && 0 <= j < t.len() && i != j implies t[i].0
        != t[j].0 by {
        if i == s.len() {
            assert(t[j] == s[j]);
        } else if j == s.len() {
            assert(t[i] == s[i]);
        }
    }
}

/// Inserting a pair whose key is new, at any position, inserts it into the map.
pub proof fn lemma_assoc_insert<K, V>(s: Seq<(K, V)>, i: int, k: K, v: V)
    requires
        distinct_keys(s),
        !has_key(s, k),
        0 <= i <= s.len(),
    ensures
        assoc(s.insert(i, (k, v))) == assoc(s).insert(k, v),
        distinct_keys(s.insert(i, (k, v))),
    decreases s.len(),
{
    let t = s.insert(i, (k, v));
    assert forall|a: int, b: int| 0 <= a < t.len() && 0 <= b < t.len() && a != b implies t[a].0
        != t[b].0 by {
        if a != i && b != i {
            let a1 = if a < i { a } else { a - 1 };
            let b1 = if b < i { b } else { b - 1 };
            assert(t[a] == s[a1] && t[b] == s[b1]);
        } else if a == i {
            let b1 = if b < i { b } else { b - 1 };
            assert(t[b] == s[b1]);
        } else {
            let a1 = if a < i { a } else { a - 1 };
            assert(t[a] == s[a1]);
        }
    }
    if i == s.len() {
        assert(t =~= s.push((k, v)));
        lemma_assoc_push(s, k, v);
    } else {
        let d = s.drop_last();
        assert(t.drop_last() =~= d.insert(i, (k, v)));
        assert(t.last() == s.last());
        assert(!has_key(d, k)) by {
            if has_key(d, k) {
                let j = choose|j: int| 0 <= j < d.len() && d[j].0 == k;
                assert(s[j].0 == k);
            }
        }
        lemma_assoc_insert(d, i, k, v);
        assert(s.last().0 != k) by {
            assert(s[s.len() - 1].0 == s.last().0);
        }
        assert(assoc(t) =~= assoc(s).insert(k, v));
    }
}

} // verus!
