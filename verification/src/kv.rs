use vstd::prelude::*;

verus! {

// A shared model for the gateway's two tables (sessions and pending
// authorization requests): an association list of string keys, abstracted
// as a `Map` from the key's character sequence to the value's view.

/// `k` occurs as a key in `s`.
pub open spec fn has_key<V>(s: Seq<(String, V)>, k: Seq<char>) -> bool {
    exists|i: int| 0 <= i < s.len() && s[i].0@ == k
}

/// The index at which `k` occurs (meaningful only when `has_key` holds).
pub open spec fn key_index<V>(s: Seq<(String, V)>, k: Seq<char>) -> int {
    choose|i: int| 0 <= i < s.len() && s[i].0@ == k
}

/// No key occurs twice.
pub open spec fn keys_unique<V>(s: Seq<(String, V)>) -> bool {
    forall|i: int, j: int| 0 <= i < j < s.len() ==> s[i].0@ != s[j].0@
}

/// The association list as a map from key to the value's view.
pub open spec fn map_of<V: View>(s: Seq<(String, V)>) -> Map<Seq<char>, V::V> {
    Map::new(|k: Seq<char>| has_key(s, k), |k: Seq<char>| s[key_index(s, k)].1@)
}

/// With unique keys, the entry at index `i` is what the map holds for its key.
pub proof fn lemma_at_key<V: View>(s: Seq<(String, V)>, i: int)
    requires
        keys_unique(s),
        0 <= i < s.len(),
    ensures
        map_of(s).dom().contains(s[i].0@),
        map_of(s)[s[i].0@] == s[i].1@,
{
    assert(has_key(s, s[i].0@));
    let w = key_index(s, s[i].0@);
    assert(0 <= w < s.len() && s[w].0@ == s[i].0@);
    if w != i {
        if w < i {
            assert(s[w].0@ != s[i].0@);
        } else {
            assert(s[i].0@ != s[w].0@);
        }
    }
}

/// A key under which nothing is stored is not in the map.
pub proof fn lemma_absent<V: View>(s: Seq<(String, V)>, k: Seq<char>)
    requires
        forall|i: int| 0 <= i < s.len() ==> s[i].0@ != k,
    ensures
        !map_of(s).dom().contains(k),
{
}

/// Appending a fresh key adds exactly that binding.
pub proof fn lemma_push<V: View>(s: Seq<(String, V)>, p: (String, V))
    requires
        keys_unique(s),
        !has_key(s, p.0@),
    ensures
        keys_unique(s.push(p)),
        map_of(s.push(p)) =~= map_of(s).insert(p.0@, p.1@),
{
    let t = s.push(p);
    assert forall|i: int, j: int| 0 <= i < j < t.len() implies t[i].0@ != t[j].0@ by {
        if j < s.len() {
            assert(s[i].0@ != s[j].0@);
        } else {
            assert(t[j] == p);
            assert(has_key(s, s[i].0@));
        }
    }
    assert forall|k: Seq<char>| #[trigger] map_of(t).dom().contains(k) <==> map_of(s).insert(
        p.0@,
        p.1@,
    ).dom().contains(k) by {
        if has_key(t, k) {
            let i = choose|i: int| 0 <= i < t.len() && t[i].0@ == k;
            if i < s.len() {
                assert(has_key(s, k));
            }
        }
        if has_key(s, k) {
            let i = choose|i: int| 0 <= i < s.len() && s[i].0@ == k;
            assert(t[i].0@ == k);
            assert(has_key(t, k));
        }
        if k == p.0@ {
            assert(t[s.len() as int].0@ == k);
            assert(has_key(t, k));
        }
    }
    assert forall|k: Seq<char>| map_of(t).dom().contains(k) implies map_of(t)[k] == map_of(
        s,
    ).insert(p.0@, p.1@)[k] by {
        if k == p.0@ {
            lemma_at_key(t, s.len() as int);
        } else {
            let i = key_index(t, k);
            assert(0 <= i < t.len() && t[i].0@ == k);
            assert(i < s.len());
            lemma_at_key(t, i);
            lemma_at_key(s, i);
        }
    }
}

/// Removing the entry at index `i` removes exactly its binding.
pub proof fn lemma_remove<V: View>(s: Seq<(String, V)>, i: int)
    requires
        keys_unique(s),
        0 <= i < s.len(),
    ensures
        keys_unique(s.remove(i)),
        map_of(s.remove(i)) =~= map_of(s).remove(s[i].0@),
{
    let t = s.remove(i);
    let k0 = s[i].0@;
    assert forall|a: int, b: int| 0 <= a < b < t.len() implies t[a].0@ != t[b].0@ by {
        let a0: int = if a < i {
            a
        } else {
            a + 1
        };
        let b0: int = if b < i {
            b
        } else {
            b + 1
        };
        assert(t[a] == s[a0] && t[b] == s[b0]);
        assert(s[a0].0@ != s[b0].0@);
    }
    assert forall|k: Seq<char>| #[trigger] map_of(t).dom().contains(k) <==> (map_of(
        s,
    ).dom().contains(k) && k != k0) by {
        if has_key(t, k) {
            let a = choose|a: int| 0 <= a < t.len() && t[a].0@ == k;
            let a0: int = if a < i {
                a
            } else {
                a + 1
            };
            assert(t[a] == s[a0]);
            assert(has_key(s, k));
            if a0 < i {
                assert(s[a0].0@ != s[i].0@);
            } else {
                assert(s[i].0@ != s[a0].0@);
            }
        }
        if has_key(s, k) && k != k0 {
            let a = choose|a: int| 0 <= a < s.len() && s[a].0@ == k;
            if a < i {
                assert(t[a] == s[a]);
                assert(has_key(t, k));
            } else {
                assert(a != i);
                assert(t[a - 1] == s[a]);
                assert(has_key(t, k));
            }
        }
    }
    assert forall|k: Seq<char>| map_of(t).dom().contains(k) implies map_of(t)[k] == map_of(s)[k]
        by {
        let a = key_index(t, k);
        assert(0 <= a < t.len() && t[a].0@ == k);
        let a0: int = if a < i {
            a
        } else {
            a + 1
        };
        assert(t[a] == s[a0]);
        lemma_at_key(t, a);
        lemma_at_key(s, a0);
    }
}

} // verus!
