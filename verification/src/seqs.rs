//! First-match search over sequences, shared by every keyed list of
//! the client's sources.

use vstd::prelude::*;

verus! {

/// Position of the first element of `s` satisfying `p`.
pub open spec fn first_index<T>(s: Seq<T>, p: spec_fn(T) -> bool) -> Option<int>
    decreases s.len(),
{
    if s.len() == 0 {
        None
    } else if p(s[0]) {
        Some(0)
    } else {
        match first_index(s.subrange(1, s.len() as int), p) {
            Some(i) => Some(i + 1),
            None => None,
        }
    }
}

/// `i` is a position satisfying `p` with none before it.
pub open spec fn is_first<T>(s: Seq<T>, p: spec_fn(T) -> bool, i: int) -> bool {
    &&& 0 <= i < s.len()
    &&& p(s[i])
    &&& forall|j: int| 0 <= j < i ==> !p(s[j])
}

/// No element of `s` satisfies `p`.
pub open spec fn none_match<T>(s: Seq<T>, p: spec_fn(T) -> bool) -> bool {
    forall|j: int| 0 <= j < s.len() ==> !p(s[j])
}

pub proof fn lemma_is_first_index<T>(s: Seq<T>, p: spec_fn(T) -> bool, i: int)
    requires
        is_first(s, p, i),
    ensures
        first_index(s, p) == Some(i),
    decreases s.len(),
{
    if i > 0 {
        let t = s.subrange(1, s.len() as int);
        assert forall|j: int| 0 <= j < i - 1 implies !p(t[j]) by {
            assert(t[j] == s[j + 1]);
        }
        assert(t[i - 1] == s[i]);
        lemma_is_first_index(t, p, i - 1);
    }
}

pub proof fn lemma_none_index<T>(s: Seq<T>, p: spec_fn(T) -> bool)
    requires
        none_match(s, p),
    ensures
        first_index(s, p) is None,
    decreases s.len(),
{
    if s.len() > 0 {
        let t = s.subrange(1, s.len() as int);
        assert forall|j: int| 0 <= j < t.len() implies !p(t[j]) by {
            assert(t[j] == s[j + 1]);
        }
        lemma_none_index(t, p);
    }
}

pub proof fn lemma_index_facts<T>(s: Seq<T>, p: spec_fn(T) -> bool)
    ensures
        first_index(s, p) matches Some(i) ==> is_first(s, p, i),
        first_index(s, p) is None ==> none_match(s, p),
    decreases s.len(),
{
    if s.len() > 0 {
        let t = s.subrange(1, s.len() as int);
        lemma_index_facts(t, p);
        if !p(s[0]) {
            match first_index(t, p) {
                Some(i) => {
                    assert(t[i] == s[i + 1]);
                    assert forall|j: int| 0 <= j < i + 1 implies !p(s[j]) by {
                        if j > 0 {
                            assert(s[j] == t[j - 1]);
                        }
                    }
                },
                None => {
                    assert forall|j: int| 0 <= j < s.len() implies !p(s[j]) by {
                        if j > 0 {
                            assert(s[j] == t[j - 1]);
                        }
                    }
                },
            }
        }
    }
}

/// Whether an element's key is `k`.
pub open spec fn key_is<T, K>(key: spec_fn(T) -> K, k: K) -> spec_fn(T) -> bool {
    |e: T| key(e) == k
}

/// The first element of `s` whose key is `k`.
pub open spec fn lookup<T, K>(s: Seq<T>, key: spec_fn(T) -> K, k: K) -> Option<T> {
    match first_index(s, key_is(key, k)) {
        Some(i) => Some(s[i]),
        None => None,
    }
}

/// Overwriting the first element keyed like `e` (or appending `e` when
/// there is none) makes `e` the entry for its key and leaves every
/// other key's entry as it was.
pub proof fn lemma_keyed_write<T, K>(s: Seq<T>, t: Seq<T>, key: spec_fn(T) -> K, e: T)
    requires
        match first_index(s, key_is(key, key(e))) {
            Some(i) => t == s.update(i, e),
            None => t == s.push(e),
        },
    ensures
        lookup(t, key, key(e)) == Some(e),
        forall|k: K| k != key(e) ==> lookup(t, key, k) == lookup(s, key, k),
{
    let ke = key(e);
    lemma_index_facts(s, key_is(key, ke));
    match first_index(s, key_is(key, ke)) {
        Some(i) => {
            assert(is_first(t, key_is(key, ke), i)) by {
                assert forall|j: int| 0 <= j < i implies !key_is(key, ke)(t[j]) by {
                    assert(t[j] == s[j]);
                }
            }
            lemma_is_first_index(t, key_is(key, ke), i);
        },
        None => {
            let n = s.len() as int;
            assert(is_first(t, key_is(key, ke), n)) by {
                assert forall|j: int| 0 <= j < n implies !key_is(key, ke)(t[j]) by {
                    assert(t[j] == s[j]);
                }
            }
            lemma_is_first_index(t, key_is(key, ke), n);
        },
    }
    assert forall|k: K| k != ke implies lookup(t, key, k) == lookup(s, key, k) by {
        lemma_index_facts(s, key_is(key, k));
        match first_index(s, key_is(key, k)) {
            Some(m) => {
                assert(is_first(t, key_is(key, k), m)) by {
                    assert(t[m] == s[m]);
                    assert forall|j: int| 0 <= j < m implies !key_is(key, k)(t[j]) by {
                        if t[j] != s[j] {
                            assert(t[j] == e);
                        }
                    }
                }
                lemma_is_first_index(t, key_is(key, k), m);
            },
            None => {
                assert(none_match(t, key_is(key, k))) by {
                    assert forall|j: int| 0 <= j < t.len() implies !key_is(key, k)(t[j]) by {
                        if j < s.len() && t[j] == s[j] {
                        } else {
                            assert(t[j] == e);
                        }
                    }
                }
                lemma_none_index(t, key_is(key, k));
            },
        }
    }
}

} // verus!
