//! Stored pairings, keyed by the server certificate fingerprint.

use vstd::prelude::*;
use crate::seqs::{first_index, lemma_index_facts, lemma_is_first_index, lemma_none_index};

verus! {

/// Everything needed to open an authenticated link to one server.
pub struct PairingEntry {
    pub fingerprint: String,
    pub host: String,
    pub server_cert_pem: String,
    pub client_cert_pem: String,
    pub client_key_pem: String,
}

impl PairingEntry {
    pub fn duplicate(&self) -> (r: PairingEntry)
        ensures
            r == *self,
    {
        PairingEntry {
            fingerprint: self.fingerprint.clone(),
            host: self.host.clone(),
            server_cert_pem: self.server_cert_pem.clone(),
            client_cert_pem: self.client_cert_pem.clone(),
            client_key_pem: self.client_key_pem.clone(),
        }
    }
}

/// Whether an entry belongs to fingerprint `fp`.
pub open spec fn for_fp(fp: Seq<char>) -> spec_fn(PairingEntry) -> bool {
    |e: PairingEntry| e.fingerprint@ == fp
}

/// The entry stored for fingerprint `fp`.
pub open spec fn cred_of(s: Seq<PairingEntry>, fp: Seq<char>) -> Option<PairingEntry> {
    match first_index(s, for_fp(fp)) {
        Some(i) => Some(s[i]),
        None => None,
    }
}

/// Position of the entry for `fp`.
pub fn find_cred(s: &Vec<PairingEntry>, fp: &String) -> (r: Option<usize>)
    ensures
        r matches Some(i) ==> first_index(s@, for_fp(fp@)) == Some(i as int) && (i as int) < s@.len(),
        r is None ==> first_index(s@, for_fp(fp@)) is None,
{
    let mut i: usize = 0;
    while i < s.len()
        invariant
            i <= s@.len(),
            forall|j: int| 0 <= j < i ==> !for_fp(fp@)(s@[j]),
        decreases s@.len() - i,
    {
        if crate::text::text_eq(&s[i].fingerprint, fp) {
            proof {
                lemma_is_first_index(s@, for_fp(fp@), i as int);
            }
            return Some(i);
        }
        i = i + 1;
    }
    proof {
        lemma_none_index(s@, for_fp(fp@));
    }
    None
}

/// No two entries share a fingerprint.
pub open spec fn fps_unique(s: Seq<PairingEntry>) -> bool {
    forall|i: int, j: int| 0 <= i < j < s.len() ==> s[i].fingerprint@ != s[j].fingerprint@
}

/// Removing an entry of another fingerprint leaves the lookup of `fp`
/// unchanged.
pub proof fn lemma_remove_keeps_other(s: Seq<PairingEntry>, i: int, fp: Seq<char>)
    requires
        0 <= i < s.len(),
        s[i].fingerprint@ != fp,
    ensures
        cred_of(s.remove(i), fp) == cred_of(s, fp),
{
    let t = s.remove(i);
    let p = for_fp(fp);
    lemma_index_facts(s, p);
    match first_index(s, p) {
        Some(k) => {
            let kk = if k < i { k } else { k - 1 };
            assert(t[kk] == s[k]);
            assert forall|j: int| 0 <= j < kk implies !p(t[j]) by {
                if j < i {
                    assert(t[j] == s[j]);
                } else {
                    assert(t[j] == s[j + 1]);
                }
            }
            lemma_is_first_index(t, p, kk);
        },
        None => {
            assert forall|j: int| 0 <= j < t.len() implies !p(t[j]) by {
                if j < i {
                    assert(t[j] == s[j]);
                } else {
                    assert(t[j] == s[j + 1]);
                }
            }
            lemma_none_index(t, p);
        },
    }
}

/// In a store without duplicates, removing the entry of `fp` leaves
/// none for it.
pub proof fn lemma_remove_own(s: Seq<PairingEntry>, i: int, fp: Seq<char>)
    requires
        fps_unique(s),
        0 <= i < s.len(),
        s[i].fingerprint@ == fp,
    ensures
        cred_of(s.remove(i), fp) is None,
        fps_unique(s.remove(i)),
{
    let t = s.remove(i);
    assert forall|j: int| 0 <= j < t.len() implies !for_fp(fp)(t[j]) by {
        if j < i {
            assert(t[j] == s[j]);
        } else {
            assert(t[j] == s[j + 1]);
        }
    }
    lemma_none_index(t, for_fp(fp));
    assert forall|a: int, b: int| 0 <= a < b < t.len() implies t[a].fingerprint@ != t[b].fingerprint@ by {
        let sa = if a < i { a } else { a + 1 };
        let sb = if b < i { b } else { b + 1 };
        assert(t[a] == s[sa] && t[b] == s[sb]);
    }
}

/// The credentials source.
pub struct Credentials {
    pub entries: Vec<PairingEntry>,
    /// The initial load from disk has completed.
    pub loaded: bool,
}

impl Credentials {
    pub fn new() -> (c: Self)
        ensures
            c.entries@.len() == 0,
            !c.loaded,
    {
        Credentials { entries: Vec::new(), loaded: false }
    }

    /// The entry stored for `fp`.
    pub fn get(&self, fp: &String) -> (r: Option<&PairingEntry>)
        ensures
            match r {
                Some(e) => cred_of(self.entries@, fp@) == Some(*e),
                None => cred_of(self.entries@, fp@) is None,
            },
    {
        match find_cred(&self.entries, fp) {
            Some(i) => Some(&self.entries[i]),
            None => None,
        }
    }

    /// Whether an entry for `fp` is stored.
    pub fn contains(&self, fp: &String) -> (r: bool)
        ensures
            r == (cred_of(self.entries@, fp@) is Some),
    {
        find_cred(&self.entries, fp).is_some()
    }

    /// Store `e`, replacing the entry with the same fingerprint.
    pub fn insert(&mut self, e: PairingEntry)
        ensures
            cred_of(final(self).entries@, e.fingerprint@) == Some(e),
            forall|fp: Seq<char>| fp != e.fingerprint@ ==> cred_of(final(self).entries@, fp) == cred_of(old(self).entries@, fp),
            final(self).loaded == old(self).loaded,
            fps_unique(old(self).entries@) ==> fps_unique(final(self).entries@),
    {
        let ghost g = e;
        let ghost s = self.entries@;
        match find_cred(&self.entries, &e.fingerprint) {
            Some(i) => {
                self.entries.set(i, e);
            },
            None => {
                self.entries.push(e);
            },
        }
        proof {
            let t = self.entries@;
            let k = g.fingerprint@;
            lemma_index_facts(s, for_fp(k));
            match first_index(s, for_fp(k)) {
                Some(i) => {
                    assert forall|j: int| 0 <= j < i implies !for_fp(k)(t[j]) by {
                        assert(t[j] == s[j]);
                    }
                    lemma_is_first_index(t, for_fp(k), i);
                },
                None => {
                    assert forall|j: int| 0 <= j < s.len() implies !for_fp(k)(t[j]) by {
                        assert(t[j] == s[j]);
                    }
                    lemma_is_first_index(t, for_fp(k), s.len() as int);
                },
            }
            if fps_unique(s) {
                assert forall|a: int, b: int| 0 <= a < b < t.len() implies t[a].fingerprint@ != t[b].fingerprint@ by {
                    if a < s.len() && b < s.len() && t[a] == s[a] && t[b] == s[b] {
                    } else if t[a] == g {
                        if b < s.len() {
                            assert(t[b] == s[b]);
                        }
                    } else {
                        assert(t[a] == s[a]);
                        assert(t[b] == g);
                    }
                }
            }
            assert forall|fp: Seq<char>| fp != k implies cred_of(t, fp) == cred_of(s, fp) by {
                lemma_index_facts(s, for_fp(fp));
                match first_index(s, for_fp(fp)) {
                    Some(m) => {
                        assert forall|j: int| 0 <= j < m implies !for_fp(fp)(t[j]) by {
                            if t[j] != s[j] {
                                assert(t[j] == g);
                            }
                        }
                        assert(t[m] == s[m]);
                        lemma_is_first_index(t, for_fp(fp), m);
                    },
                    None => {
                        assert forall|j: int| 0 <= j < t.len() implies !for_fp(fp)(t[j]) by {
                            if j < s.len() && t[j] == s[j] {
                            } else {
                                assert(t[j] == g);
                            }
                        }
                        lemma_none_index(t, for_fp(fp));
                    },
                }
            }
        }
    }

    /// Drop the entry for `fp`, if any.
    pub fn remove(&mut self, fp: &String)
        ensures
            final(self).entries@ == match first_index(old(self).entries@, for_fp(fp@)) {
                Some(i) => old(self).entries@.remove(i),
                None => old(self).entries@,
            },
            final(self).loaded == old(self).loaded,
            fps_unique(old(self).entries@) ==> fps_unique(final(self).entries@),
    {
        match find_cred(&self.entries, fp) {
            Some(i) => {
                let ghost s = self.entries@;
                self.entries.remove(i);
                proof {
                    if fps_unique(s) {
                        lemma_index_facts(s, for_fp(fp@));
                        lemma_remove_own(s, i as int, fp@);
                    }
                }
            },
            None => {},
        }
    }
}

} // verus!
