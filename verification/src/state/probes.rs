//! Results of one-shot certificate probes, keyed by the address that
//! was probed.

use vstd::prelude::*;
use crate::seqs::{first_index, is_first, lemma_index_facts, lemma_is_first_index, lemma_none_index, none_match};
use crate::state::discovery::Endpoint;

verus! {

/// What a probe of one address came back with.
pub enum ProbeOutcome {
    InFlight,
    Failed(String),
    /// Hex SHA-256 of the server certificate.
    Fingerprint(String),
}

impl ProbeOutcome {
    pub fn duplicate(&self) -> (r: ProbeOutcome)
        ensures
            r.same_as(*self),
    {
        match self {
            ProbeOutcome::InFlight => ProbeOutcome::InFlight,
            ProbeOutcome::Failed(m) => ProbeOutcome::Failed(m.clone()),
            ProbeOutcome::Fingerprint(f) => ProbeOutcome::Fingerprint(f.clone()),
        }
    }

    pub open spec fn same_as(self, other: ProbeOutcome) -> bool {
        match (self, other) {
            (ProbeOutcome::InFlight, ProbeOutcome::InFlight) => true,
            (ProbeOutcome::Failed(a), ProbeOutcome::Failed(b)) => a@ == b@,
            (ProbeOutcome::Fingerprint(a), ProbeOutcome::Fingerprint(b)) => a@ == b@,
            _ => false,
        }
    }
}

/// One probed address and its outcome.
pub struct ProbeEntry {
    pub addr: Endpoint,
    pub outcome: ProbeOutcome,
}

/// The probes source.
pub struct Probes {
    pub by_addr: Vec<ProbeEntry>,
}

/// Whether an entry is the one for `addr`.
pub open spec fn at(addr: Endpoint) -> spec_fn(ProbeEntry) -> bool {
    |e: ProbeEntry| e.addr == addr
}

/// The outcome recorded for `addr` (its first entry).
pub open spec fn probe_of(s: Seq<ProbeEntry>, addr: Endpoint) -> Option<ProbeOutcome> {
    match first_index(s, at(addr)) {
        Some(i) => Some(s[i].outcome),
        None => None,
    }
}

/// The fingerprint recorded for `addr`, if its probe succeeded.
pub open spec fn fingerprint_of(s: Seq<ProbeEntry>, addr: Endpoint) -> Option<Seq<char>> {
    match probe_of(s, addr) {
        Some(ProbeOutcome::Fingerprint(f)) => Some(f@),
        _ => None,
    }
}

/// Whether an entry records a failed probe.
pub open spec fn is_failed(e: ProbeEntry) -> bool {
    e.outcome is Failed
}

/// Whether an entry records a successful probe.
pub open spec fn is_resolved(e: ProbeEntry) -> bool {
    e.outcome is Fingerprint
}

/// Keeps entries whose probe did not fail.
pub open spec fn not_failed() -> spec_fn(ProbeEntry) -> bool {
    |e: ProbeEntry| !is_failed(e)
}

/// Keeps entries whose probe produced a fingerprint.
pub open spec fn resolved() -> spec_fn(ProbeEntry) -> bool {
    |e: ProbeEntry| is_resolved(e)
}

/// Updating (or appending) the entry for `addr` leaves every other
/// address's outcome as it was.
pub proof fn lemma_probe_write(s: Seq<ProbeEntry>, t: Seq<ProbeEntry>, addr: Endpoint, e: ProbeEntry)
    requires
        e.addr == addr,
        match first_index(s, at(addr)) {
            Some(i) => t == s.update(i, e),
            None => t == s.push(e),
        },
    ensures
        probe_of(t, addr) == Some(e.outcome),
        forall|a: Endpoint| a != addr ==> probe_of(t, a) == probe_of(s, a),
{
    lemma_index_facts(s, at(addr));
    match first_index(s, at(addr)) {
        Some(i) => {
            assert(is_first(t, at(addr), i)) by {
                assert forall|j: int| 0 <= j < i implies !at(addr)(t[j]) by {
                    assert(t[j] == s[j]);
                }
            }
            lemma_is_first_index(t, at(addr), i);
        },
        None => {
            let k = s.len() as int;
            assert(is_first(t, at(addr), k)) by {
                assert forall|j: int| 0 <= j < k implies !at(addr)(t[j]) by {
                    assert(t[j] == s[j]);
                }
            }
            lemma_is_first_index(t, at(addr), k);
        },
    }
    assert forall|a: Endpoint| a != addr implies probe_of(t, a) == probe_of(s, a) by {
        lemma_index_facts(s, at(a));
        match first_index(s, at(a)) {
            Some(m) => {
                assert(is_first(t, at(a), m)) by {
                    assert(t[m] == s[m]);
                    assert forall|j: int| 0 <= j < m implies !at(a)(t[j]) by {
                        if t[j] != s[j] {
                            assert(t[j] == e);
                        }
                    }
                }
                lemma_is_first_index(t, at(a), m);
            },
            None => {
                assert(none_match(t, at(a))) by {
                    assert forall|j: int| 0 <= j < t.len() implies !at(a)(t[j]) by {
                        if j < s.len() && t[j] == s[j] {
                        } else {
                            assert(t[j] == e);
                        }
                    }
                }
                lemma_none_index(t, at(a));
            },
        }
    }
}

/// Position of the entry for `addr`.
pub fn find_probe(s: &Vec<ProbeEntry>, addr: Endpoint) -> (r: Option<usize>)
    ensures
        r matches Some(i) ==> first_index(s@, at(addr)) == Some(i as int) && (i as int) < s@.len(),
        r is None ==> first_index(s@, at(addr)) is None,
{
    let mut i: usize = 0;
    while i < s.len()
        invariant
            i <= s@.len(),
            forall|j: int| 0 <= j < i ==> !at(addr)(s@[j]),
        decreases s@.len() - i,
    {
        if s[i].addr == addr {
            proof {
                lemma_is_first_index(s@, at(addr), i as int);
            }
            return Some(i);
        }
        i = i + 1;
    }
    proof {
        lemma_none_index(s@, at(addr));
    }
    None
}

impl Probes {
    pub fn new() -> (p: Self)
        ensures
            p.by_addr@.len() == 0,
    {
        Probes { by_addr: Vec::new() }
    }

    /// The outcome recorded for `addr`.
    pub fn get(&self, addr: Endpoint) -> (r: Option<&ProbeOutcome>)
        ensures
            match r {
                Some(o) => probe_of(self.by_addr@, addr) == Some(*o),
                None => probe_of(self.by_addr@, addr) is None,
            },
    {
        match find_probe(&self.by_addr, addr) {
            Some(i) => Some(&self.by_addr[i].outcome),
            None => None,
        }
    }

    /// Record `outcome` for `addr`, leaving other addresses alone.
    pub fn set(&mut self, addr: Endpoint, outcome: ProbeOutcome)
        ensures
            probe_of(final(self).by_addr@, addr) == Some(outcome),
            forall|a: Endpoint| a != addr ==> probe_of(final(self).by_addr@, a) == probe_of(old(self).by_addr@, a),
    {
        let e = ProbeEntry { addr, outcome };
        let ghost g = e;
        match find_probe(&self.by_addr, addr) {
            Some(i) => {
                self.by_addr.set(i, e);
            },
            None => {
                self.by_addr.push(e);
            },
        }
        proof {
            lemma_probe_write(old(self).by_addr@, self.by_addr@, addr, g);
        }
    }

    /// Note that a probe of `addr` has been issued.
    pub fn mark_in_flight(&mut self, addr: Endpoint)
        ensures
            probe_of(final(self).by_addr@, addr) == Some(ProbeOutcome::InFlight),
            forall|a: Endpoint| a != addr ==> probe_of(final(self).by_addr@, a) == probe_of(old(self).by_addr@, a),
    {
        self.set(addr, ProbeOutcome::InFlight);
    }

    /// Record the fingerprint a probe of `addr` returned.
    pub fn set_fingerprint(&mut self, addr: Endpoint, fingerprint: String)
        ensures
            probe_of(final(self).by_addr@, addr) == Some(ProbeOutcome::Fingerprint(fingerprint)),
            forall|a: Endpoint| a != addr ==> probe_of(final(self).by_addr@, a) == probe_of(old(self).by_addr@, a),
    {
        self.set(addr, ProbeOutcome::Fingerprint(fingerprint));
    }

    /// Record that a probe of `addr` failed.
    pub fn set_failed(&mut self, addr: Endpoint, message: String)
        ensures
            probe_of(final(self).by_addr@, addr) == Some(ProbeOutcome::Failed(message)),
            forall|a: Endpoint| a != addr ==> probe_of(final(self).by_addr@, a) == probe_of(old(self).by_addr@, a),
    {
        self.set(addr, ProbeOutcome::Failed(message));
    }

    /// Forget every failed probe, keeping fingerprints and in-flight
    /// probes.
    pub fn retain_non_failed(&mut self)
        ensures
            final(self).by_addr@ == old(self).by_addr@.filter(not_failed()),
    {
        let ghost p = not_failed();
        let mut rest: Vec<ProbeEntry> = Vec::new();
        std::mem::swap(&mut rest, &mut self.by_addr);
        let mut out: Vec<ProbeEntry> = Vec::new();
        let ghost orig = rest@;
        let mut items: Vec<Option<ProbeEntry>> = Vec::new();
        while rest.len() > 0
            invariant
                rest@.len() + items@.len() == orig.len(),
                rest@ == orig.take(rest@.len() as int),
                forall|k: int| 0 <= k < items@.len() ==> items@[k] == Some(orig[orig.len() - 1 - k]),
            decreases rest@.len(),
        {
            let e = rest.pop().unwrap();
            items.push(Some(e));
        }
        while items.len() > 0
            invariant
                items@.len() <= orig.len(),
                p == not_failed(),
                out@ == orig.take(orig.len() - items@.len()).filter(p),
                forall|k: int| 0 <= k < items@.len() ==> items@[k] == Some(orig[orig.len() - 1 - k]),
            decreases items@.len(),
        {
            let ghost done = (orig.len() - items@.len()) as int;
            let slot = items.pop().unwrap();
            let e = slot.unwrap();
            proof {
                assert(e == orig[done]);
                assert(orig.take(done + 1).drop_last() =~= orig.take(done));
                assert(orig.take(done + 1).last() == e);
                reveal(Seq::filter);
                assert(orig.take(done + 1).filter(p) == (if p(e) {
                    orig.take(done).filter(p).push(e)
                } else {
                    orig.take(done).filter(p)
                }));
            }
            let failed = match &e.outcome {
                ProbeOutcome::Failed(_) => true,
                _ => false,
            };
            proof {

            }
            if !failed {
                out.push(e);
            }
        }
        proof {
            assert(orig.take(orig.len() as int) =~= orig);
        }
        self.by_addr = out;
    }

    /// Forget every probe that has not produced a fingerprint, so the
    /// next connection attempt probes those addresses afresh.
    pub fn retry_unresolved(&mut self)
        ensures
            final(self).by_addr@ == old(self).by_addr@.filter(resolved()),
    {
        let ghost p = resolved();
        let mut rest: Vec<ProbeEntry> = Vec::new();
        std::mem::swap(&mut rest, &mut self.by_addr);
        let mut out: Vec<ProbeEntry> = Vec::new();
        let ghost orig = rest@;
        let mut items: Vec<Option<ProbeEntry>> = Vec::new();
        while rest.len() > 0
            invariant
                rest@.len() + items@.len() == orig.len(),
                rest@ == orig.take(rest@.len() as int),
                forall|k: int| 0 <= k < items@.len() ==> items@[k] == Some(orig[orig.len() - 1 - k]),
            decreases rest@.len(),
        {
            let e = rest.pop().unwrap();
            items.push(Some(e));
        }
        while items.len() > 0
            invariant
                items@.len() <= orig.len(),
                p == resolved(),
                out@ == orig.take(orig.len() - items@.len()).filter(p),
                forall|k: int| 0 <= k < items@.len() ==> items@[k] == Some(orig[orig.len() - 1 - k]),
            decreases items@.len(),
        {
            let ghost done = (orig.len() - items@.len()) as int;
            let slot = items.pop().unwrap();
            let e = slot.unwrap();
            proof {
                assert(e == orig[done]);
                assert(orig.take(done + 1).drop_last() =~= orig.take(done));
                assert(orig.take(done + 1).last() == e);
                reveal(Seq::filter);
                assert(orig.take(done + 1).filter(p) == (if p(e) {
                    orig.take(done).filter(p).push(e)
                } else {
                    orig.take(done).filter(p)
                }));
            }
            let resolved = match &e.outcome {
                ProbeOutcome::Fingerprint(_) => true,
                _ => false,
            };
            if resolved {
                out.push(e);
            }
        }
        proof {
            assert(orig.take(orig.len() as int) =~= orig);
        }
        self.by_addr = out;
    }
}

} // verus!
