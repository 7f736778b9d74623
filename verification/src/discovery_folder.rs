//! The discovery worker's folder: it turns raw mDNS sightings into
//! added / refreshed / removed events, dropping servers that have gone
//! unseen for longer than the time-to-live.

use vstd::prelude::*;
use crate::drivers::DiscoveryEvent;
use crate::seqs::{first_index, key_is, lemma_index_facts, lemma_is_first_index, lemma_keyed_write, lemma_none_index, lookup};
use crate::state::discovery::ServerAd;
use crate::state::link::sat_add;
use crate::text::{push_char, str_chars};

verus! {

/// How long a server may go unseen before it is removed, in
/// milliseconds.
pub const SERVER_TTL_MS: u64 = 31_000;

/// The mDNS instance-name suffix of the service.
pub open spec fn service_suffix() -> Seq<char> {
    "._mkplay._tcp.local"@
}

/// An instance name without the service suffix, for display.
pub open spec fn stripped_name(s: Seq<char>) -> Seq<char> {
    let n = service_suffix().len();
    if s.len() >= n && s.subrange(s.len() - n, s.len() as int) == service_suffix() {
        s.take(s.len() - n)
    } else {
        s
    }
}

pub fn strip_service_suffix(instance_name: &str) -> (r: String)
    ensures
        r@ == stripped_name(instance_name@),
{
    let cs = str_chars(instance_name);
    let suffix = str_chars("._mkplay._tcp.local");
    let n = cs.len();
    let k = suffix.len();
    let mut keep = n;
    if n >= k {
        let mut j: usize = 0;
        let mut same = true;
        while j < k
            invariant
                n == cs@.len(),
                k == suffix@.len(),
                n >= k,
                j <= k,
                same == (forall|t: int| 0 <= t < j ==> cs@[n - k + t] == suffix@[t]),
            decreases k - j,
        {
            if cs[n - k + j] != suffix[j] {
                same = false;
            }
            j = j + 1;
        }
        if same {
            assert(cs@.subrange(n - k, n as int) =~= suffix@);
            keep = n - k;
        } else {
            assert(!(cs@.subrange(n - k, n as int) =~= suffix@)) by {
                let t = choose|t: int| 0 <= t < k && cs@[n - k + t] != suffix@[t];
                assert(cs@.subrange(n - k, n as int)[t] == cs@[n - k + t]);
            }
        }
    }
    let mut out = String::new();
    let mut i: usize = 0;
    while i < keep
        invariant
            keep <= n,
            n == cs@.len(),
            i <= keep,
            out@ == cs@.take(i as int),
        decreases keep - i,
    {
        push_char(&mut out, cs[i]);
        i = i + 1;
        assert(out@ =~= cs@.take(i as int));
    }
    assert(cs@.take(n as int) =~= cs@);
    out
}

/// Whether an IPv4 address (as a big-endian `u32`) is in 127.0.0.0/8.
pub open spec fn is_loopback(ip: u32) -> bool {
    ip / 0x100_0000 == 127
}

/// The netmask a query on interface `ip` announces: /8 on loopback,
/// /24 elsewhere.
pub fn query_netmask(ip: u32) -> (m: u32)
    ensures
        m == (if is_loopback(ip) { 0xff00_0000u32 } else { 0xffff_ff00u32 }),
{
    if ip / 0x100_0000 == 127 {
        0xff00_0000
    } else {
        0xffff_ff00
    }
}

/// Where a discovered service can be dialled: only an IPv4 address
/// (`None` stands for any other) with a nonzero port is kept.
pub fn admitted_endpoint(ipv4: Option<u32>, port: u16) -> (r: Option<crate::state::discovery::Endpoint>)
    ensures
        r == (match ipv4 {
            Some(ip) => if port > 0 { Some(crate::state::discovery::Endpoint { ip, port }) } else { None },
            None => None,
        }),
{
    match ipv4 {
        Some(ip) => if port > 0 {
            Some(crate::state::discovery::Endpoint { ip, port })
        } else {
            None
        },
        None => None,
    }
}

/// One server the folder currently reports, with when it was last seen.
pub struct FolderEntry {
    pub ad: ServerAd,
    pub last_seen: u64,
}

/// An entry's key: the server's instance name.
pub open spec fn entry_name() -> spec_fn(FolderEntry) -> Seq<char> {
    |e: FolderEntry| e.ad.name@
}

/// The folder's state: every server reported and not yet removed.
pub struct DiscoveryFolder {
    pub entries: Vec<FolderEntry>,
}

/// Whether an entry is still live at `now`.
pub open spec fn live_at(now: u64) -> spec_fn(FolderEntry) -> bool {
    |e: FolderEntry| !(now > e.last_seen && now - e.last_seen > SERVER_TTL_MS)
}

/// The earliest expiry among `entries`.
pub open spec fn spec_next_expiry(entries: Seq<FolderEntry>) -> Option<u64>
    decreases entries.len(),
{
    if entries.len() == 0 {
        None
    } else {
        let at = sat_add(entries.last().last_seen, SERVER_TTL_MS);
        match spec_next_expiry(entries.drop_last()) {
            None => Some(at),
            Some(m) => Some(if m <= at { m } else { at }),
        }
    }
}

/// The removals a sweep reports: the names of the expired entries, in
/// order.
pub open spec fn expired_names(entries: Seq<FolderEntry>, now: u64) -> Seq<Seq<char>>
    decreases entries.len(),
{
    if entries.len() == 0 {
        Seq::empty()
    } else {
        let rest = expired_names(entries.drop_last(), now);
        if live_at(now)(entries.last()) { rest } else { rest.push(entries.last().ad.name@) }
    }
}

impl DiscoveryFolder {
    pub fn new() -> (f: Self)
        ensures
            f.entries@.len() == 0,
    {
        DiscoveryFolder { entries: Vec::new() }
    }

    fn find(&self, name: &String) -> (r: Option<usize>)
        ensures
            r matches Some(i) ==> first_index(self.entries@, key_is(entry_name(), name@)) == Some(i as int)
                && (i as int) < self.entries@.len(),
            r is None ==> first_index(self.entries@, key_is(entry_name(), name@)) is None,
    {
        let mut i: usize = 0;
        while i < self.entries.len()
            invariant
                i <= self.entries@.len(),
                forall|j: int| 0 <= j < i ==> !key_is(entry_name(), name@)(self.entries@[j]),
            decreases self.entries@.len() - i,
        {
            if crate::text::text_eq(&self.entries[i].ad.name, name) {
                proof {
                    lemma_is_first_index(self.entries@, key_is(entry_name(), name@), i as int);
                }
                return Some(i);
            }
            i = i + 1;
        }
        proof {
            lemma_none_index(self.entries@, key_is(entry_name(), name@));
        }
        None
    }

    /// A sighting of `ad` at `now`: a new server is added, a known one
    /// whose advertisement changed is refreshed, a known unchanged one
    /// only has its sighting time moved.
    pub fn observe(&mut self, ad: ServerAd, now: u64) -> (ev: Option<DiscoveryEvent>)
        ensures
            lookup(final(self).entries@, entry_name(), ad.name@) == Some(FolderEntry { ad, last_seen: now }),
            forall|n: Seq<char>| n != ad.name@ ==> lookup(final(self).entries@, entry_name(), n)
                == lookup(old(self).entries@, entry_name(), n),
            match lookup(old(self).entries@, entry_name(), ad.name@) {
                None => ev matches Some(DiscoveryEvent::Added(a)) && a == ad,
                Some(e) => if e.ad.same_as(ad) { ev is None } else { ev matches Some(DiscoveryEvent::Refreshed(a)) && a == ad },
            },
    {
        let found = self.find(&ad.name);
        proof {
            lemma_index_facts(self.entries@, key_is(entry_name(), ad.name@));
        }
        let ev = match found {
            Some(i) => {
                if self.entries[i].ad.equals(&ad) {
                    None
                } else {
                    Some(DiscoveryEvent::Refreshed(ad.duplicate()))
                }
            },
            None => Some(DiscoveryEvent::Added(ad.duplicate())),
        };
        let e = FolderEntry { ad, last_seen: now };
        let ghost g = e;
        match found {
            Some(i) => self.entries.set(i, e),
            None => self.entries.push(e),
        }
        proof {
            lemma_keyed_write(old(self).entries@, self.entries@, entry_name(), g);
        }
        ev
    }

    /// When the folder must next wake to expire a server.
    pub fn next_expiry(&self) -> (r: Option<u64>)
        ensures
            r == spec_next_expiry(self.entries@),
    {
        let mut best: Option<u64> = None;
        let mut i: usize = 0;
        while i < self.entries.len()
            invariant
                i <= self.entries@.len(),
                best == spec_next_expiry(self.entries@.take(i as int)),
            decreases self.entries@.len() - i,
        {
            let at = self.entries[i].last_seen.saturating_add(SERVER_TTL_MS);
            proof {
                assert(self.entries@.take(i + 1).drop_last() =~= self.entries@.take(i as int));
            }
            best = match best {
                None => Some(at),
                Some(m) => Some(if m <= at { m } else { at }),
            };
            i = i + 1;
        }
        proof {
            assert(self.entries@.take(self.entries@.len() as int) =~= self.entries@);
        }
        best
    }

    /// Drop every server unseen for longer than the time-to-live at
    /// `now`, reporting each removal in order.
    pub fn sweep(&mut self, now: u64) -> (removed: Vec<DiscoveryEvent>)
        ensures
            final(self).entries@ == old(self).entries@.filter(live_at(now)),
            removed@.len() == expired_names(old(self).entries@, now).len(),
            forall|k: int| 0 <= k < removed@.len() ==> (#[trigger] removed@[k] matches DiscoveryEvent::Removed { name }
                && name@ == expired_names(old(self).entries@, now)[k]),
    {
        let ghost orig = self.entries@;
        let mut rest: Vec<FolderEntry> = Vec::new();
        std::mem::swap(&mut rest, &mut self.entries);
        let mut rev: Vec<FolderEntry> = Vec::new();
        while rest.len() > 0
            invariant
                rest@.len() + rev@.len() == orig.len(),
                rest@ == orig.take(rest@.len() as int),
                forall|k: int| 0 <= k < rev@.len() ==> rev@[k] == orig[orig.len() - 1 - k],
            decreases rest@.len(),
        {
            let e = rest.pop().unwrap();
            rev.push(e);
        }
        let mut kept: Vec<FolderEntry> = Vec::new();
        let mut removed: Vec<DiscoveryEvent> = Vec::new();
        while rev.len() > 0
            invariant
                rev@.len() <= orig.len(),
                forall|k: int| 0 <= k < rev@.len() ==> rev@[k] == orig[orig.len() - 1 - k],
                kept@ == orig.take(orig.len() - rev@.len()).filter(live_at(now)),
                removed@.len() == expired_names(orig.take(orig.len() - rev@.len()), now).len(),
                forall|k: int| 0 <= k < removed@.len() ==> (#[trigger] removed@[k] matches DiscoveryEvent::Removed { name }
                    && name@ == expired_names(orig.take(orig.len() - rev@.len()), now)[k]),
            decreases rev@.len(),
        {
            let ghost done = (orig.len() - rev@.len()) as int;
            let e = rev.pop().unwrap();
            proof {
                assert(orig.take(done + 1).drop_last() =~= orig.take(done));
                assert(orig.take(done + 1).last() == e);
                reveal(Seq::filter);
            }
            let expired = now > e.last_seen && now - e.last_seen > SERVER_TTL_MS;
            if expired {
                removed.push(DiscoveryEvent::Removed { name: e.ad.name });
            } else {
                kept.push(e);
            }
        }
        proof {
            assert(orig.take(orig.len() as int) =~= orig);
        }
        self.entries = kept;
        removed
    }
}

} // verus!
