//! Servers seen over mDNS, keyed by instance name.

use vstd::prelude::*;
use crate::seqs::{first_index, lemma_index_facts, lemma_is_first_index, lemma_none_index};

verus! {

/// Where a server listens: IPv4 address (big-endian as a `u32`) and port.
#[derive(PartialEq, Eq, Structural, Clone, Copy, Debug)]
pub struct Endpoint {
    pub ip: u32,
    pub port: u16,
}

/// A discovered server.
pub struct ServerAd {
    pub name: String,
    pub host: String,
    pub ip: u32,
    pub port: u16,
}

impl ServerAd {
    pub open spec fn spec_endpoint(self) -> Endpoint {
        Endpoint { ip: self.ip, port: self.port }
    }

    /// The address to dial for this server.
    pub fn endpoint(&self) -> (e: Endpoint)
        ensures
            e == self.spec_endpoint(),
    {
        Endpoint { ip: self.ip, port: self.port }
    }

    /// A copy of the advertisement.
    pub fn duplicate(&self) -> (r: ServerAd)
        ensures
            r == *self,
    {
        ServerAd { name: self.name.clone(), host: self.host.clone(), ip: self.ip, port: self.port }
    }

    /// Field-wise equality of two advertisements.
    pub open spec fn same_as(self, other: ServerAd) -> bool {
        &&& self.name@ == other.name@
        &&& self.host@ == other.host@
        &&& self.ip == other.ip
        &&& self.port == other.port
    }

    pub fn equals(&self, other: &ServerAd) -> (r: bool)
        ensures
            r == self.same_as(*other),
    {
        crate::text::text_eq(&self.name, &other.name) && crate::text::text_eq(&self.host, &other.host)
            && self.ip == other.ip && self.port == other.port
    }
}

/// `i` is the first position of `s` whose name is `name`.
pub open spec fn first_server_named(s: Seq<ServerAd>, name: Seq<char>, i: int) -> bool {
    &&& 0 <= i < s.len()
    &&& s[i].name@ == name
    &&& forall|j: int| 0 <= j < i ==> s[j].name@ != name
}

/// Some server of `s` has the name `name`.
pub open spec fn has_server_named(s: Seq<ServerAd>, name: Seq<char>) -> bool {
    exists|i: int| 0 <= i < s.len() && s[i].name@ == name
}

/// Position of the first server named `name`.
pub fn find_server(servers: &Vec<ServerAd>, name: &String) -> (r: Option<usize>)
    ensures
        r matches Some(i) ==> first_server_named(servers@, name@, i as int),
        r is None ==> !has_server_named(servers@, name@),
{
    let mut i: usize = 0;
    while i < servers.len()
        invariant
            i <= servers@.len(),
            forall|j: int| 0 <= j < i ==> servers@[j].name@ != name@,
        decreases servers@.len() - i,
    {
        if crate::text::text_eq(&servers[i].name, name) {
            return Some(i);
        }
        i = i + 1;
    }
    None
}

/// The discovery source: at most one entry per name.
pub struct Discovery {
    pub servers: Vec<ServerAd>,
}

impl Discovery {
    /// No two entries share a name.
    pub open spec fn wf(self) -> bool {
        forall|i: int, j: int|
            0 <= i < j < self.servers@.len() ==> self.servers@[i].name@ != self.servers@[j].name@
    }

    pub fn new() -> (d: Self)
        ensures
            d.servers@.len() == 0,
            d.wf(),
    {
        Discovery { servers: Vec::new() }
    }

    /// Whether no two entries share a name.
    pub fn is_well_formed(&self) -> (r: bool)
        ensures
            r == self.wf(),
    {
        let n = self.servers.len();
        let mut j: usize = 0;
        while j < n
            invariant
                n == self.servers@.len(),
                j <= n,
                forall|a: int, b: int| 0 <= a < b < j ==> self.servers@[a].name@ != self.servers@[b].name@,
            decreases n - j,
        {
            let mut i: usize = 0;
            while i < j
                invariant
                    n == self.servers@.len(),
                    i <= j < n,
                    forall|a: int| 0 <= a < i ==> self.servers@[a].name@ != self.servers@[j as int].name@,
                decreases j - i,
            {
                if crate::text::text_eq(&self.servers[i].name, &self.servers[j].name) {
                    return false;
                }
                i = i + 1;
            }
            j = j + 1;
        }
        true
    }

    /// Insert `ad`, replacing the entry of the same name in place if
    /// there is one, appending otherwise.
    pub fn upsert(&mut self, ad: ServerAd)
        requires
            old(self).wf(),
        ensures
            final(self).wf(),
            match find_first_name(old(self).servers@, ad.name@) {
                Some(i) => final(self).servers@ == old(self).servers@.update(i, ad),
                None => final(self).servers@ == old(self).servers@.push(ad),
            },
    {
        match find_server(&self.servers, &ad.name) {
            Some(i) => {
                proof {
                    lemma_first_is_find(self.servers@, ad.name@, i as int);
                }
                self.servers.set(i, ad);
            },
            None => {
                proof {
                    lemma_none_is_find(self.servers@, ad.name@);
                }
                self.servers.push(ad);
            },
        }
    }

    /// Remove the entry named `name`, if there is one.
    pub fn remove(&mut self, name: &String)
        requires
            old(self).wf(),
        ensures
            final(self).wf(),
            match find_first_name(old(self).servers@, name@) {
                Some(i) => final(self).servers@ == old(self).servers@.remove(i),
                None => final(self).servers@ == old(self).servers@,
            },
    {
        match find_server(&self.servers, name) {
            Some(i) => {
                proof {
                    lemma_first_is_find(self.servers@, name@, i as int);
                }
                self.servers.remove(i);
                assert forall|a: int, b: int|
                    0 <= a < b < self.servers@.len() implies self.servers@[a].name@
                    != self.servers@[b].name@ by {
                    let oa = if a < i { a } else { a + 1 };
                    let ob = if b < i { b } else { b + 1 };
                    assert(self.servers@[a] == old(self).servers@[oa]);
                    assert(self.servers@[b] == old(self).servers@[ob]);
                }
            },
            None => {
                proof {
                    lemma_none_is_find(self.servers@, name@);
                }
            },
        }
    }
}

/// Whether a server carries the name `name`.
pub open spec fn named(name: Seq<char>) -> spec_fn(ServerAd) -> bool {
    |a: ServerAd| a.name@ == name
}

/// Position of the first server named `name`, as a spec value.
pub open spec fn find_first_name(s: Seq<ServerAd>, name: Seq<char>) -> Option<int> {
    first_index(s, named(name))
}

pub proof fn lemma_first_is_find(s: Seq<ServerAd>, name: Seq<char>, i: int)
    requires
        first_server_named(s, name, i),
    ensures
        find_first_name(s, name) == Some(i),
{
    lemma_is_first_index(s, named(name), i);
}

pub proof fn lemma_none_is_find(s: Seq<ServerAd>, name: Seq<char>)
    requires
        !has_server_named(s, name),
    ensures
        find_first_name(s, name) is None,
{
    lemma_none_index(s, named(name));
}

pub proof fn lemma_find_is_first(s: Seq<ServerAd>, name: Seq<char>)
    ensures
        find_first_name(s, name) matches Some(i) ==> first_server_named(s, name, i),
        find_first_name(s, name) is None ==> !has_server_named(s, name),
{
    lemma_index_facts(s, named(name));
}

} // verus!
