//! The per-view output bridge: which view each payload belongs to, and
//! the dedup source that keeps an identical payload from being pushed
//! twice.

use vstd::prelude::*;
use crate::seqs::{first_index, key_is, lemma_keyed_write, lookup};

verus! {

/// Identifier of each view whose output the bridge tracks. The order
/// fixes the integer each kind crosses the platform boundary as.
#[derive(Clone, Copy, PartialEq, Eq, Structural, Debug, Hash)]
pub enum ViewKind {
    NowPlaying,
    LeftColumn,
    MiddleHeader,
    Queue,
    PlaylistTracks,
    SearchResults,
    AlbumDetail,
    ArtistDetail,
    SelectionBar,
    PreConnect,
    ActionModal,
    ConfirmDeletePlaylist,
    ConfirmRemove,
    ErrorModal,
    FilterInput,
    HelpOverlay,
    InputModal,
    PairingModal,
    PlaylistActionModal,
    PlaylistPickerHint,
    SearchInputModal,
    SelectionActionModal,
    ServerLostModal,
    ServerPickerModal,
    Shell,
}

/// The wire number of each kind: its position in the declaration.
pub open spec fn kind_number(k: ViewKind) -> u32 {
    match k {
        ViewKind::NowPlaying => 0,
        ViewKind::LeftColumn => 1,
        ViewKind::MiddleHeader => 2,
        ViewKind::Queue => 3,
        ViewKind::PlaylistTracks => 4,
        ViewKind::SearchResults => 5,
        ViewKind::AlbumDetail => 6,
        ViewKind::ArtistDetail => 7,
        ViewKind::SelectionBar => 8,
        ViewKind::PreConnect => 9,
        ViewKind::ActionModal => 10,
        ViewKind::ConfirmDeletePlaylist => 11,
        ViewKind::ConfirmRemove => 12,
        ViewKind::ErrorModal => 13,
        ViewKind::FilterInput => 14,
        ViewKind::HelpOverlay => 15,
        ViewKind::InputModal => 16,
        ViewKind::PairingModal => 17,
        ViewKind::PlaylistActionModal => 18,
        ViewKind::PlaylistPickerHint => 19,
        ViewKind::SearchInputModal => 20,
        ViewKind::SelectionActionModal => 21,
        ViewKind::ServerLostModal => 22,
        ViewKind::ServerPickerModal => 23,
        ViewKind::Shell => 24,
    }
}

impl ViewKind {
    /// The stable integer this kind crosses the platform boundary as.
    pub fn as_u32(self) -> (n: u32)
        ensures
            n == kind_number(self),
    {
        match self {
            ViewKind::NowPlaying => 0,
            ViewKind::LeftColumn => 1,
            ViewKind::MiddleHeader => 2,
            ViewKind::Queue => 3,
            ViewKind::PlaylistTracks => 4,
            ViewKind::SearchResults => 5,
            ViewKind::AlbumDetail => 6,
            ViewKind::ArtistDetail => 7,
            ViewKind::SelectionBar => 8,
            ViewKind::PreConnect => 9,
            ViewKind::ActionModal => 10,
            ViewKind::ConfirmDeletePlaylist => 11,
            ViewKind::ConfirmRemove => 12,
            ViewKind::ErrorModal => 13,
            ViewKind::FilterInput => 14,
            ViewKind::HelpOverlay => 15,
            ViewKind::InputModal => 16,
            ViewKind::PairingModal => 17,
            ViewKind::PlaylistActionModal => 18,
            ViewKind::PlaylistPickerHint => 19,
            ViewKind::SearchInputModal => 20,
            ViewKind::SelectionActionModal => 21,
            ViewKind::ServerLostModal => 22,
            ViewKind::ServerPickerModal => 23,
            ViewKind::Shell => 24,
        }
    }
}

/// Distinct kinds cross the boundary as distinct integers.
pub proof fn lemma_kind_number_injective(a: ViewKind, b: ViewKind)
    ensures
        kind_number(a) == kind_number(b) ==> a == b,
{
}

/// The last payload shipped for one view.
pub struct BridgeEntry {
    pub kind: ViewKind,
    pub payload: Vec<u8>,
}

/// An entry's key.
pub open spec fn entry_kind() -> spec_fn(BridgeEntry) -> ViewKind {
    |e: BridgeEntry| e.kind
}

/// Driver-owned source: the last payload shipped for each view.
pub struct UiBridgeState {
    pub in_flight: Vec<BridgeEntry>,
}

/// Commands the driver ships to its native worker.
pub enum BridgeCmd {
    Push { kind: ViewKind, payload: Vec<u8> },
}

/// Whether two byte strings are equal.
pub fn bytes_eq(a: &Vec<u8>, b: &Vec<u8>) -> (r: bool)
    ensures
        r == (a@ == b@),
{
    if a.len() != b.len() {
        return false;
    }
    let mut i: usize = 0;
    while i < a.len()
        invariant
            a@.len() == b@.len(),
            i <= a@.len(),
            forall|j: int| 0 <= j < i ==> a@[j] == b@[j],
        decreases a@.len() - i,
    {
        if a[i] != b[i] {
            return false;
        }
        i = i + 1;
    }
    assert(a@ =~= b@);
    true
}

/// A fresh copy of a byte string.
pub fn copy_bytes(a: &Vec<u8>) -> (r: Vec<u8>)
    ensures
        r@ == a@,
{
    let mut r: Vec<u8> = Vec::new();
    let mut i: usize = 0;
    while i < a.len()
        invariant
            i <= a@.len(),
            r@ == a@.subrange(0, i as int),
        decreases a@.len() - i,
    {
        r.push(a[i]);
        i = i + 1;
        assert(r@ =~= a@.subrange(0, i as int));
    }
    assert(a@.subrange(0, a@.len() as int) =~= a@);
    r
}

impl UiBridgeState {
    /// The bytes last shipped for `kind`, if any.
    pub open spec fn payload_of(self, kind: ViewKind) -> Option<Seq<u8>> {
        match lookup(self.in_flight@, entry_kind(), kind) {
            Some(e) => Some(e.payload@),
            None => None,
        }
    }

    /// Nothing shipped yet.
    pub fn new() -> (s: Self)
        ensures
            forall|k: ViewKind| s.payload_of(k) is None,
    {
        UiBridgeState { in_flight: Vec::new() }
    }

    fn find(&self, kind: ViewKind) -> (r: Option<usize>)
        ensures
            r matches Some(i) ==> first_index(self.in_flight@, key_is(entry_kind(), kind)) == Some(i as int)
                && (i as int) < self.in_flight@.len(),
            r is None ==> first_index(self.in_flight@, key_is(entry_kind(), kind)) is None,
    {
        let mut i: usize = 0;
        while i < self.in_flight.len()
            invariant
                i <= self.in_flight@.len(),
                forall|j: int| 0 <= j < i ==> !key_is(entry_kind(), kind)(self.in_flight@[j]),
            decreases self.in_flight@.len() - i,
        {
            if self.in_flight[i].kind == kind {
                proof {
                    crate::seqs::lemma_is_first_index(self.in_flight@, key_is(entry_kind(), kind), i as int);
                }
                return Some(i);
            }
            i = i + 1;
        }
        proof {
            crate::seqs::lemma_none_index(self.in_flight@, key_is(entry_kind(), kind));
        }
        None
    }

    /// What staging `payload` for `kind` does: nothing when it is what
    /// was last shipped; otherwise it becomes the payload in flight for
    /// `kind` (every other kind untouched) and is pushed.
    pub open spec fn staged(pre: Self, post: Self, kind: ViewKind, payload: Seq<u8>, pushed: bool) -> bool {
        if pre.payload_of(kind) == Some(payload) {
            !pushed && post == pre
        } else {
            &&& pushed
            &&& post.payload_of(kind) == Some(payload)
            &&& forall|o: ViewKind| o != kind ==> post.payload_of(o) == pre.payload_of(o)
        }
    }

    /// Dedup against what was last shipped for `kind`: an identical
    /// payload yields nothing; otherwise the payload becomes the one
    /// in flight and a push of it is returned for the worker.
    pub fn stage(&mut self, kind: ViewKind, payload: Vec<u8>) -> (cmd: Option<BridgeCmd>)
        ensures
            Self::staged(*old(self), *final(self), kind, payload@, cmd is Some),
            cmd matches Some(BridgeCmd::Push { kind: k, payload: p }) ==> k == kind && p@ == payload@,
    {
        let found = self.find(kind);
        match found {
            Some(i) => {
                if bytes_eq(&self.in_flight[i].payload, &payload) {
                    return None;
                }
            },
            None => {},
        }
        let e = BridgeEntry { kind, payload: copy_bytes(&payload) };
        let ghost g = e;
        match found {
            Some(i) => {
                self.in_flight.set(i, e);
            },
            None => {
                self.in_flight.push(e);
            },
        }
        proof {
            lemma_keyed_write(old(self).in_flight@, self.in_flight@, entry_kind(), g);
        }
        Some(BridgeCmd::Push { kind, payload })
    }
}

/// Hooks a front end implements to watch the bridge. Both do nothing
/// unless overridden.
pub trait Trace {
    fn bridge_push(&self, kind: ViewKind, bytes: usize) {
    }

    fn bridge_skip(&self, kind: ViewKind) {
    }
}

/// Trace sink that records nothing.
pub struct NoopTrace;

impl Trace for NoopTrace {
}

impl UiBridgeState {
    /// Stage `payload` for `kind` as `stage` does, and tell `trace`
    /// whether it was skipped or pushed (with its size).
    pub fn execute<T: Trace>(&mut self, kind: ViewKind, payload: Vec<u8>, trace: &T) -> (cmd: Option<BridgeCmd>)
        ensures
            Self::staged(*old(self), *final(self), kind, payload@, cmd is Some),
            cmd matches Some(BridgeCmd::Push { kind: k, payload: p }) ==> k == kind && p@ == payload@,
    {
        let bytes = payload.len();
        let cmd = self.stage(kind, payload);
        match cmd {
            None => trace.bridge_skip(kind),
            Some(_) => trace.bridge_push(kind, bytes),
        }
        cmd
    }
}

} // verus!
