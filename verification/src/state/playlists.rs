//! The playlist list and the tracks of the open playlist.

use vstd::prelude::*;
use crate::proto::{Playlist, Song, TaskId};
use crate::seqs::{first_index, key_is, lemma_is_first_index, lemma_keyed_write, lemma_none_index, lookup};

verus! {

/// The playlists source.
pub struct Playlists {
    pub items: Vec<Playlist>,
    /// The first list has arrived (or failed and degraded to empty).
    pub loaded: bool,
    /// A mutation broadcast said the list may be out of date.
    pub stale: bool,
    /// Seq of the outstanding `GetPlaylists`.
    pub pending_request: Option<u64>,
    /// Task streaming the track counts of the last `GetPlaylists`.
    pub pending_task: Option<TaskId>,
}

impl Playlists {
    pub open spec fn is_reset(self) -> bool {
        &&& self.items@.len() == 0
        &&& !self.loaded
        &&& !self.stale
        &&& self.pending_request is None
        &&& self.pending_task is None
    }

    pub fn new() -> (p: Self)
        ensures
            p.is_reset(),
    {
        Playlists { items: Vec::new(), loaded: false, stale: false, pending_request: None, pending_task: None }
    }

    /// Replace the list; the list counts as loaded from now on.
    pub fn set_all(&mut self, items: Vec<Playlist>)
        ensures
            final(self).items@ == items@,
            final(self).loaded,
            final(self).stale == old(self).stale,
            final(self).pending_request == old(self).pending_request,
            final(self).pending_task == old(self).pending_task,
    {
        self.items = items;
        self.loaded = true;
    }
}

/// A playlist's key: its id.
pub open spec fn playlist_key() -> spec_fn(Playlist) -> Seq<char> {
    |p: Playlist| p.id@
}

/// The playlist listed under `id`, if any.
pub open spec fn playlist_by_id(items: Seq<Playlist>, id: Seq<char>) -> Option<Playlist> {
    lookup(items, playlist_key(), id)
}

/// A playlist other than `id`.
pub open spec fn not_id(id: Seq<char>) -> spec_fn(Playlist) -> bool {
    |p: Playlist| p.id@ != id
}

/// `count + delta`, kept within `0..=u32::MAX`.
pub open spec fn adjusted(count: u32, delta: i32) -> u32 {
    let v = count + delta;
    if v < 0 { 0 } else if v > u32::MAX { u32::MAX } else { v as u32 }
}

impl Playlist {
    pub fn duplicate(&self) -> (r: Playlist)
        ensures
            r == *self,
    {
        Playlist { id: self.id.clone(), name: self.name.clone(), track_count: self.track_count }
    }
}

/// Position of the playlist with id `id`.
pub fn find_playlist_id(items: &Vec<Playlist>, id: &String) -> (r: Option<usize>)
    ensures
        r matches Some(i) ==> first_index(items@, key_is(playlist_key(), id@)) == Some(i as int) && (i as int) < items@.len(),
        r is None ==> first_index(items@, key_is(playlist_key(), id@)) is None,
{
    let mut i: usize = 0;
    while i < items.len()
        invariant
            i <= items@.len(),
            forall|j: int| 0 <= j < i ==> !key_is(playlist_key(), id@)(items@[j]),
        decreases items@.len() - i,
    {
        if crate::text::text_eq(&items[i].id, id) {
            proof {
                lemma_is_first_index(items@, key_is(playlist_key(), id@), i as int);
            }
            return Some(i);
        }
        i = i + 1;
    }
    proof {
        lemma_none_index(items@, key_is(playlist_key(), id@));
    }
    None
}

impl Playlists {
    /// Put `p` in the list: it replaces the entry with its id, or is
    /// appended.
    pub fn upsert(&mut self, p: Playlist)
        ensures
            playlist_by_id(final(self).items@, p.id@) == Some(p),
            forall|id: Seq<char>| id != p.id@ ==> playlist_by_id(final(self).items@, id) == playlist_by_id(old(self).items@, id),
            final(self).loaded == old(self).loaded,
            final(self).stale == old(self).stale,
            final(self).pending_request == old(self).pending_request,
            final(self).pending_task == old(self).pending_task,
    {
        let ghost g = p;
        match find_playlist_id(&self.items, &p.id) {
            Some(i) => self.items.set(i, p),
            None => self.items.push(p),
        }
        proof {
            lemma_keyed_write(old(self).items@, self.items@, playlist_key(), g);
        }
    }

    /// Replace the entry for `id` with `e` (which has that id); no entry,
    /// no change.
    fn write_entry(&mut self, i: Option<usize>, e: Playlist)
        requires
            i matches Some(k) ==> first_index(old(self).items@, key_is(playlist_key(), e.id@)) == Some(k as int)
                && (k as int) < old(self).items@.len(),
        ensures
            i is None ==> final(self).items@ == old(self).items@,
            i is Some ==> playlist_by_id(final(self).items@, e.id@) == Some(e)
                && forall|id: Seq<char>| id != e.id@ ==> playlist_by_id(final(self).items@, id) == playlist_by_id(old(self).items@, id),
            final(self).loaded == old(self).loaded,
            final(self).stale == old(self).stale,
            final(self).pending_request == old(self).pending_request,
            final(self).pending_task == old(self).pending_task,
    {
        if let Some(k) = i {
            let ghost g = e;
            self.items.set(k, e);
            proof {
                lemma_keyed_write(old(self).items@, self.items@, playlist_key(), g);
            }
        }
    }

    /// Rename playlist `id`.
    pub fn rename(&mut self, id: &String, new_name: String)
        ensures
            match playlist_by_id(old(self).items@, id@) {
                None => final(self).items@ == old(self).items@,
                Some(p) => playlist_by_id(final(self).items@, id@) == Some(Playlist { name: new_name, ..p })
                    && forall|o: Seq<char>| o != id@ ==> playlist_by_id(final(self).items@, o) == playlist_by_id(old(self).items@, o),
            },
            final(self).loaded == old(self).loaded,
            final(self).stale == old(self).stale,
            final(self).pending_request == old(self).pending_request,
            final(self).pending_task == old(self).pending_task,
    {
        let found = find_playlist_id(&self.items, id);
        proof {
            crate::seqs::lemma_index_facts(self.items@, key_is(playlist_key(), id@));
        }
        if let Some(k) = found {
            let e = Playlist { id: self.items[k].id.clone(), name: new_name, track_count: self.items[k].track_count };
            self.write_entry(found, e);
        }
    }

    /// Set the track count of playlist `id`.
    pub fn set_track_count(&mut self, id: &String, track_count: u32)
        ensures
            match playlist_by_id(old(self).items@, id@) {
                None => final(self).items@ == old(self).items@,
                Some(p) => playlist_by_id(final(self).items@, id@) == Some(Playlist { track_count, ..p })
                    && forall|o: Seq<char>| o != id@ ==> playlist_by_id(final(self).items@, o) == playlist_by_id(old(self).items@, o),
            },
            final(self).loaded == old(self).loaded,
            final(self).stale == old(self).stale,
            final(self).pending_request == old(self).pending_request,
            final(self).pending_task == old(self).pending_task,
    {
        let found = find_playlist_id(&self.items, id);
        proof {
            crate::seqs::lemma_index_facts(self.items@, key_is(playlist_key(), id@));
        }
        if let Some(k) = found {
            let e = Playlist { id: self.items[k].id.clone(), name: self.items[k].name.clone(), track_count };
            self.write_entry(found, e);
        }
    }

    /// Move the track count of playlist `id` by `delta`, never below
    /// zero.
    pub fn adjust_track_count(&mut self, id: &String, delta: i32)
        ensures
            match playlist_by_id(old(self).items@, id@) {
                None => final(self).items@ == old(self).items@,
                Some(p) => playlist_by_id(final(self).items@, id@) == Some(Playlist { track_count: adjusted(p.track_count, delta), ..p })
                    && forall|o: Seq<char>| o != id@ ==> playlist_by_id(final(self).items@, o) == playlist_by_id(old(self).items@, o),
            },
            final(self).loaded == old(self).loaded,
            final(self).stale == old(self).stale,
            final(self).pending_request == old(self).pending_request,
            final(self).pending_task == old(self).pending_task,
    {
        let found = find_playlist_id(&self.items, id);
        proof {
            crate::seqs::lemma_index_facts(self.items@, key_is(playlist_key(), id@));
        }
        if let Some(k) = found {
            let c = self.items[k].track_count as i64 + delta as i64;
            let n: u32 = if c < 0 { 0 } else if c > u32::MAX as i64 { u32::MAX } else { c as u32 };
            let e = Playlist { id: self.items[k].id.clone(), name: self.items[k].name.clone(), track_count: n };
            self.write_entry(found, e);
        }
    }

    /// Drop every entry for playlist `id`.
    pub fn remove(&mut self, id: &String)
        ensures
            final(self).items@ == old(self).items@.filter(not_id(id@)),
            final(self).loaded == old(self).loaded,
            final(self).stale == old(self).stale,
            final(self).pending_request == old(self).pending_request,
            final(self).pending_task == old(self).pending_task,
    {
        let ghost orig = self.items@;
        let mut kept: Vec<Playlist> = Vec::new();
        let mut i: usize = 0;
        while i < self.items.len()
            invariant
                i <= self.items@.len(),
                self.items@ == orig,
                kept@ == orig.take(i as int).filter(not_id(id@)),
            decreases self.items@.len() - i,
        {
            proof {
                assert(orig.take(i + 1).drop_last() =~= orig.take(i as int));
                reveal(Seq::filter);
            }
            if !crate::text::text_eq(&self.items[i].id, id) {
                kept.push(self.items[i].duplicate());
            }
            i = i + 1;
        }
        proof {
            assert(orig.take(orig.len() as int) =~= orig);
        }
        self.items = kept;
    }
}

/// Whether a playlist has the name `name`.
pub open spec fn playlist_named(name: Seq<char>) -> spec_fn(Playlist) -> bool {
    |p: Playlist| p.name@ == name
}

/// Position of the first playlist named `name`.
pub fn find_playlist_named(items: &Vec<Playlist>, name: &String) -> (r: Option<usize>)
    ensures
        r matches Some(i) ==> first_index(items@, playlist_named(name@)) == Some(i as int) && (i as int) < items@.len(),
        r is None ==> first_index(items@, playlist_named(name@)) is None,
{
    let mut i: usize = 0;
    while i < items.len()
        invariant
            i <= items@.len(),
            forall|j: int| 0 <= j < i ==> !playlist_named(name@)(items@[j]),
        decreases items@.len() - i,
    {
        if crate::text::text_eq(&items[i].name, name) {
            proof {
                lemma_is_first_index(items@, playlist_named(name@), i as int);
            }
            return Some(i);
        }
        i = i + 1;
    }
    proof {
        lemma_none_index(items@, playlist_named(name@));
    }
    None
}

/// Whether some playlist has the id `id`.
pub fn has_playlist_id(items: &Vec<Playlist>, id: &String) -> (r: bool)
    ensures
        r == (exists|j: int| 0 <= j < items@.len() && items@[j].id@ == id@),
{
    let mut i: usize = 0;
    while i < items.len()
        invariant
            i <= items@.len(),
            forall|j: int| 0 <= j < i ==> items@[j].id@ != id@,
        decreases items@.len() - i,
    {
        if crate::text::text_eq(&items[i].id, id) {
            return true;
        }
        i = i + 1;
    }
    false
}

/// The tracks of the open playlist. Slots are sized by the list
/// header and filled as chunks land.
pub struct PlaylistTracks {
    pub playlist_id: Option<String>,
    pub songs: Vec<Option<Song>>,
    pub focus: usize,
    pub stale: bool,
    pub pending_task: Option<TaskId>,
}

impl PlaylistTracks {
    pub open spec fn is_reset(self) -> bool {
        &&& self.playlist_id is None
        &&& self.songs@.len() == 0
        &&& self.focus == 0
        &&& !self.stale
        &&& self.pending_task is None
    }

    pub fn new() -> (t: Self)
        ensures
            t.is_reset(),
    {
        PlaylistTracks { playlist_id: None, songs: Vec::new(), focus: 0, stale: false, pending_task: None }
    }

    /// Drop the open playlist and its rows.
    pub fn clear(&mut self)
        ensures
            final(self).is_reset(),
    {
        self.playlist_id = None;
        self.songs = Vec::new();
        self.focus = 0;
        self.stale = false;
        self.pending_task = None;
    }

    /// A transfer of playlist `id` begins: `total` empty slots, the
    /// view focused on row `focus`.
    pub fn begin(&mut self, id: String, total: usize, focus: usize)
        ensures
            final(self).playlist_id == Some(id),
            final(self).songs@ == Seq::<Option<Song>>::new(total as nat, |i: int| None),
            final(self).focus == focus,
            !final(self).stale,
            final(self).pending_task == old(self).pending_task,
    {
        let mut songs: Vec<Option<Song>> = Vec::new();
        let mut i: usize = 0;
        while i < total
            invariant
                i <= total,
                songs@ == Seq::<Option<Song>>::new(i as nat, |k: int| None),
            decreases total - i,
        {
            songs.push(None);
            i = i + 1;
            assert(songs@ =~= Seq::<Option<Song>>::new(i as nat, |k: int| None));
        }
        self.playlist_id = Some(id);
        self.songs = songs;
        self.focus = focus;
        self.stale = false;
    }

    /// Rows `offset..` of the open playlist arrived: each fills its slot;
    /// rows past the announced length are dropped.
    pub fn chunk(&mut self, offset: usize, rows: Vec<Song>)
        ensures
            final(self).songs@.len() == old(self).songs@.len(),
            forall|k: int| 0 <= k < old(self).songs@.len() ==> #[trigger] final(self).songs@[k] == (if offset <= k < offset + rows@.len() {
                Some(rows@[k - offset])
            } else {
                old(self).songs@[k]
            }),
            final(self).playlist_id == old(self).playlist_id,
            final(self).focus == old(self).focus,
            final(self).stale == old(self).stale,
            final(self).pending_task == old(self).pending_task,
    {
        let n = rows.len();
        let mut rows = rows;
        let ghost orig_rows = rows@;
        let mut j: usize = n;
        while j > 0
            invariant
                j <= n,
                n == orig_rows.len(),
                rows@ == orig_rows.take(j as int),
                self.songs@.len() == old(self).songs@.len(),
                forall|k: int| 0 <= k < old(self).songs@.len() ==> #[trigger] self.songs@[k] == (if offset + j <= k < offset + n {
                    Some(orig_rows[k - offset])
                } else {
                    old(self).songs@[k]
                }),
                self.playlist_id == old(self).playlist_id,
                self.focus == old(self).focus,
                self.stale == old(self).stale,
                self.pending_task == old(self).pending_task,
            decreases j,
        {
            let song = rows.pop().unwrap();
            j = j - 1;
            proof {
                assert(orig_rows.take(j + 1).last() == song);
                assert(rows@ =~= orig_rows.take(j as int));
            }
            if offset <= self.songs.len() && j < self.songs.len() - offset {
                self.songs.set(offset + j, Some(song));
            }
        }
    }

    /// Songs were appended to playlist `id`: when it is the open one
    /// they join its rows.
    pub fn extend(&mut self, id: &String, rows: Vec<Song>)
        ensures
            crate::text::opt_view(old(self).playlist_id) == Some(id@) ==> final(self).songs@ == old(self).songs@ + rows@.map_values(|s: Song| Some(s)),
            crate::text::opt_view(old(self).playlist_id) != Some(id@) ==> final(self).songs@ == old(self).songs@,
            final(self).playlist_id == old(self).playlist_id,
            final(self).focus == old(self).focus,
            final(self).stale == old(self).stale,
            final(self).pending_task == old(self).pending_task,
    {
        let open = match &self.playlist_id {
            Some(p) => crate::text::text_eq(p, id),
            None => false,
        };
        if !open {
            return;
        }
        let ghost orig = self.songs@;
        let mut rows = rows;
        let ghost all = rows@;
        let mut rev: Vec<Song> = Vec::new();
        while rows.len() > 0
            invariant
                rows@.len() + rev@.len() == all.len(),
                rows@ == all.take(rows@.len() as int),
                forall|k: int| 0 <= k < rev@.len() ==> rev@[k] == all[all.len() - 1 - k],
            decreases rows@.len(),
        {
            let s = rows.pop().unwrap();
            rev.push(s);
        }
        while rev.len() > 0
            invariant
                rev@.len() <= all.len(),
                forall|k: int| 0 <= k < rev@.len() ==> rev@[k] == all[all.len() - 1 - k],
                self.songs@ == orig + all.take(all.len() - rev@.len()).map_values(|s: Song| Some(s)),
                self.playlist_id == old(self).playlist_id,
                self.focus == old(self).focus,
                self.stale == old(self).stale,
                self.pending_task == old(self).pending_task,
            decreases rev@.len(),
        {
            let ghost done = all.len() - rev@.len();
            let s = rev.pop().unwrap();
            self.songs.push(Some(s));
            proof {
                assert(all.take(done + 1).map_values(|s: Song| Some(s)) =~= all.take(done).map_values(|s: Song| Some(s)).push(Some(s)));
                assert(self.songs@ =~= orig + all.take(all.len() - rev@.len()).map_values(|s: Song| Some(s)));
            }
        }
        assert(all.take(all.len() as int) =~= all);
    }

    /// Song row `index` of playlist `id` was removed: when it is the open
    /// playlist and the row exists, it goes.
    pub fn remove_at(&mut self, id: &String, index: usize)
        ensures
            (crate::text::opt_view(old(self).playlist_id) == Some(id@) && index < old(self).songs@.len())
                ==> final(self).songs@ == old(self).songs@.remove(index as int),
            !(crate::text::opt_view(old(self).playlist_id) == Some(id@) && index < old(self).songs@.len())
                ==> final(self).songs@ == old(self).songs@,
            final(self).playlist_id == old(self).playlist_id,
            final(self).focus == old(self).focus,
            final(self).stale == old(self).stale,
            final(self).pending_task == old(self).pending_task,
    {
        let open = match &self.playlist_id {
            Some(p) => crate::text::text_eq(p, id),
            None => false,
        };
        if open && index < self.songs.len() {
            self.songs.remove(index);
        }
    }

    /// No list transfer is outstanding.
    pub open spec fn spec_is_ready(self) -> bool {
        self.pending_task is None
    }

    pub fn is_ready(&self) -> (r: bool)
        ensures
            r == self.spec_is_ready(),
    {
        self.pending_task.is_none()
    }
}

} // verus!
