//! What the server has told us about itself, the replies waiting to be
//! consumed, optimistic playlist edits, peer activity and the queue.

use vstd::prelude::*;
use crate::proto::{Album, Artist, QueueDelta, QueueEntry, RepeatMode, Song, TaskId};
use crate::seqs::{first_index, lemma_index_facts, lemma_is_first_index, lemma_none_index};

verus! {

/// Playback as the server reports it.
pub struct PlayState {
    pub playing: bool,
    pub repeat: RepeatMode,
}

/// The server-state source.
pub struct ServerState {
    /// Music backend the server reports.
    pub backend: Option<String>,
    /// Backend the rest of the sources were built from.
    pub built_from: Option<String>,
    pub play: Option<PlayState>,
}

impl ServerState {
    pub open spec fn is_reset(self) -> bool {
        self.backend is None && self.built_from is None && self.play is None
    }

    pub fn new() -> (s: Self)
        ensures
            s.is_reset(),
    {
        ServerState { backend: None, built_from: None, play: None }
    }
}

/// A reply kept for a consumer to pick up.
pub enum ServerReply {
    Error { message: String },
    AlbumDetail { album_id: String, songs: Vec<Song> },
    ArtistDetail { artist_id: String, top_songs: Vec<Song>, top_albums: Vec<Album>, latest_albums: Vec<Album> },
    Other,
}

impl Album {
    pub fn duplicate(&self) -> (r: Album)
        ensures
            r == *self,
    {
        Album {
            id: self.id.clone(),
            name: self.name.clone(),
            artist_id: self.artist_id.clone(),
            artist_name: self.artist_name.clone(),
        }
    }
}

impl Artist {
    pub fn duplicate(&self) -> (r: Artist)
        ensures
            r == *self,
    {
        Artist { id: self.id.clone(), name: self.name.clone() }
    }
}

/// A copy of a list of albums.
pub fn copy_albums(v: &Vec<Album>) -> (r: Vec<Album>)
    ensures
        r@ == v@,
{
    let mut out: Vec<Album> = Vec::new();
    let mut i: usize = 0;
    while i < v.len()
        invariant
            i <= v@.len(),
            out@ == v@.take(i as int),
        decreases v@.len() - i,
    {
        out.push(v[i].duplicate());
        i = i + 1;
        assert(out@ =~= v@.take(i as int));
    }
    assert(v@.take(v@.len() as int) =~= v@);
    out
}

/// A copy of a list of artists.
pub fn copy_artists(v: &Vec<Artist>) -> (r: Vec<Artist>)
    ensures
        r@ == v@,
{
    let mut out: Vec<Artist> = Vec::new();
    let mut i: usize = 0;
    while i < v.len()
        invariant
            i <= v@.len(),
            out@ == v@.take(i as int),
        decreases v@.len() - i,
    {
        out.push(v[i].duplicate());
        i = i + 1;
        assert(out@ =~= v@.take(i as int));
    }
    assert(v@.take(v@.len() as int) =~= v@);
    out
}

/// What streamed in for one artist beyond its detail reply.
pub struct ArtistExtra {
    pub artist_id: String,
    pub similar: Vec<Artist>,
    pub paged_albums: Vec<Album>,
}

/// An extra's key: its artist id.
pub open spec fn extra_key() -> spec_fn(ArtistExtra) -> Seq<char> {
    |e: ArtistExtra| e.artist_id@
}

/// Similar artists and further album pages, per artist.
pub struct ArtistExtras {
    pub entries: Vec<ArtistExtra>,
}

impl ArtistExtras {
    pub fn new() -> (a: Self)
        ensures
            a.entries@.len() == 0,
    {
        ArtistExtras { entries: Vec::new() }
    }

    pub fn clear(&mut self)
        ensures
            final(self).entries@.len() == 0,
    {
        self.entries = Vec::new();
    }

    /// The extras recorded for `artist_id`.
    pub open spec fn extra_of(self, artist_id: Seq<char>) -> Option<ArtistExtra> {
        crate::seqs::lookup(self.entries@, extra_key(), artist_id)
    }

    /// The extras recorded for `artist_id`.
    pub fn get(&self, artist_id: &String) -> (r: Option<&ArtistExtra>)
        ensures
            match r {
                Some(e) => self.extra_of(artist_id@) == Some(*e),
                None => self.extra_of(artist_id@) is None,
            },
    {
        match self.find(artist_id) {
            Some(i) => Some(&self.entries[i]),
            None => None,
        }
    }

    fn find(&self, artist_id: &String) -> (r: Option<usize>)
        ensures
            r matches Some(i) ==> crate::seqs::first_index(self.entries@, crate::seqs::key_is(extra_key(), artist_id@))
                == Some(i as int) && (i as int) < self.entries@.len(),
            r is None ==> crate::seqs::first_index(self.entries@, crate::seqs::key_is(extra_key(), artist_id@)) is None,
    {
        let mut i: usize = 0;
        while i < self.entries.len()
            invariant
                i <= self.entries@.len(),
                forall|j: int| 0 <= j < i ==> !crate::seqs::key_is(extra_key(), artist_id@)(self.entries@[j]),
            decreases self.entries@.len() - i,
        {
            if crate::text::text_eq(&self.entries[i].artist_id, artist_id) {
                proof {
                    crate::seqs::lemma_is_first_index(self.entries@, crate::seqs::key_is(extra_key(), artist_id@), i as int);
                }
                return Some(i);
            }
            i = i + 1;
        }
        proof {
            crate::seqs::lemma_none_index(self.entries@, crate::seqs::key_is(extra_key(), artist_id@));
        }
        None
    }

    /// Record the similar artists of `artist_id`, replacing earlier ones.
    pub fn set_similar(&mut self, artist_id: String, artists: Vec<Artist>)
        ensures
            final(self).extra_of(artist_id@) matches Some(e) && e.similar@ == artists@ && e.paged_albums@ == (match old(self).extra_of(artist_id@) {
                Some(o) => o.paged_albums@,
                None => Seq::empty(),
            }),
            forall|o: Seq<char>| o != artist_id@ ==> final(self).extra_of(o) == old(self).extra_of(o),
    {
        let found = self.find(&artist_id);
        proof {
            crate::seqs::lemma_index_facts(self.entries@, crate::seqs::key_is(extra_key(), artist_id@));
        }
        let e = match found {
            Some(i) => ArtistExtra {
                artist_id: self.entries[i].artist_id.clone(),
                similar: artists,
                paged_albums: copy_albums(&self.entries[i].paged_albums),
            },
            None => ArtistExtra { artist_id, similar: artists, paged_albums: Vec::new() },
        };
        self.write(found, e);
    }

    /// A further page of albums of `artist_id` arrived: it is appended.
    pub fn append_albums(&mut self, artist_id: String, albums: Vec<Album>)
        ensures
            final(self).extra_of(artist_id@) matches Some(e) && e.paged_albums@ == (match old(self).extra_of(artist_id@) {
                Some(o) => o.paged_albums@,
                None => Seq::empty(),
            }) + albums@ && e.similar@ == (match old(self).extra_of(artist_id@) {
                Some(o) => o.similar@,
                None => Seq::empty(),
            }),
            forall|o: Seq<char>| o != artist_id@ ==> final(self).extra_of(o) == old(self).extra_of(o),
    {
        let found = self.find(&artist_id);
        proof {
            crate::seqs::lemma_index_facts(self.entries@, crate::seqs::key_is(extra_key(), artist_id@));
        }
        let mut albums = albums;
        let e = match found {
            Some(i) => {
                let mut paged = copy_albums(&self.entries[i].paged_albums);
                paged.append(&mut albums);
                ArtistExtra {
                    artist_id: self.entries[i].artist_id.clone(),
                    similar: copy_artists(&self.entries[i].similar),
                    paged_albums: paged,
                }
            },
            None => ArtistExtra { artist_id, similar: Vec::new(), paged_albums: albums },
        };
        self.write(found, e);
    }

    fn write(&mut self, found: Option<usize>, e: ArtistExtra)
        requires
            found matches Some(k) ==> crate::seqs::first_index(old(self).entries@, crate::seqs::key_is(extra_key(), e.artist_id@))
                == Some(k as int) && (k as int) < old(self).entries@.len(),
            found is None ==> crate::seqs::first_index(old(self).entries@, crate::seqs::key_is(extra_key(), e.artist_id@)) is None,
        ensures
            final(self).extra_of(e.artist_id@) == Some(e),
            forall|o: Seq<char>| o != e.artist_id@ ==> final(self).extra_of(o) == old(self).extra_of(o),
    {
        let ghost g = e;
        match found {
            Some(i) => self.entries.set(i, e),
            None => self.entries.push(e),
        }
        proof {
            crate::seqs::lemma_keyed_write(old(self).entries@, self.entries@, extra_key(), g);
        }
    }
}

/// One reply, keyed by the seq of its request.
pub struct ResponseEntry {
    pub seq: u64,
    pub reply: ServerReply,
}

/// A reply's key: the seq it answers.
pub open spec fn reply_seq() -> spec_fn(ResponseEntry) -> u64 {
    |e: ResponseEntry| e.seq
}

/// Position of the first reply filed under `seq`.
pub fn find_seq(replies: &Vec<ResponseEntry>, seq: u64) -> (r: Option<usize>)
    ensures
        r matches Some(i) ==> crate::seqs::first_index(replies@, crate::seqs::key_is(reply_seq(), seq)) == Some(i as int)
            && (i as int) < replies@.len(),
        r is None ==> crate::seqs::first_index(replies@, crate::seqs::key_is(reply_seq(), seq)) is None,
{
    let mut i: usize = 0;
    while i < replies.len()
        invariant
            i <= replies@.len(),
            forall|j: int| 0 <= j < i ==> !crate::seqs::key_is(reply_seq(), seq)(replies@[j]),
        decreases replies@.len() - i,
    {
        if replies[i].seq == seq {
            proof {
                crate::seqs::lemma_is_first_index(replies@, crate::seqs::key_is(reply_seq(), seq), i as int);
            }
            return Some(i);
        }
        i = i + 1;
    }
    proof {
        crate::seqs::lemma_none_index(replies@, crate::seqs::key_is(reply_seq(), seq));
    }
    None
}

/// The responses source.
pub struct Responses {
    pub by_seq: Vec<ResponseEntry>,
}

impl Responses {
    pub fn new() -> (r: Self)
        ensures
            r.by_seq@.len() == 0,
    {
        Responses { by_seq: Vec::new() }
    }

    pub fn clear(&mut self)
        ensures
            final(self).by_seq@.len() == 0,
    {
        self.by_seq.clear();
    }

    /// File `reply` under `seq`, replacing a reply already filed there.
    pub fn insert(&mut self, seq: u64, reply: ServerReply)
        ensures
            crate::seqs::lookup(final(self).by_seq@, reply_seq(), seq) == Some(ResponseEntry { seq, reply }),
            forall|o: u64| o != seq ==> crate::seqs::lookup(final(self).by_seq@, reply_seq(), o)
                == crate::seqs::lookup(old(self).by_seq@, reply_seq(), o),
    {
        let e = ResponseEntry { seq, reply };
        let ghost g = e;
        let found = find_seq(&self.by_seq, seq);
        match found {
            Some(k) => {
                self.by_seq.set(k, e);
            },
            None => {
                self.by_seq.push(e);
            },
        }
        proof {
            crate::seqs::lemma_keyed_write(old(self).by_seq@, self.by_seq@, reply_seq(), g);
        }
    }

    /// Remove the first reply filed under `seq`.
    pub fn take(&mut self, seq: u64)
        ensures
            (exists|i: int| 0 <= i < old(self).by_seq@.len() && old(self).by_seq@[i].seq == seq) ==> exists|i: int|
                0 <= i < old(self).by_seq@.len() && old(self).by_seq@[i].seq == seq && (forall|j: int|
                    0 <= j < i ==> old(self).by_seq@[j].seq != seq) && final(self).by_seq@ == old(self).by_seq@.remove(i),
            !(exists|i: int| 0 <= i < old(self).by_seq@.len() && old(self).by_seq@[i].seq == seq) ==> final(self).by_seq@
                == old(self).by_seq@,
    {
        let mut i: usize = 0;
        while i < self.by_seq.len()
            invariant
                i <= self.by_seq@.len(),
                self.by_seq@ == old(self).by_seq@,
                forall|j: int| 0 <= j < i ==> self.by_seq@[j].seq != seq,
            decreases self.by_seq@.len() - i,
        {
            if self.by_seq[i].seq == seq {
                self.by_seq.remove(i);
                return;
            }
            i = i + 1;
        }
    }
}

/// One optimistic playlist edit awaiting the server's confirmation.
pub struct PendingOp {
    /// Seq of the request that makes the edit.
    pub seq: u64,
    pub playlist_id: String,
    /// The new name (create, rename) or the song id (remove); empty
    /// otherwise.
    pub detail: String,
}

impl PendingOp {
    pub fn duplicate(&self) -> (r: PendingOp)
        ensures
            r == *self,
    {
        PendingOp { seq: self.seq, playlist_id: self.playlist_id.clone(), detail: self.detail.clone() }
    }
}

/// The edit was issued under a seq other than `seq`.
pub open spec fn op_not_seq(seq: u64) -> spec_fn(PendingOp) -> bool {
    |o: PendingOp| o.seq != seq
}

/// The edit targets a playlist other than `id`.
pub open spec fn op_not_for(id: Seq<char>) -> spec_fn(PendingOp) -> bool {
    |o: PendingOp| o.playlist_id@ != id
}

/// The edit targets playlist `id`.
pub open spec fn op_for(id: Seq<char>) -> spec_fn(PendingOp) -> bool {
    |o: PendingOp| o.playlist_id@ == id
}

/// The edit removes song `song` from playlist `id`.
pub open spec fn op_song(id: Seq<char>, song: Seq<char>) -> spec_fn(PendingOp) -> bool {
    |o: PendingOp| o.playlist_id@ == id && o.detail@ == song
}

/// `s` without its first element satisfying `p`, if any.
pub open spec fn without_first<T>(s: Seq<T>, p: spec_fn(T) -> bool) -> Seq<T> {
    match crate::seqs::first_index(s, p) {
        Some(i) => s.remove(i),
        None => s,
    }
}

/// Keep the edits not issued under `seq`, in order.
pub fn drop_ops_with_seq(ops: &mut Vec<PendingOp>, seq: u64)
    ensures
        final(ops)@ == old(ops)@.filter(op_not_seq(seq)),
{
    let ghost orig = ops@;
    let mut kept: Vec<PendingOp> = Vec::new();
    let mut i: usize = 0;
    while i < ops.len()
        invariant
            i <= ops@.len(),
            ops@ == orig,
            kept@ == orig.take(i as int).filter(op_not_seq(seq)),
        decreases ops@.len() - i,
    {
        proof {
            assert(orig.take(i + 1).drop_last() =~= orig.take(i as int));
            reveal(Seq::filter);
        }
        if ops[i].seq != seq {
            kept.push(ops[i].duplicate());
        }
        i = i + 1;
    }
    proof {
        assert(orig.take(orig.len() as int) =~= orig);
    }
    *ops = kept;
}

/// Keep the edits that target a playlist other than `id`, in order.
pub fn drop_ops_for(ops: &mut Vec<PendingOp>, id: &String)
    ensures
        final(ops)@ == old(ops)@.filter(op_not_for(id@)),
{
    let ghost orig = ops@;
    let mut kept: Vec<PendingOp> = Vec::new();
    let mut i: usize = 0;
    while i < ops.len()
        invariant
            i <= ops@.len(),
            ops@ == orig,
            kept@ == orig.take(i as int).filter(op_not_for(id@)),
        decreases ops@.len() - i,
    {
        proof {
            assert(orig.take(i + 1).drop_last() =~= orig.take(i as int));
            reveal(Seq::filter);
        }
        if !crate::text::text_eq(&ops[i].playlist_id, id) {
            kept.push(ops[i].duplicate());
        }
        i = i + 1;
    }
    proof {
        assert(orig.take(orig.len() as int) =~= orig);
    }
    *ops = kept;
}

/// Remove the first element at `i` found by a search.
fn remove_found<T>(v: &mut Vec<T>, found: Option<usize>, Ghost(p): Ghost<spec_fn(T) -> bool>)
    requires
        found matches Some(i) ==> crate::seqs::first_index(old(v)@, p) == Some(i as int) && (i as int) < old(v)@.len(),
        found is None ==> crate::seqs::first_index(old(v)@, p) is None,
    ensures
        final(v)@ == without_first(old(v)@, p),
{
    if let Some(i) = found {
        v.remove(i);
    }
}

/// Position of the first edit for playlist `id`.
fn find_op_for(ops: &Vec<PendingOp>, id: &String) -> (r: Option<usize>)
    ensures
        r matches Some(i) ==> crate::seqs::first_index(ops@, op_for(id@)) == Some(i as int) && (i as int) < ops@.len(),
        r is None ==> crate::seqs::first_index(ops@, op_for(id@)) is None,
{
    let mut i: usize = 0;
    while i < ops.len()
        invariant
            i <= ops@.len(),
            forall|j: int| 0 <= j < i ==> !op_for(id@)(ops@[j]),
        decreases ops@.len() - i,
    {
        if crate::text::text_eq(&ops[i].playlist_id, id) {
            proof {
                crate::seqs::lemma_is_first_index(ops@, op_for(id@), i as int);
            }
            return Some(i);
        }
        i = i + 1;
    }
    proof {
        crate::seqs::lemma_none_index(ops@, op_for(id@));
    }
    None
}

/// Position of the first removal of `song` from playlist `id`.
fn find_op_song(ops: &Vec<PendingOp>, id: &String, song: &String) -> (r: Option<usize>)
    ensures
        r matches Some(i) ==> crate::seqs::first_index(ops@, op_song(id@, song@)) == Some(i as int) && (i as int) < ops@.len(),
        r is None ==> crate::seqs::first_index(ops@, op_song(id@, song@)) is None,
{
    let mut i: usize = 0;
    while i < ops.len()
        invariant
            i <= ops@.len(),
            forall|j: int| 0 <= j < i ==> !op_song(id@, song@)(ops@[j]),
        decreases ops@.len() - i,
    {
        if crate::text::text_eq(&ops[i].playlist_id, id) && crate::text::text_eq(&ops[i].detail, song) {
            proof {
                crate::seqs::lemma_is_first_index(ops@, op_song(id@, song@), i as int);
            }
            return Some(i);
        }
        i = i + 1;
    }
    proof {
        crate::seqs::lemma_none_index(ops@, op_song(id@, song@));
    }
    None
}

/// Optimistic playlist edits in flight.
pub struct PendingPlaylists {
    pub creating: Vec<PendingOp>,
    pub deleting: Vec<PendingOp>,
    pub renaming: Vec<PendingOp>,
    pub adding: Vec<PendingOp>,
    pub removing: Vec<PendingOp>,
}

impl PendingPlaylists {
    pub open spec fn is_reset(self) -> bool {
        &&& self.creating@.len() == 0
        &&& self.deleting@.len() == 0
        &&& self.renaming@.len() == 0
        &&& self.adding@.len() == 0
        &&& self.removing@.len() == 0
    }

    pub fn new() -> (p: Self)
        ensures
            p.is_reset(),
    {
        PendingPlaylists {
            creating: Vec::new(),
            deleting: Vec::new(),
            renaming: Vec::new(),
            adding: Vec::new(),
            removing: Vec::new(),
        }
    }

    pub fn clear(&mut self)
        ensures
            final(self).is_reset(),
    {
        self.creating.clear();
        self.deleting.clear();
        self.renaming.clear();
        self.adding.clear();
        self.removing.clear();
    }

    /// Record an add to `playlist_id` issued under `seq`.
    pub fn add_adding(&mut self, seq: u64, playlist_id: String)
        ensures
            final(self).adding@.len() == old(self).adding@.len() + 1,
            final(self).adding@.last().seq == seq,
            final(self).adding@.last().playlist_id@ == playlist_id@,
            final(self).adding@.drop_last() == old(self).adding@,
            final(self).creating == old(self).creating,
            final(self).deleting == old(self).deleting,
            final(self).renaming == old(self).renaming,
            final(self).removing == old(self).removing,
    {
        self.adding.push(PendingOp { seq, playlist_id, detail: String::new() });
        assert(self.adding@.drop_last() =~= old(self).adding@);
    }

    /// Record the creation of a playlist named `name` issued under `seq`.
    pub fn add_creating(&mut self, seq: u64, name: String)
        ensures
            final(self).creating@ == old(self).creating@.push(final(self).creating@.last()),
            final(self).creating@.last().seq == seq,
            final(self).creating@.last().playlist_id@.len() == 0,
            final(self).creating@.last().detail@ == name@,
            final(self).deleting == old(self).deleting,
            final(self).renaming == old(self).renaming,
            final(self).adding == old(self).adding,
            final(self).removing == old(self).removing,
    {
        self.creating.push(PendingOp { seq, playlist_id: String::new(), detail: name });
    }

    /// Record the rename of playlist `id` to `name` issued under `seq`.
    pub fn add_renaming(&mut self, seq: u64, id: String, name: String)
        ensures
            final(self).renaming@ == old(self).renaming@.push(PendingOp { seq, playlist_id: id, detail: name }),
            final(self).creating == old(self).creating,
            final(self).deleting == old(self).deleting,
            final(self).adding == old(self).adding,
            final(self).removing == old(self).removing,
    {
        self.renaming.push(PendingOp { seq, playlist_id: id, detail: name });
    }

    /// Record the delete of playlist `id` issued under `seq`.
    pub fn add_deleting(&mut self, seq: u64, id: String)
        ensures
            final(self).deleting@ == old(self).deleting@.push(final(self).deleting@.last()),
            final(self).deleting@.last().seq == seq,
            final(self).deleting@.last().playlist_id == id,
            final(self).deleting@.last().detail@.len() == 0,
            final(self).creating == old(self).creating,
            final(self).renaming == old(self).renaming,
            final(self).adding == old(self).adding,
            final(self).removing == old(self).removing,
    {
        self.deleting.push(PendingOp { seq, playlist_id: id, detail: String::new() });
    }

    /// Record the removal of `song_ids` from playlist `pid` issued under
    /// `seq`: one pending removal per song, in order.
    pub fn add_removing(&mut self, seq: u64, pid: String, song_ids: Vec<String>)
        ensures
            final(self).removing@.len() == old(self).removing@.len() + song_ids@.len(),
            final(self).removing@.take(old(self).removing@.len() as int) == old(self).removing@,
            forall|k: int| 0 <= k < song_ids@.len() ==> #[trigger] final(self).removing@[old(self).removing@.len() + k]
                == (PendingOp { seq, playlist_id: pid, detail: song_ids@[k] }),
            final(self).creating == old(self).creating,
            final(self).deleting == old(self).deleting,
            final(self).renaming == old(self).renaming,
            final(self).adding == old(self).adding,
    {
        let ghost base = self.removing@;
        let mut i: usize = 0;
        while i < song_ids.len()
            invariant
                i <= song_ids@.len(),
                self.removing@.len() == base.len() + i,
                self.removing@.take(base.len() as int) == base,
                forall|k: int| 0 <= k < i ==> #[trigger] self.removing@[base.len() + k]
                    == (PendingOp { seq, playlist_id: pid, detail: song_ids@[k] }),
                self.creating == old(self).creating,
                self.deleting == old(self).deleting,
                self.renaming == old(self).renaming,
                self.adding == old(self).adding,
            decreases song_ids@.len() - i,
        {
            let ghost prev = self.removing@;
            self.removing.push(PendingOp { seq, playlist_id: pid.clone(), detail: song_ids[i].clone() });
            assert(self.removing@.take(base.len() as int) =~= prev.take(base.len() as int));
            i = i + 1;
        }
    }

    /// The server answered `seq` with an error: every edit issued under
    /// it is rolled back.
    pub fn drop_seq(&mut self, seq: u64)
        ensures
            final(self).creating@ == old(self).creating@.filter(op_not_seq(seq)),
            final(self).deleting@ == old(self).deleting@.filter(op_not_seq(seq)),
            final(self).renaming@ == old(self).renaming@.filter(op_not_seq(seq)),
            final(self).adding@ == old(self).adding@.filter(op_not_seq(seq)),
            final(self).removing@ == old(self).removing@.filter(op_not_seq(seq)),
    {
        drop_ops_with_seq(&mut self.creating, seq);
        drop_ops_with_seq(&mut self.deleting, seq);
        drop_ops_with_seq(&mut self.renaming, seq);
        drop_ops_with_seq(&mut self.adding, seq);
        drop_ops_with_seq(&mut self.removing, seq);
    }

    /// The create issued under `seq` was confirmed.
    pub fn drop_creating_seq(&mut self, seq: u64)
        ensures
            final(self).creating@ == old(self).creating@.filter(op_not_seq(seq)),
            final(self).deleting@ == old(self).deleting@,
            final(self).renaming@ == old(self).renaming@,
            final(self).adding@ == old(self).adding@,
            final(self).removing@ == old(self).removing@,
    {
        drop_ops_with_seq(&mut self.creating, seq);
    }

    /// Deleting playlist `id` was confirmed.
    pub fn drop_deleting_for(&mut self, id: &String)
        ensures
            final(self).deleting@ == old(self).deleting@.filter(op_not_for(id@)),
            final(self).creating@ == old(self).creating@,
            final(self).renaming@ == old(self).renaming@,
            final(self).adding@ == old(self).adding@,
            final(self).removing@ == old(self).removing@,
    {
        drop_ops_for(&mut self.deleting, id);
    }

    /// Renaming playlist `id` was confirmed.
    pub fn drop_renaming_for(&mut self, id: &String)
        ensures
            final(self).renaming@ == old(self).renaming@.filter(op_not_for(id@)),
            final(self).creating@ == old(self).creating@,
            final(self).deleting@ == old(self).deleting@,
            final(self).adding@ == old(self).adding@,
            final(self).removing@ == old(self).removing@,
    {
        drop_ops_for(&mut self.renaming, id);
    }

    /// The oldest add to playlist `id` was confirmed: adds are
    /// processed in order, so it is the first one queued for it.
    pub fn drop_oldest_adding_for(&mut self, id: &String)
        ensures
            final(self).adding@ == without_first(old(self).adding@, op_for(id@)),
            final(self).creating@ == old(self).creating@,
            final(self).deleting@ == old(self).deleting@,
            final(self).renaming@ == old(self).renaming@,
            final(self).removing@ == old(self).removing@,
    {
        let found = find_op_for(&self.adding, id);
        remove_found(&mut self.adding, found, Ghost(op_for(id@)));
    }

    /// The removal of `song` from playlist `id` was confirmed.
    pub fn drop_removing_song(&mut self, id: &String, song: &String)
        ensures
            final(self).removing@ == without_first(old(self).removing@, op_song(id@, song@)),
            final(self).creating@ == old(self).creating@,
            final(self).deleting@ == old(self).deleting@,
            final(self).renaming@ == old(self).renaming@,
            final(self).adding@ == old(self).adding@,
    {
        let found = find_op_song(&self.removing, id, song);
        remove_found(&mut self.removing, found, Ghost(op_song(id@, song@)));
    }

    /// Some edit still animates a spinner (create, rename, add).
    pub fn has_spinning(&self) -> (r: bool)
        ensures
            r == (self.creating@.len() > 0 || self.renaming@.len() > 0 || self.adding@.len() > 0),
    {
        self.creating.len() > 0 || self.renaming.len() > 0 || self.adding.len() > 0
    }
}

/// A task a peer started: who started it, what it does, and the
/// instant it started.
pub struct ActivityTask {
    pub task_id: TaskId,
    pub peer: String,
    pub activity: String,
    pub started_at: u64,
}

impl ActivityTask {
    pub fn duplicate(&self) -> (r: ActivityTask)
        ensures
            r == *self,
    {
        ActivityTask {
            task_id: self.task_id,
            peer: self.peer.clone(),
            activity: self.activity.clone(),
            started_at: self.started_at,
        }
    }
}

/// How long a peer task may stay unacknowledged before it is dropped
/// from the status bar, in milliseconds.
pub const STALE_TASK_TTL_MS: u64 = 30_000;

/// A task is still live at `now` while `started_at + ttl` lies ahead.
pub open spec fn task_live(now: u64, ttl: u64) -> spec_fn(ActivityTask) -> bool {
    |t: ActivityTask| crate::state::link::sat_add(t.started_at, ttl) > now
}

/// Activity of peers, shown in the status bar until completed or stale.
pub struct Activity {
    pub tasks: Vec<ActivityTask>,
}

impl Activity {
    pub fn new() -> (a: Self)
        ensures
            a.tasks@.len() == 0,
    {
        Activity { tasks: Vec::new() }
    }

    pub fn clear(&mut self)
        ensures
            final(self).tasks@.len() == 0,
    {
        self.tasks.clear();
    }

    /// Drop every task that has gone stale by `now`, keeping the rest
    /// in order.
    pub fn reap_stale(&mut self, now: u64, ttl: u64)
        ensures
            final(self).tasks@ == old(self).tasks@.filter(task_live(now, ttl)),
    {
        let ghost orig = self.tasks@;
        let mut kept: Vec<ActivityTask> = Vec::new();
        let mut i: usize = 0;
        while i < self.tasks.len()
            invariant
                i <= self.tasks@.len(),
                self.tasks@ == orig,
                kept@ == orig.take(i as int).filter(task_live(now, ttl)),
            decreases self.tasks@.len() - i,
        {
            let t = self.tasks[i].duplicate();
            proof {
                assert(orig.take(i + 1).drop_last() =~= orig.take(i as int));
                assert(orig.take(i + 1).last() == t);
                reveal(Seq::filter);
            }
            if t.started_at.saturating_add(ttl) > now {
                kept.push(t);
            }
            i = i + 1;
        }
        proof {
            assert(orig.take(orig.len() as int) =~= orig);
        }
        self.tasks = kept;
    }

    /// Earliest instant at which some task turns stale.
    pub open spec fn spec_next_reap_at(tasks: Seq<ActivityTask>, ttl: u64) -> Option<u64>
        decreases tasks.len(),
    {
        if tasks.len() == 0 {
            None
        } else {
            let at = crate::state::link::sat_add(tasks.last().started_at, ttl);
            match Self::spec_next_reap_at(tasks.drop_last(), ttl) {
                None => Some(at),
                Some(m) => Some(if m <= at { m } else { at }),
            }
        }
    }

    pub fn next_reap_at(&self, ttl: u64) -> (r: Option<u64>)
        ensures
            r == Self::spec_next_reap_at(self.tasks@, ttl),
    {
        let mut best: Option<u64> = None;
        let mut i: usize = 0;
        while i < self.tasks.len()
            invariant
                i <= self.tasks@.len(),
                best == Self::spec_next_reap_at(self.tasks@.take(i as int), ttl),
            decreases self.tasks@.len() - i,
        {
            let at = self.tasks[i].started_at.saturating_add(ttl);
            proof {
                assert(self.tasks@.take(i + 1).drop_last() =~= self.tasks@.take(i as int));
            }
            best = match best {
                None => Some(at),
                Some(m) => Some(if m <= at { m } else { at }),
            };
            i = i + 1;
        }
        proof {
            assert(self.tasks@.take(self.tasks@.len() as int) =~= self.tasks@);
        }
        best
    }
}

/// The play queue: which server queue it mirrors, its version, the
/// announced length, the playing row and the rows received so far.
pub struct Queue {
    pub queue_id: Option<u64>,
    pub version: u64,
    pub expected_total: Option<usize>,
    pub current_index: Option<usize>,
    pub items: Vec<Song>,
    /// Server-assigned entry id of each row, by position.
    pub entry_ids: Vec<u64>,
}

impl Queue {
    pub open spec fn is_reset(self) -> bool {
        &&& self.queue_id is None
        &&& self.version == 0
        &&& self.expected_total is None
        &&& self.current_index is None
        &&& self.items@.len() == 0
        &&& self.entry_ids@.len() == 0
    }

    pub fn new() -> (q: Self)
        ensures
            q.is_reset(),
    {
        Queue {
            queue_id: None,
            version: 0,
            expected_total: None,
            current_index: None,
            items: Vec::new(),
            entry_ids: Vec::new(),
        }
    }

    /// Start mirroring server queue `queue_id` from scratch.
    pub fn reset(&mut self, queue_id: u64)
        ensures
            final(self).queue_id == Some(queue_id),
            final(self).version == 0,
            final(self).expected_total is None,
            final(self).current_index is None,
            final(self).items@.len() == 0,
            final(self).entry_ids@.len() == 0,
    {
        *self = Queue {
            queue_id: Some(queue_id),
            version: 0,
            expected_total: None,
            current_index: None,
            items: Vec::new(),
            entry_ids: Vec::new(),
        };
    }
}

/// The songs of `es`, in order.
pub open spec fn entry_songs(es: Seq<QueueEntry>) -> Seq<Song> {
    es.map_values(|e: QueueEntry| e.song)
}

/// The entry ids of `es`, in order.
pub open spec fn entry_ids_of(es: Seq<QueueEntry>) -> Seq<u64> {
    es.map_values(|e: QueueEntry| e.entry_id)
}

/// `ins` put into `s` before position `at`, or at the end when `at`
/// lies past it.
pub open spec fn spliced<T>(s: Seq<T>, at: int, ins: Seq<T>) -> Seq<T> {
    let k = if at < s.len() { at } else { s.len() as int };
    s.take(k) + ins + s.skip(k)
}

/// The first `n` elements of `s`, or all of `s` when it is shorter.
pub open spec fn prefix<T>(s: Seq<T>, n: int) -> Seq<T> {
    if n < s.len() { s.take(n) } else { s }
}

/// The queue as values: which server queue, its version, the announced
/// length, the playing row, and the rows with their entry ids.
pub struct QueueModel {
    pub queue_id: Option<u64>,
    pub version: u64,
    pub expected_total: Option<usize>,
    pub current_index: Option<usize>,
    pub items: Seq<Song>,
    pub ids: Seq<u64>,
}

impl Queue {
    pub open spec fn model(self) -> QueueModel {
        QueueModel {
            queue_id: self.queue_id,
            version: self.version,
            expected_total: self.expected_total,
            current_index: self.current_index,
            items: self.items@,
            ids: self.entry_ids@,
        }
    }
}

/// Whether an entry id is `id`.
pub open spec fn id_is(id: u64) -> spec_fn(u64) -> bool {
    |x: u64| x == id
}

/// The queue after one delta.
pub open spec fn delta_model(q: QueueModel, d: QueueDelta) -> QueueModel {
    match d {
        QueueDelta::Insert { index, entries } => QueueModel {
            items: spliced(q.items, index as int, entry_songs(entries@)),
            ids: spliced(q.ids, index as int, entry_ids_of(entries@)),
            ..q
        },
        QueueDelta::Remove { entry_id } => match first_index(q.ids, id_is(entry_id)) {
            Some(p) => QueueModel {
                ids: q.ids.remove(p),
                items: if p < q.items.len() { q.items.remove(p) } else { q.items },
                ..q
            },
            None => q,
        },
        QueueDelta::SetCurrent { index } => QueueModel { current_index: index, ..q },
        QueueDelta::Clear => QueueModel { items: Seq::empty(), ids: Seq::empty(), current_index: None, ..q },
    }
}

/// Versioned deltas applied in the order given, each first stamping
/// its version.
pub open spec fn replayed(q: QueueModel, ds: Seq<(u64, QueueDelta)>) -> QueueModel
    decreases ds.len(),
{
    if ds.len() == 0 {
        q
    } else {
        let r = replayed(q, ds.drop_last());
        delta_model(QueueModel { version: ds.last().0, ..r }, ds.last().1)
    }
}

/// A frame about queue `queue_id` starts the mirror over unless that
/// is the queue already mirrored.
pub open spec fn for_queue(q: QueueModel, queue_id: u64) -> QueueModel {
    if q.queue_id == Some(queue_id) {
        q
    } else {
        QueueModel {
            queue_id: Some(queue_id),
            version: 0,
            expected_total: None,
            current_index: None,
            items: Seq::empty(),
            ids: Seq::empty(),
        }
    }
}

/// Appends `src[from..to]` to `dst`.
fn copy_songs(src: &Vec<Song>, from: usize, to: usize, dst: &mut Vec<Song>)
    requires
        from <= to <= src@.len(),
    ensures
        final(dst)@ == old(dst)@ + src@.subrange(from as int, to as int),
{
    let mut i = from;
    while i < to
        invariant
            from <= i <= to <= src@.len(),
            dst@ == old(dst)@ + src@.subrange(from as int, i as int),
        decreases to - i,
    {
        dst.push(src[i].duplicate());
        assert(src@.subrange(from as int, i + 1) =~= src@.subrange(from as int, i as int).push(src@[i as int]));
        i = i + 1;
    }
}

/// Appends `src[from..to]` to `dst`.
fn copy_ids(src: &Vec<u64>, from: usize, to: usize, dst: &mut Vec<u64>)
    requires
        from <= to <= src@.len(),
    ensures
        final(dst)@ == old(dst)@ + src@.subrange(from as int, to as int),
{
    let mut i = from;
    while i < to
        invariant
            from <= i <= to <= src@.len(),
            dst@ == old(dst)@ + src@.subrange(from as int, i as int),
        decreases to - i,
    {
        dst.push(src[i]);
        assert(src@.subrange(from as int, i + 1) =~= src@.subrange(from as int, i as int).push(src@[i as int]));
        i = i + 1;
    }
}

/// Appends the songs of `es` to `dst`.
fn push_entry_songs(es: &Vec<QueueEntry>, dst: &mut Vec<Song>)
    ensures
        final(dst)@ == old(dst)@ + entry_songs(es@),
{
    let mut i: usize = 0;
    while i < es.len()
        invariant
            i <= es@.len(),
            dst@ == old(dst)@ + entry_songs(es@.take(i as int)),
        decreases es@.len() - i,
    {
        dst.push(es[i].song.duplicate());
        assert(entry_songs(es@.take(i + 1)) =~= entry_songs(es@.take(i as int)).push(es@[i as int].song));
        i = i + 1;
    }
    assert(es@.take(es@.len() as int) =~= es@);
}

/// Appends the entry ids of `es` to `dst`.
fn push_entry_ids(es: &Vec<QueueEntry>, dst: &mut Vec<u64>)
    ensures
        final(dst)@ == old(dst)@ + entry_ids_of(es@),
{
    let mut i: usize = 0;
    while i < es.len()
        invariant
            i <= es@.len(),
            dst@ == old(dst)@ + entry_ids_of(es@.take(i as int)),
        decreases es@.len() - i,
    {
        dst.push(es[i].entry_id);
        assert(entry_ids_of(es@.take(i + 1)) =~= entry_ids_of(es@.take(i as int)).push(es@[i as int].entry_id));
        i = i + 1;
    }
    assert(es@.take(es@.len() as int) =~= es@);
}

/// Position of the first row with entry id `id`.
fn find_entry(ids: &Vec<u64>, id: u64) -> (r: Option<usize>)
    ensures
        r matches Some(p) ==> first_index(ids@, id_is(id)) == Some(p as int) && (p as int) < ids@.len(),
        r is None ==> first_index(ids@, id_is(id)) is None,
{
    let mut i: usize = 0;
    while i < ids.len()
        invariant
            i <= ids@.len(),
            forall|j: int| 0 <= j < i ==> !id_is(id)(ids@[j]),
        decreases ids@.len() - i,
    {
        if ids[i] == id {
            proof {
                lemma_is_first_index(ids@, id_is(id), i as int);
            }
            return Some(i);
        }
        i = i + 1;
    }
    proof {
        lemma_none_index(ids@, id_is(id));
    }
    None
}

impl Queue {
    /// Mirror queue `queue_id`, starting over unless it is the one
    /// already mirrored.
    pub fn follow(&mut self, queue_id: u64)
        ensures
            final(self).model() == for_queue(old(self).model(), queue_id),
    {
        let same = match self.queue_id {
            Some(q) => q == queue_id,
            None => false,
        };
        if !same {
            self.reset(queue_id);
            assert(self.items@ =~= Seq::<Song>::empty());
            assert(self.entry_ids@ =~= Seq::<u64>::empty());
        }
    }

    /// Rows from `offset` on become `entries`.
    pub fn chunk(&mut self, offset: usize, entries: &Vec<QueueEntry>)
        requires
            offset <= old(self).items@.len(),
        ensures
            final(self).model() == (QueueModel {
                items: old(self).items@.take(offset as int) + entry_songs(entries@),
                ids: prefix(old(self).entry_ids@, offset as int) + entry_ids_of(entries@),
                ..old(self).model()
            }),
    {
        self.items.truncate(offset);
        self.entry_ids.truncate(offset);
        push_entry_songs(entries, &mut self.items);
        push_entry_ids(entries, &mut self.entry_ids);
        proof {
            assert(self.items@ =~= old(self).items@.take(offset as int) + entry_songs(entries@));
            assert(self.entry_ids@ =~= prefix(old(self).entry_ids@, offset as int) + entry_ids_of(entries@));
        }
    }

    /// Apply one change announced by the server.
    pub fn apply(&mut self, d: &QueueDelta)
        ensures
            final(self).model() == delta_model(old(self).model(), *d),
    {
        match d {
            QueueDelta::Insert { index, entries } => {
                let n = self.items.len();
                let k = if *index < n { *index } else { n };
                let mut items: Vec<Song> = Vec::new();
                copy_songs(&self.items, 0, k, &mut items);
                push_entry_songs(entries, &mut items);
                copy_songs(&self.items, k, n, &mut items);
                let m = self.entry_ids.len();
                let j = if *index < m { *index } else { m };
                let mut ids: Vec<u64> = Vec::new();
                copy_ids(&self.entry_ids, 0, j, &mut ids);
                push_entry_ids(entries, &mut ids);
                copy_ids(&self.entry_ids, j, m, &mut ids);
                proof {
                    assert(items@ =~= spliced(self.items@, *index as int, entry_songs(entries@)));
                    assert(ids@ =~= spliced(self.entry_ids@, *index as int, entry_ids_of(entries@)));
                }
                self.items = items;
                self.entry_ids = ids;
            },
            QueueDelta::Remove { entry_id } => {
                match find_entry(&self.entry_ids, *entry_id) {
                    Some(p) => {
                        self.entry_ids.remove(p);
                        if p < self.items.len() {
                            self.items.remove(p);
                        }
                    },
                    None => {},
                }
            },
            QueueDelta::SetCurrent { index } => {
                self.current_index = *index;
            },
            QueueDelta::Clear => {
                self.items = Vec::new();
                self.entry_ids = Vec::new();
                self.current_index = None;
            },
        }
    }

    /// Apply the versioned changes in the order given, each stamping
    /// its version first.
    pub fn catch_up(&mut self, deltas: &Vec<(u64, QueueDelta)>)
        ensures
            final(self).model() == replayed(old(self).model(), deltas@),
    {
        let ghost start = self.model();
        let mut i: usize = 0;
        while i < deltas.len()
            invariant
                i <= deltas@.len(),
                self.model() == replayed(start, deltas@.take(i as int)),
            decreases deltas@.len() - i,
        {
            proof {
                assert(deltas@.take(i + 1).drop_last() =~= deltas@.take(i as int));
            }
            self.version = deltas[i].0;
            self.apply(&deltas[i].1);
            i = i + 1;
        }
        proof {
            assert(deltas@.take(deltas@.len() as int) =~= deltas@);
        }
    }
}

/// A task other than `tid`.
pub open spec fn task_not(tid: TaskId) -> spec_fn(ActivityTask) -> bool {
    |t: ActivityTask| t.task_id != tid
}

impl Activity {
    /// Peer `peer` started task `tid` doing `activity` at `now`; a task
    /// already shown under that id is restarted.
    pub fn started(&mut self, tid: TaskId, peer: String, activity: String, now: u64)
        ensures
            final(self).tasks@ == old(self).tasks@.filter(task_not(tid)).push(
                ActivityTask { task_id: tid, peer, activity, started_at: now },
            ),
    {
        self.completed(tid);
        self.tasks.push(ActivityTask { task_id: tid, peer, activity, started_at: now });
    }

    /// Task `tid` finished: it leaves the status bar.
    pub fn completed(&mut self, tid: TaskId)
        ensures
            final(self).tasks@ == old(self).tasks@.filter(task_not(tid)),
    {
        let ghost orig = self.tasks@;
        let mut kept: Vec<ActivityTask> = Vec::new();
        let mut i: usize = 0;
        while i < self.tasks.len()
            invariant
                i <= self.tasks@.len(),
                self.tasks@ == orig,
                kept@ == orig.take(i as int).filter(task_not(tid)),
            decreases self.tasks@.len() - i,
        {
            let t = self.tasks[i].duplicate();
            proof {
                assert(orig.take(i + 1).drop_last() =~= orig.take(i as int));
                assert(orig.take(i + 1).last() == t);
                reveal(Seq::filter);
            }
            if t.task_id != tid {
                kept.push(t);
            }
            i = i + 1;
        }
        proof {
            assert(orig.take(orig.len() as int) =~= orig);
        }
        self.tasks = kept;
    }
}

} // verus!
