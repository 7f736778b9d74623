//! Read-only queries over the sources that dispatch and the lifecycle
//! rules share.

use vstd::prelude::*;
use crate::proto::{search_type_of_text, search_type_text, SearchType, Song};
use crate::seqs::{first_index, lemma_index_facts, lemma_is_first_index, lemma_none_index};
use crate::state::server::{ResponseEntry, ServerReply};
use crate::text::{lowercase, str_chars, text_eq, to_lowercase};
use crate::proto::{Album, Artist, Playlist};
use crate::state::history::MiddleMode;
use crate::state::server::{ArtistExtras, PendingOp, PendingPlaylists};
use crate::state::sources::Sources;

verus! {

/// The wire name of a search kind.
pub fn search_type_str(s: SearchType) -> (r: &'static str)
    ensures
        r@ == search_type_text(s),
{
    proof {
        reveal_strlit("song");
        reveal_strlit("album");
        reveal_strlit("artist");
    }
    match s {
        SearchType::Song => "song",
        SearchType::Album => "album",
        SearchType::Artist => "artist",
    }
}

/// The search kind a stored name stands for; unknown names are song
/// searches.
pub fn parse_search_type(s: &str) -> (r: SearchType)
    ensures
        r == search_type_of_text(s@),
{
    let owned = s.to_owned();
    if text_eq(&owned, &search_type_str(SearchType::Album).to_owned()) {
        SearchType::Album
    } else if text_eq(&owned, &search_type_str(SearchType::Artist).to_owned()) {
        SearchType::Artist
    } else {
        SearchType::Song
    }
}

/// Whether a reply is filed under `seq`.
pub open spec fn filed_under(seq: u64) -> spec_fn(ResponseEntry) -> bool {
    |e: ResponseEntry| e.seq == seq
}

/// The songs of the album-detail reply the pane awaits, if it landed.
pub open spec fn spec_album_detail_songs(awaiting_seq: Option<u64>, replies: Seq<ResponseEntry>) -> Option<Seq<Song>> {
    match awaiting_seq {
        None => None,
        Some(seq) => match first_index(replies, filed_under(seq)) {
            None => None,
            Some(i) => match replies[i].reply {
                ServerReply::AlbumDetail { songs, .. } => Some(songs@),
                _ => None,
            },
        },
    }
}

/// Position of the first reply filed under `seq`.
pub fn find_reply(replies: &Vec<ResponseEntry>, seq: u64) -> (r: Option<usize>)
    ensures
        r matches Some(i) ==> first_index(replies@, filed_under(seq)) == Some(i as int) && (i as int) < replies@.len(),
        r is None ==> first_index(replies@, filed_under(seq)) is None,
{
    let mut i: usize = 0;
    while i < replies.len()
        invariant
            i <= replies@.len(),
            forall|j: int| 0 <= j < i ==> !filed_under(seq)(replies@[j]),
        decreases replies@.len() - i,
    {
        if replies[i].seq == seq {
            proof {
                lemma_is_first_index(replies@, filed_under(seq), i as int);
            }
            return Some(i);
        }
        i = i + 1;
    }
    proof {
        lemma_none_index(replies@, filed_under(seq));
    }
    None
}

pub fn album_detail_songs(awaiting_seq: Option<u64>, replies: &Vec<ResponseEntry>) -> (r: Option<&Vec<Song>>)
    ensures
        match r {
            Some(v) => spec_album_detail_songs(awaiting_seq, replies@) == Some(v@),
            None => spec_album_detail_songs(awaiting_seq, replies@) is None,
        },
{
    let seq = match awaiting_seq {
        None => return None,
        Some(s) => s,
    };
    match find_reply(replies, seq) {
        None => None,
        Some(i) => match &replies[i].reply {
            ServerReply::AlbumDetail { songs, .. } => Some(songs),
            _ => None,
        },
    }
}

/// The top songs of the artist-detail reply filed under the awaited
/// seq.
pub open spec fn spec_artist_detail_songs(awaiting_seq: Option<u64>, replies: Seq<ResponseEntry>) -> Option<Seq<Song>> {
    match awaiting_seq {
        None => None,
        Some(seq) => match first_index(replies, filed_under(seq)) {
            None => None,
            Some(i) => match replies[i].reply {
                ServerReply::ArtistDetail { top_songs, .. } => Some(top_songs@),
                _ => None,
            },
        },
    }
}

pub fn artist_detail_songs(awaiting_seq: Option<u64>, replies: &Vec<ResponseEntry>) -> (r: Option<&Vec<Song>>)
    ensures
        match r {
            Some(v) => spec_artist_detail_songs(awaiting_seq, replies@) == Some(v@),
            None => spec_artist_detail_songs(awaiting_seq, replies@) is None,
        },
{
    let seq = match awaiting_seq {
        None => return None,
        Some(s) => s,
    };
    match find_reply(replies, seq) {
        None => None,
        Some(i) => match &replies[i].reply {
            ServerReply::ArtistDetail { top_songs, .. } => Some(top_songs),
            _ => None,
        },
    }
}

// ---------------------------------------------------------------------
// Text filters
// ---------------------------------------------------------------------

/// `n` occurs in `h`.
pub open spec fn has_substring(h: Seq<char>, n: Seq<char>) -> bool {
    exists|i: int| 0 <= i && i + n.len() <= h.len() && #[trigger] h.subrange(i, i + n.len()) == n
}

/// Whether `n` occurs in `h` at position `i`.
fn occurs_at(h: &Vec<char>, n: &Vec<char>, i: usize) -> (r: bool)
    requires
        i + n@.len() <= h@.len(),
    ensures
        r == (h@.subrange(i as int, i + n@.len()) == n@),
{
    let mut j: usize = 0;
    assert(h@.len() == h.len());
    while j < n.len()
        invariant
            i + n@.len() <= h@.len(),
            h@.len() <= usize::MAX,
            j <= n@.len(),
            forall|k: int| 0 <= k < j ==> h@[i + k] == n@[k],
        decreases n@.len() - j,
    {
        if h[i + j] != n[j] {
            assert(h@.subrange(i as int, i + n@.len())[j as int] != n@[j as int]);
            return false;
        }
        j = j + 1;
    }
    assert(h@.subrange(i as int, i + n@.len()) =~= n@);
    true
}

/// Whether `needle` occurs in `hay`.
pub fn contains_text(hay: &String, needle: &String) -> (r: bool)
    ensures
        r == has_substring(hay@, needle@),
{
    let h = str_chars(hay.as_str());
    let n = str_chars(needle.as_str());
    if n.len() > h.len() {
        return false;
    }
    let last = h.len() - n.len();
    let mut i: usize = 0;
    loop
        invariant
            i <= last,
            last + n@.len() == h@.len(),
            h@ == hay@,
            n@ == needle@,
            forall|k: int| 0 <= k < i ==> #[trigger] h@.subrange(k, k + n@.len()) != n@,
        decreases last - i,
    {
        if occurs_at(&h, &n, i) {
            return true;
        }
        if i == last {
            return false;
        }
        i = i + 1;
    }
}

/// A field passes a (lower-cased) filter when its lower-cased text
/// contains it.
pub open spec fn field_matches(field: Seq<char>, filter: Seq<char>) -> bool {
    has_substring(lowercase(field), filter)
}

pub fn field_passes(field: &String, filter: &String) -> (r: bool)
    ensures
        r == field_matches(field@, filter@),
{
    let lower = to_lowercase(field.as_str());
    contains_text(&lower, filter)
}

// ---------------------------------------------------------------------
// Visible rows of the panes
// ---------------------------------------------------------------------

/// The rows `0..n` on which `p` holds, in order.
pub open spec fn kept_indices(n: nat, p: spec_fn(int) -> bool) -> Seq<usize>
    decreases n,
{
    if n == 0 {
        Seq::empty()
    } else {
        let rest = kept_indices((n - 1) as nat, p);
        if p(n - 1) { rest.push((n - 1) as usize) } else { rest }
    }
}

/// A song passes the filter on its title, artist or album.
pub open spec fn song_matches(s: Song, f: Seq<char>) -> bool {
    field_matches(s.title@, f) || field_matches(s.artist_name@, f) || field_matches(s.album_title@, f)
}

/// A removal of song `song` from playlist `pid` is awaiting its
/// confirmation.
pub open spec fn removing_song(ops: Seq<PendingOp>, pid: Seq<char>, song: Seq<char>) -> bool {
    exists|k: int| 0 <= k < ops.len() && ops[k].playlist_id@ == pid && #[trigger] ops[k].detail@ == song
}

/// The open playlist's id, or empty text.
pub open spec fn loaded_id(s: Sources) -> Seq<char> {
    match s.playlist_tracks.playlist_id {
        Some(p) => p@,
        None => Seq::empty(),
    }
}

/// A playlist row is visible when it is not being removed and passes
/// the filter; a row still to arrive shows only without a filter.
pub open spec fn playlist_row(s: Sources, f: Seq<char>) -> spec_fn(int) -> bool {
    |i: int| match s.playlist_tracks.songs@[i] {
        Some(song) => !removing_song(s.pending_playlists.removing@, loaded_id(s), song.id@)
            && (f.len() == 0 || song_matches(song, f)),
        None => f.len() == 0,
    }
}

/// An album-detail row passes the filter on its title or artist.
pub open spec fn album_song_row(songs: Seq<Song>, f: Seq<char>) -> spec_fn(int) -> bool {
    |i: int| f.len() == 0 || field_matches(songs[i].title@, f) || field_matches(songs[i].artist_name@, f)
}

pub open spec fn search_song_row(songs: Seq<Song>, f: Seq<char>) -> spec_fn(int) -> bool {
    |i: int| f.len() == 0 || song_matches(songs[i], f)
}

pub open spec fn search_album_row(albums: Seq<Album>, f: Seq<char>) -> spec_fn(int) -> bool {
    |i: int| f.len() == 0 || field_matches(albums[i].name@, f) || field_matches(albums[i].artist_name@, f)
}

pub open spec fn search_artist_row(artists: Seq<Artist>, f: Seq<char>) -> spec_fn(int) -> bool {
    |i: int| f.len() == 0 || field_matches(artists[i].name@, f)
}

/// Every row.
pub open spec fn any_row() -> spec_fn(int) -> bool {
    |i: int| true
}

/// The artist-detail reply the pane awaits, once it landed: the
/// artist id and its top songs, top albums and latest albums.
pub open spec fn spec_artist_detail(awaiting_seq: Option<u64>, replies: Seq<ResponseEntry>) -> Option<(Seq<char>, nat)> {
    match awaiting_seq {
        None => None,
        Some(seq) => match first_index(replies, filed_under(seq)) {
            None => None,
            Some(i) => match replies[i].reply {
                ServerReply::ArtistDetail { artist_id, top_songs, top_albums, latest_albums } =>
                    Some((artist_id@, top_songs@.len() + top_albums@.len() + latest_albums@.len())),
                _ => None,
            },
        },
    }
}

/// The rows of the artist view: top songs, top albums, latest albums,
/// further album pages and similar artists.
pub open spec fn spec_artist_detail_total(awaiting_seq: Option<u64>, replies: Seq<ResponseEntry>, extras: ArtistExtras) -> nat {
    match spec_artist_detail(awaiting_seq, replies) {
        None => 0,
        Some((id, n)) => n + match extras.extra_of(id) {
            Some(e) => e.similar@.len() + e.paged_albums@.len(),
            None => 0,
        },
    }
}

pub fn artist_detail_total(awaiting_seq: Option<u64>, replies: &Vec<ResponseEntry>, extras: &ArtistExtras) -> (n: usize)
    ensures
        n == spec_artist_detail_total(awaiting_seq, replies@, *extras)
            || (n == usize::MAX && spec_artist_detail_total(awaiting_seq, replies@, *extras) > usize::MAX),
{
    let seq = match awaiting_seq {
        None => return 0,
        Some(s) => s,
    };
    let i = match find_reply(replies, seq) {
        None => return 0,
        Some(i) => i,
    };
    match &replies[i].reply {
        ServerReply::ArtistDetail { artist_id, top_songs, top_albums, latest_albums } => {
            let base = top_songs.len().saturating_add(top_albums.len()).saturating_add(latest_albums.len());
            let extra = match extras.get(artist_id) {
                Some(e) => e.similar.len().saturating_add(e.paged_albums.len()),
                None => 0,
            };
            base.saturating_add(extra)
        },
        _ => 0,
    }
}

/// One row of the artist view.
pub enum ArtistDetailItem {
    Song(Song),
    Album(Album),
    Artist(Artist),
}

/// Row `idx` of a list made of `songs`, then `albums`, then `artists`.
pub open spec fn artist_row(songs: Seq<Song>, albums: Seq<Album>, artists: Seq<Artist>, idx: int) -> Option<ArtistDetailItem> {
    if 0 <= idx < songs.len() {
        Some(ArtistDetailItem::Song(songs[idx]))
    } else if songs.len() <= idx < songs.len() + albums.len() {
        Some(ArtistDetailItem::Album(albums[idx - songs.len()]))
    } else if songs.len() + albums.len() <= idx < songs.len() + albums.len() + artists.len() {
        Some(ArtistDetailItem::Artist(artists[idx - songs.len() - albums.len()]))
    } else {
        None
    }
}

/// Row `idx` of the artist view: top songs, top albums, latest
/// albums, further album pages, then similar artists.
pub open spec fn spec_artist_item(
    awaiting_seq: Option<u64>,
    replies: Seq<ResponseEntry>,
    extras: ArtistExtras,
    idx: int,
) -> Option<ArtistDetailItem> {
    match awaiting_seq {
        None => None,
        Some(seq) => match first_index(replies, filed_under(seq)) {
            None => None,
            Some(i) => match replies[i].reply {
                ServerReply::ArtistDetail { artist_id, top_songs, top_albums, latest_albums } => {
                    let (paged, similar) = match extras.extra_of(artist_id@) {
                        Some(e) => (e.paged_albums@, e.similar@),
                        None => (Seq::empty(), Seq::empty()),
                    };
                    artist_row(top_songs@, top_albums@ + latest_albums@ + paged, similar, idx)
                },
                _ => None,
            },
        },
    }
}

pub fn artist_detail_item(awaiting_seq: Option<u64>, replies: &Vec<ResponseEntry>, extras: &ArtistExtras, idx: usize) -> (r:
    Option<ArtistDetailItem>)
    ensures
        r == spec_artist_item(awaiting_seq, replies@, *extras, idx as int),
{
    let seq = match awaiting_seq {
        None => return None,
        Some(s) => s,
    };
    let i = match find_reply(replies, seq) {
        None => return None,
        Some(i) => i,
    };
    match &replies[i].reply {
        ServerReply::ArtistDetail { artist_id, top_songs, top_albums, latest_albums } => {
            let ghost paged = match extras.extra_of(artist_id@) {
                Some(e) => e.paged_albums@,
                None => Seq::<Album>::empty(),
            };
            let ghost albums = top_albums@ + latest_albums@ + paged;
            let mut cursor = idx;
            if cursor < top_songs.len() {
                return Some(ArtistDetailItem::Song(top_songs[cursor].duplicate()));
            }
            cursor = cursor - top_songs.len();
            if cursor < top_albums.len() {
                assert(albums[cursor as int] == top_albums@[cursor as int]);
                return Some(ArtistDetailItem::Album(top_albums[cursor].duplicate()));
            }
            cursor = cursor - top_albums.len();
            if cursor < latest_albums.len() {
                assert(albums[top_albums@.len() + cursor] == latest_albums@[cursor as int]);
                return Some(ArtistDetailItem::Album(latest_albums[cursor].duplicate()));
            }
            cursor = cursor - latest_albums.len();
            let extra = extras.get(artist_id);
            match extra {
                None => None,
                Some(e) => {
                    if cursor < e.paged_albums.len() {
                        assert(albums[top_albums@.len() + latest_albums@.len() + cursor] == e.paged_albums@[cursor as int]);
                        return Some(ArtistDetailItem::Album(e.paged_albums[cursor].duplicate()));
                    }
                    cursor = cursor - e.paged_albums.len();
                    if cursor < e.similar.len() {
                        Some(ArtistDetailItem::Artist(e.similar[cursor].duplicate()))
                    } else {
                        None
                    }
                },
            }
        },
        _ => None,
    }
}

/// The rows of the middle pane that pass its filter, as indices into
/// the pane's data.
pub open spec fn spec_middle_indices(s: Sources) -> Seq<usize> {
    let f = lowercase(s.filter.middle@);
    match s.history.mode {
        MiddleMode::PlaylistSongs => kept_indices(s.playlist_tracks.songs@.len(), playlist_row(s, f)),
        MiddleMode::AlbumDetail { awaiting_seq, .. } => match spec_album_detail_songs(awaiting_seq, s.responses.by_seq@) {
            None => Seq::empty(),
            Some(songs) => kept_indices(songs.len(), album_song_row(songs, f)),
        },
        MiddleMode::ArtistDetail { awaiting_seq, .. } => {
            let n = spec_artist_detail_total(awaiting_seq, s.responses.by_seq@, s.artist_extras);
            kept_indices(if n > usize::MAX { usize::MAX as nat } else { n }, any_row())
        },
        MiddleMode::SearchResults { search_type, .. } => match search_type {
            SearchType::Song => kept_indices(s.search.songs@.len(), search_song_row(s.search.songs@, f)),
            SearchType::Album => kept_indices(s.search.albums@.len(), search_album_row(s.search.albums@, f)),
            SearchType::Artist => kept_indices(s.search.artists@.len(), search_artist_row(s.search.artists@, f)),
        },
    }
}

fn is_removing_song(ops: &Vec<PendingOp>, pid: &String, song: &String) -> (r: bool)
    ensures
        r == removing_song(ops@, pid@, song@),
{
    let mut k: usize = 0;
    while k < ops.len()
        invariant
            k <= ops@.len(),
            forall|j: int| 0 <= j < k ==> !(ops@[j].playlist_id@ == pid@ && ops@[j].detail@ == song@),
        decreases ops@.len() - k,
    {
        if text_eq(&ops[k].playlist_id, pid) && text_eq(&ops[k].detail, song) {
            return true;
        }
        k = k + 1;
    }
    false
}

fn song_passes(song: &Song, f: &String) -> (r: bool)
    ensures
        r == song_matches(*song, f@),
{
    field_passes(&song.title, f) || field_passes(&song.artist_name, f) || field_passes(&song.album_title, f)
}

fn playlist_indices(s: &Sources, f: &String) -> (r: Vec<usize>)
    ensures
        r@ == kept_indices(s.playlist_tracks.songs@.len(), playlist_row(*s, f@)),
{
    let pid = match &s.playlist_tracks.playlist_id {
        Some(p) => p.clone(),
        None => String::new(),
    };
    let all = f.as_str().is_empty();
    let rows = &s.playlist_tracks.songs;
    let mut out: Vec<usize> = Vec::new();
    let mut i: usize = 0;
    while i < rows.len()
        invariant
            i <= rows@.len(),
            rows@ == s.playlist_tracks.songs@,
            pid@ == loaded_id(*s),
            all == (f@.len() == 0),
            out@ == kept_indices(i as nat, playlist_row(*s, f@)),
        decreases rows@.len() - i,
    {
        let keep = match &rows[i] {
            Some(song) => !is_removing_song(&s.pending_playlists.removing, &pid, &song.id) && (all || song_passes(song, f)),
            None => all,
        };
        if keep {
            out.push(i);
        }
        i = i + 1;
    }
    out
}

fn album_song_indices(songs: &Vec<Song>, f: &String) -> (r: Vec<usize>)
    ensures
        r@ == kept_indices(songs@.len(), album_song_row(songs@, f@)),
{
    let all = f.as_str().is_empty();
    let mut out: Vec<usize> = Vec::new();
    let mut i: usize = 0;
    while i < songs.len()
        invariant
            i <= songs@.len(),
            all == (f@.len() == 0),
            out@ == kept_indices(i as nat, album_song_row(songs@, f@)),
        decreases songs@.len() - i,
    {
        if all || field_passes(&songs[i].title, f) || field_passes(&songs[i].artist_name, f) {
            out.push(i);
        }
        i = i + 1;
    }
    out
}

fn search_song_indices(songs: &Vec<Song>, f: &String) -> (r: Vec<usize>)
    ensures
        r@ == kept_indices(songs@.len(), search_song_row(songs@, f@)),
{
    let all = f.as_str().is_empty();
    let mut out: Vec<usize> = Vec::new();
    let mut i: usize = 0;
    while i < songs.len()
        invariant
            i <= songs@.len(),
            all == (f@.len() == 0),
            out@ == kept_indices(i as nat, search_song_row(songs@, f@)),
        decreases songs@.len() - i,
    {
        if all || song_passes(&songs[i], f) {
            out.push(i);
        }
        i = i + 1;
    }
    out
}

fn search_album_indices(albums: &Vec<Album>, f: &String) -> (r: Vec<usize>)
    ensures
        r@ == kept_indices(albums@.len(), search_album_row(albums@, f@)),
{
    let all = f.as_str().is_empty();
    let mut out: Vec<usize> = Vec::new();
    let mut i: usize = 0;
    while i < albums.len()
        invariant
            i <= albums@.len(),
            all == (f@.len() == 0),
            out@ == kept_indices(i as nat, search_album_row(albums@, f@)),
        decreases albums@.len() - i,
    {
        if all || field_passes(&albums[i].name, f) || field_passes(&albums[i].artist_name, f) {
            out.push(i);
        }
        i = i + 1;
    }
    out
}

fn search_artist_indices(artists: &Vec<Artist>, f: &String) -> (r: Vec<usize>)
    ensures
        r@ == kept_indices(artists@.len(), search_artist_row(artists@, f@)),
{
    let all = f.as_str().is_empty();
    let mut out: Vec<usize> = Vec::new();
    let mut i: usize = 0;
    while i < artists.len()
        invariant
            i <= artists@.len(),
            all == (f@.len() == 0),
            out@ == kept_indices(i as nat, search_artist_row(artists@, f@)),
        decreases artists@.len() - i,
    {
        if all || field_passes(&artists[i].name, f) {
            out.push(i);
        }
        i = i + 1;
    }
    out
}

fn all_indices(n: usize) -> (r: Vec<usize>)
    ensures
        r@ == kept_indices(n as nat, any_row()),
{
    let mut out: Vec<usize> = Vec::new();
    let mut i: usize = 0;
    while i < n
        invariant
            i <= n,
            out@ == kept_indices(i as nat, any_row()),
        decreases n - i,
    {
        out.push(i);
        i = i + 1;
    }
    out
}

/// The rows of the middle pane that pass its filter.
pub fn middle_filtered_indices(s: &Sources) -> (r: Vec<usize>)
    ensures
        r@ == spec_middle_indices(*s),
{
    let f = to_lowercase(s.filter.middle.as_str());
    match &s.history.mode {
        MiddleMode::PlaylistSongs => playlist_indices(s, &f),
        MiddleMode::AlbumDetail { awaiting_seq, .. } => match album_detail_songs(*awaiting_seq, &s.responses.by_seq) {
            None => Vec::new(),
            Some(songs) => album_song_indices(songs, &f),
        },
        MiddleMode::ArtistDetail { awaiting_seq, .. } => {
            let n = artist_detail_total(*awaiting_seq, &s.responses.by_seq, &s.artist_extras);
            all_indices(n)
        },
        MiddleMode::SearchResults { search_type, .. } => match search_type {
            SearchType::Song => search_song_indices(&s.search.songs, &f),
            SearchType::Album => search_album_indices(&s.search.albums, &f),
            SearchType::Artist => search_artist_indices(&s.search.artists, &f),
        },
    }
}

/// How many middle-pane rows pass the filter.
pub fn middle_row_count(s: &Sources) -> (n: usize)
    ensures
        n == spec_middle_indices(*s).len(),
{
    middle_filtered_indices(s).len()
}

/// The queue rows whose title passes the queue filter.
pub open spec fn spec_queue_indices(s: Sources) -> Seq<usize> {
    let f = lowercase(s.filter.queue@);
    kept_indices(s.queue.items@.len(), queue_row(s.queue.items@, f))
}

pub open spec fn queue_row(items: Seq<Song>, f: Seq<char>) -> spec_fn(int) -> bool {
    |i: int| f.len() == 0 || field_matches(items[i].title@, f)
}

pub fn queue_filtered_indices(s: &Sources) -> (r: Vec<usize>)
    ensures
        r@ == spec_queue_indices(*s),
{
    let f = to_lowercase(s.filter.queue.as_str());
    let all = f.as_str().is_empty();
    let items = &s.queue.items;
    let mut out: Vec<usize> = Vec::new();
    let mut i: usize = 0;
    while i < items.len()
        invariant
            i <= items@.len(),
            items@ == s.queue.items@,
            f@ == lowercase(s.filter.queue@),
            all == (f@.len() == 0),
            out@ == kept_indices(i as nat, queue_row(items@, f@)),
        decreases items@.len() - i,
    {
        if all || field_passes(&items[i].title, &f) {
            out.push(i);
        }
        i = i + 1;
    }
    out
}

/// A delete of playlist `id` is awaiting its confirmation.
pub open spec fn deleting(ops: Seq<PendingOp>, id: Seq<char>) -> bool {
    exists|k: int| 0 <= k < ops.len() && #[trigger] ops[k].playlist_id@ == id
}

/// The name a playlist shows: the pending rename's, if any.
pub open spec fn display_name(ops: Seq<PendingOp>, p: Playlist) -> Seq<char> {
    match first_index(ops, crate::state::server::op_for(p.id@)) {
        Some(i) => ops[i].detail@,
        None => p.name@,
    }
}

/// A listed playlist shows in the left column: not being deleted, and
/// its shown name passes the filter.
pub open spec fn playlist_shown(pending: PendingPlaylists, items: Seq<Playlist>, f: Seq<char>) -> spec_fn(int) -> bool {
    |i: int| !deleting(pending.deleting@, items[i].id@)
        && (f.len() == 0 || field_matches(display_name(pending.renaming@, items[i]), f))
}

/// A playlist being created shows when its name passes the filter.
pub open spec fn creating_shown(creating: Seq<PendingOp>, f: Seq<char>) -> spec_fn(int) -> bool {
    |i: int| f.len() == 0 || field_matches(creating[i].detail@, f)
}

/// The left column's playlist rows under `filter`: listed playlists
/// that show, then playlists being created that show.
pub open spec fn spec_filtered_playlist_count(s: Sources, filter: Seq<char>) -> nat {
    let f = lowercase(filter);
    kept_indices(s.playlists.items@.len(), playlist_shown(s.pending_playlists, s.playlists.items@, f)).len()
        + kept_indices(s.pending_playlists.creating@.len(), creating_shown(s.pending_playlists.creating@, f)).len()
}

fn op_for_id(ops: &Vec<PendingOp>, id: &String) -> (r: Option<usize>)
    ensures
        r matches Some(i) ==> first_index(ops@, crate::state::server::op_for(id@)) == Some(i as int) && (i as int) < ops@.len(),
        r is None ==> first_index(ops@, crate::state::server::op_for(id@)) is None,
{
    let mut i: usize = 0;
    while i < ops.len()
        invariant
            i <= ops@.len(),
            forall|j: int| 0 <= j < i ==> !crate::state::server::op_for(id@)(ops@[j]),
        decreases ops@.len() - i,
    {
        if text_eq(&ops[i].playlist_id, id) {
            proof {
                lemma_is_first_index(ops@, crate::state::server::op_for(id@), i as int);
            }
            return Some(i);
        }
        i = i + 1;
    }
    proof {
        lemma_none_index(ops@, crate::state::server::op_for(id@));
    }
    None
}

fn is_deleting(ops: &Vec<PendingOp>, id: &String) -> (r: bool)
    ensures
        r == deleting(ops@, id@),
{
    let mut k: usize = 0;
    while k < ops.len()
        invariant
            k <= ops@.len(),
            forall|j: int| 0 <= j < k ==> ops@[j].playlist_id@ != id@,
        decreases ops@.len() - k,
    {
        if text_eq(&ops[k].playlist_id, id) {
            return true;
        }
        k = k + 1;
    }
    false
}

/// The rows of the left column's playlist list under `filter`, as
/// indices into the listed playlists.
pub fn visible_server_playlists(s: &Sources, filter: &String) -> (r: Vec<usize>)
    ensures
        r@ == kept_indices(s.playlists.items@.len(), playlist_shown(s.pending_playlists, s.playlists.items@, lowercase(filter@))),
{
    let f = to_lowercase(filter.as_str());
    let all = f.as_str().is_empty();
    let items = &s.playlists.items;
    let mut out: Vec<usize> = Vec::new();
    let mut i: usize = 0;
    while i < items.len()
        invariant
            i <= items@.len(),
            items@ == s.playlists.items@,
            f@ == lowercase(filter@),
            all == (f@.len() == 0),
            out@ == kept_indices(i as nat, playlist_shown(s.pending_playlists, items@, f@)),
        decreases items@.len() - i,
    {
        let p = &items[i];
        let keep = if is_deleting(&s.pending_playlists.deleting, &p.id) {
            false
        } else if all {
            true
        } else {
            match op_for_id(&s.pending_playlists.renaming, &p.id) {
                Some(k) => field_passes(&s.pending_playlists.renaming[k].detail, &f),
                None => field_passes(&p.name, &f),
            }
        };
        if keep {
            out.push(i);
        }
        i = i + 1;
    }
    out
}

/// How many playlist rows the left column shows under `filter`.
pub fn filtered_playlist_count(s: &Sources, filter: &String) -> (n: usize)
    ensures
        n == spec_filtered_playlist_count(*s, filter@) || (n == usize::MAX && spec_filtered_playlist_count(*s, filter@) > usize::MAX),
{
    let server = visible_server_playlists(s, filter).len();
    let f = to_lowercase(filter.as_str());
    let all = f.as_str().is_empty();
    let creating = &s.pending_playlists.creating;
    let mut shown: Vec<usize> = Vec::new();
    let mut i: usize = 0;
    while i < creating.len()
        invariant
            i <= creating@.len(),
            creating@ == s.pending_playlists.creating@,
            f@ == lowercase(filter@),
            all == (f@.len() == 0),
            shown@ == kept_indices(i as nat, creating_shown(creating@, f@)),
        decreases creating@.len() - i,
    {
        if all || field_passes(&creating[i].detail, &f) {
            shown.push(i);
        }
        i = i + 1;
    }
    server.saturating_add(shown.len())
}

/// The id of row `index` of the listed playlists under `filter`.
/// The listed playlist shown at row `index` of the left column's
/// playlist rows under `filter`.
pub open spec fn listed_playlist(s: Sources, filter: Seq<char>, index: int) -> Option<Playlist> {
    let rows = kept_indices(s.playlists.items@.len(), playlist_shown(s.pending_playlists, s.playlists.items@, lowercase(filter)));
    if 0 <= index < rows.len() {
        Some(s.playlists.items@[rows[index] as int])
    } else {
        None
    }
}

/// Id and name of the listed playlist shown at row `index`.
pub fn filtered_playlist(s: &Sources, filter: &String, index: usize) -> (r: Option<(String, String)>)
    ensures
        match listed_playlist(*s, filter@, index as int) {
            Some(p) => r == Some((p.id, p.name)),
            None => r is None,
        },
{
    let rows = visible_server_playlists(s, filter);
    if index < rows.len() {
        let k = rows[index];
        proof {
            lemma_kept_in_range(s.playlists.items@.len(), playlist_shown(s.pending_playlists, s.playlists.items@, lowercase(filter@)));
        }
        Some((s.playlists.items[k].id.clone(), s.playlists.items[k].name.clone()))
    } else {
        None
    }
}

pub fn selected_playlist_id(s: &Sources, filter: &String, index: usize) -> (r: Option<String>)
    ensures
        ({
            let rows = kept_indices(s.playlists.items@.len(), playlist_shown(s.pending_playlists, s.playlists.items@, lowercase(filter@)));
            &&& index < rows.len() ==> (r matches Some(id) && id == s.playlists.items@[rows[index as int] as int].id)
            &&& index >= rows.len() ==> r is None
        }),
{
    let rows = visible_server_playlists(s, filter);
    if index < rows.len() {
        let k = rows[index];
        proof {
            lemma_kept_in_range(s.playlists.items@.len(), playlist_shown(s.pending_playlists, s.playlists.items@, lowercase(filter@)));
        }
        Some(s.playlists.items[k].id.clone())
    } else {
        None
    }
}

/// Every kept row is below the count it was taken from.
pub proof fn lemma_kept_in_range(n: nat, p: spec_fn(int) -> bool)
    ensures
        forall|k: int| 0 <= k < kept_indices(n, p).len() ==> (#[trigger] kept_indices(n, p)[k]) < n,
        kept_indices(n, p).len() <= n,
    decreases n,
{
    if n > 0 {
        lemma_kept_in_range((n - 1) as nat, p);
    }
}

/// Whether the probe of `ad`'s address found the certificate
/// fingerprint `fp`.
pub open spec fn probed_as(probes: Seq<crate::state::probes::ProbeEntry>, fp: Option<String>) -> spec_fn(
    crate::state::discovery::ServerAd,
) -> bool {
    |ad: crate::state::discovery::ServerAd|
        match fp {
            Some(f) => crate::state::probes::probe_of(probes, ad.spec_endpoint()) matches Some(
                crate::state::probes::ProbeOutcome::Fingerprint(o),
            ) && o@ == f@,
            None => false,
        }
}

/// The mDNS name of the server the link targets: the first discovered
/// server whose address probed to the target fingerprint.
pub fn current_server_name(sources: &Sources) -> (r: Option<String>)
    ensures
        match first_index(sources.discovery.servers@, probed_as(sources.probes.by_addr@, sources.link.target)) {
            Some(i) => r matches Some(n) && n@ == sources.discovery.servers@[i].name@,
            None => r is None,
        },
{
    let ghost p = probed_as(sources.probes.by_addr@, sources.link.target);
    let fp = match &sources.link.target {
        Some(f) => f,
        None => {
            proof {
                lemma_none_index(sources.discovery.servers@, p);
            }
            return None;
        },
    };
    let servers = &sources.discovery.servers;
    let mut i: usize = 0;
    while i < servers.len()
        invariant
            i <= servers@.len(),
            servers == &sources.discovery.servers,
            sources.link.target == Some(*fp),
            p == probed_as(sources.probes.by_addr@, sources.link.target),
            forall|j: int| 0 <= j < i ==> !p(servers@[j]),
        decreases servers@.len() - i,
    {
        let hit = match sources.probes.get(servers[i].endpoint()) {
            Some(crate::state::probes::ProbeOutcome::Fingerprint(o)) => text_eq(o, fp),
            _ => false,
        };
        if hit {
            proof {
                lemma_is_first_index(servers@, p, i as int);
            }
            return Some(servers[i].name.clone());
        }
        i = i + 1;
    }
    proof {
        lemma_none_index(servers@, p);
    }
    None
}

/// The selected rows in ascending order.
pub fn sorted_queue_indices(sources: &Sources) -> (r: Vec<usize>)
    requires
        sources.selection.wf(),
    ensures
        r@ == sources.selection.selected@,
        crate::state::selection::ascending(r@),
{
    sources.selection.selected.clone()
}

} // verus!
