//! The slice of the client/server protocol the client logic reads
//! and writes: request messages, search kinds and catalogue rows.

use vstd::prelude::*;

verus! {

/// Correlation id of a streamed server task.
pub type TaskId = u64;

/// Which catalogue a search runs against.
#[derive(PartialEq, Eq, Structural, Clone, Copy, Debug)]
pub enum SearchType {
    Song,
    Album,
    Artist,
}

/// Identity a client announces in its handshake.
pub struct Peer {
    pub user: String,
    pub host: String,
}

/// A playlist as the server lists it.
pub struct Playlist {
    pub id: String,
    pub name: String,
    pub track_count: u32,
}

/// A song row.
pub struct Song {
    pub id: String,
    pub title: String,
    pub artist_name: String,
    pub album_title: String,
}

impl Song {
    pub fn duplicate(&self) -> (r: Song)
        ensures
            r == *self,
    {
        Song {
            id: self.id.clone(),
            title: self.title.clone(),
            artist_name: self.artist_name.clone(),
            album_title: self.album_title.clone(),
        }
    }
}

/// One row of the play queue: the server's id for the entry and its
/// song.
pub struct QueueEntry {
    pub entry_id: u64,
    pub song: Song,
}

/// One change to the play queue.
#[allow(inconsistent_fields)]
pub enum QueueDelta {
    /// `entries` go in before row `index`, or after the last row when
    /// `index` is past the end.
    Insert { index: usize, entries: Vec<QueueEntry> },
    /// The row with this entry id leaves the queue.
    Remove { entry_id: u64 },
    /// The playing row is now `index`, or nothing plays.
    SetCurrent { index: Option<usize> },
    /// Every row leaves the queue.
    Clear,
}

/// An album row of a search.
pub struct Album {
    pub id: String,
    pub name: String,
    pub artist_id: String,
    pub artist_name: String,
}

/// An artist row of a search.
pub struct Artist {
    pub id: String,
    pub name: String,
}

/// One page of search results.
pub struct SearchResults {
    pub songs: Vec<Song>,
    pub albums: Vec<Album>,
    pub artists: Vec<Artist>,
}

/// Repeat mode of the player.
#[derive(PartialEq, Eq, Structural, Clone, Copy, Debug)]
pub enum RepeatMode {
    Off,
    All,
    One,
}

/// What a play request names.
#[derive(PartialEq, Eq, Structural, Clone, Copy, Debug)]
pub enum MediaKind {
    Song,
    Album,
    Playlist,
}

/// Where played items land in the queue.
#[derive(PartialEq, Eq, Structural, Clone, Copy, Debug)]
pub enum QueuePosition {
    /// Replace the queue and start playing.
    Reset,
    /// Right after the current track.
    Next,
    /// At the end of the queue.
    Last,
    /// Replace the queue in shuffled order.
    Shuffle,
}

/// Which container of a song the server should resolve.
#[derive(PartialEq, Eq, Structural, Clone, Copy, Debug)]
pub enum NavigateTarget {
    Album,
    Artist,
}

/// Requests the client sends. Time offsets travel in milliseconds.
pub enum ClientMsg {
    Hello { peer: Peer, version: u32 },
    GetState,
    GetPlaylists,
    GetPlaylist { id: String, focus: usize },
    Search { term: String, search_type: SearchType },
    GetAlbumDetail { id: String },
    GetArtistDetail { id: String },
    ViewingPlaylist { id: String },
    AddToPlaylist { playlist_id: String, song_ids: Vec<String>, album_ids: Vec<String> },
    Skip,
    Previous,
    SetPaused { paused: bool },
    SetRepeat { mode: RepeatMode },
    Play { id: String, kind: MediaKind, position: QueuePosition, start_index: Option<usize> },
    PlaySongs { song_ids: Vec<String>, position: QueuePosition },
    Navigate { target: NavigateTarget, song_id: String },
    CreatePlaylist { name: String },
    RenamePlaylist { id: String, name: String },
    DeletePlaylist { id: String },
    RemoveFromPlaylist { playlist_id: String, items: Vec<(String, usize)> },
    SkipToQueueEntry { queue_id: u64, entry_id: u64 },
    RemoveFromQueue { queue_id: u64, entry_id: u64 },
    SeekRelative { offset_ms: i64 },
    Seek { position_ms: u64 },
}

/// The lower-case wire name of a search kind.
pub open spec fn search_type_text(t: SearchType) -> Seq<char> {
    match t {
        SearchType::Song => seq!['s', 'o', 'n', 'g'],
        SearchType::Album => seq!['a', 'l', 'b', 'u', 'm'],
        SearchType::Artist => seq!['a', 'r', 't', 'i', 's', 't'],
    }
}

/// The search kind a stored name stands for: `album` and `artist`
/// by name, anything else a song search.
pub open spec fn search_type_of_text(s: Seq<char>) -> SearchType {
    if s == search_type_text(SearchType::Album) {
        SearchType::Album
    } else if s == search_type_text(SearchType::Artist) {
        SearchType::Artist
    } else {
        SearchType::Song
    }
}

/// The search kind after `t` in the Song, Album, Artist cycle.
pub open spec fn search_type_next(t: SearchType) -> SearchType {
    match t {
        SearchType::Song => SearchType::Album,
        SearchType::Album => SearchType::Artist,
        SearchType::Artist => SearchType::Song,
    }
}

/// The search kind before `t` in the Song, Album, Artist cycle.
pub open spec fn search_type_prev(t: SearchType) -> SearchType {
    match t {
        SearchType::Song => SearchType::Artist,
        SearchType::Album => SearchType::Song,
        SearchType::Artist => SearchType::Album,
    }
}

} // verus!
