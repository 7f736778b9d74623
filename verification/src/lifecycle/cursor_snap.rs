//! Land the middle cursor on the remembered song once the rows that may
//! hold it arrive, then forget the song.

use vstd::prelude::*;
use crate::execute::ref_view;
use crate::proto::{Album, Artist, SearchType, Song};
use crate::queries::{album_detail_songs, spec_album_detail_songs};
use crate::seqs::{first_index, lemma_index_facts, lemma_is_first_index, lemma_none_index};
use crate::state::history::MiddleMode;
use crate::state::sources::Sources;
use crate::text::{opt_view, text_eq};

verus! {

/// The middle-pane mode as the snap reads it.
pub enum ModeProj {
    PlaylistSongs,
    SearchSongs,
    SearchAlbums,
    SearchArtists,
    AlbumDetail { awaiting_seq: Option<u64> },
    Other,
}

impl ModeProj {
    pub open spec fn of(m: MiddleMode) -> ModeProj {
        match m {
            MiddleMode::PlaylistSongs => ModeProj::PlaylistSongs,
            MiddleMode::SearchResults { search_type, .. } => match search_type {
                SearchType::Song => ModeProj::SearchSongs,
                SearchType::Album => ModeProj::SearchAlbums,
                SearchType::Artist => ModeProj::SearchArtists,
            },
            MiddleMode::AlbumDetail { awaiting_seq, .. } => ModeProj::AlbumDetail { awaiting_seq },
            MiddleMode::ArtistDetail { .. } => ModeProj::Other,
        }
    }

    pub fn new(m: &MiddleMode) -> (r: Self)
        ensures
            r == Self::of(*m),
    {
        match m {
            MiddleMode::PlaylistSongs => ModeProj::PlaylistSongs,
            MiddleMode::SearchResults { search_type, .. } => match search_type {
                SearchType::Song => ModeProj::SearchSongs,
                SearchType::Album => ModeProj::SearchAlbums,
                SearchType::Artist => ModeProj::SearchArtists,
            },
            MiddleMode::AlbumDetail { awaiting_seq, .. } => ModeProj::AlbumDetail { awaiting_seq: *awaiting_seq },
            MiddleMode::ArtistDetail { .. } => ModeProj::Other,
        }
    }
}

pub struct CursorSnapInput<'a> {
    pub pending: Option<&'a String>,
    pub mode: ModeProj,
    pub plt_songs: &'a Vec<Option<Song>>,
    pub search_songs: &'a Vec<Song>,
    pub search_albums: &'a Vec<Album>,
    pub search_artists: &'a Vec<Artist>,
    /// Songs of the album-detail reply the pane awaits, once it landed.
    pub album_songs: Option<&'a Vec<Song>>,
}

pub struct CursorMiddleInput {
    pub middle: usize,
}

#[derive(PartialEq, Eq, Structural, Clone, Copy, Debug)]
pub enum DesiredCursorSnap {
    NoTarget,
    AwaitRows,
    Unsupported,
    Found { row: usize },
    NotFound,
}

#[derive(PartialEq, Eq, Structural, Clone, Copy, Debug)]
pub enum CursorSnapAction {
    Noop,
    SnapAndClear { row: usize },
    ClearOnly,
}

pub open spec fn slot_is(id: Seq<char>) -> spec_fn(Option<Song>) -> bool {
    |o: Option<Song>| o is Some && o->0.id@ == id
}

pub open spec fn song_is(id: Seq<char>) -> spec_fn(Song) -> bool {
    |s: Song| s.id@ == id
}

pub open spec fn album_is(id: Seq<char>) -> spec_fn(Album) -> bool {
    |a: Album| a.id@ == id
}

pub open spec fn artist_is(id: Seq<char>) -> spec_fn(Artist) -> bool {
    |a: Artist| a.id@ == id
}

/// Found at the first matching row; otherwise, for a list with rows
/// still to arrive, wait; else not found.
pub open spec fn spec_find_in_slots(rows: Seq<Option<Song>>, id: Seq<char>) -> DesiredCursorSnap {
    match first_index(rows, slot_is(id)) {
        Some(i) => DesiredCursorSnap::Found { row: i as usize },
        None => if exists|j: int| 0 <= j < rows.len() && rows[j] is None {
            DesiredCursorSnap::AwaitRows
        } else {
            DesiredCursorSnap::NotFound
        },
    }
}

/// An empty list waits; otherwise the first matching row, or not found.
pub open spec fn spec_find_in<T>(rows: Seq<T>, p: spec_fn(T) -> bool) -> DesiredCursorSnap {
    if rows.len() == 0 {
        DesiredCursorSnap::AwaitRows
    } else {
        match first_index(rows, p) {
            Some(i) => DesiredCursorSnap::Found { row: i as usize },
            None => DesiredCursorSnap::NotFound,
        }
    }
}

pub fn find_row_in_optional_arc(rows: &Vec<Option<Song>>, target: &String) -> (r: DesiredCursorSnap)
    ensures
        r == spec_find_in_slots(rows@, target@),
{
    let mut any_missing = false;
    let mut i: usize = 0;
    while i < rows.len()
        invariant
            i <= rows@.len(),
            forall|j: int| 0 <= j < i ==> !slot_is(target@)(rows@[j]),
            any_missing == (exists|j: int| 0 <= j < i && rows@[j] is None),
        decreases rows@.len() - i,
    {
        match &rows[i] {
            Some(s) => {
                if text_eq(&s.id, target) {
                    proof {
                        lemma_is_first_index(rows@, slot_is(target@), i as int);
                    }
                    return DesiredCursorSnap::Found { row: i };
                }
            },
            None => {
                any_missing = true;
            },
        }
        i = i + 1;
    }
    proof {
        lemma_none_index(rows@, slot_is(target@));
    }
    if any_missing { DesiredCursorSnap::AwaitRows } else { DesiredCursorSnap::NotFound }
}

pub fn find_song_row(rows: &Vec<Song>, target: &String) -> (r: DesiredCursorSnap)
    ensures
        r == spec_find_in(rows@, song_is(target@)),
{
    if rows.len() == 0 {
        return DesiredCursorSnap::AwaitRows;
    }
    let mut i: usize = 0;
    while i < rows.len()
        invariant
            i <= rows@.len(),
            forall|j: int| 0 <= j < i ==> !song_is(target@)(rows@[j]),
        decreases rows@.len() - i,
    {
        if text_eq(&rows[i].id, target) {
            proof {
                lemma_is_first_index(rows@, song_is(target@), i as int);
            }
            return DesiredCursorSnap::Found { row: i };
        }
        i = i + 1;
    }
    proof {
        lemma_none_index(rows@, song_is(target@));
    }
    DesiredCursorSnap::NotFound
}

pub fn find_album_row(rows: &Vec<Album>, target: &String) -> (r: DesiredCursorSnap)
    ensures
        r == spec_find_in(rows@, album_is(target@)),
{
    if rows.len() == 0 {
        return DesiredCursorSnap::AwaitRows;
    }
    let mut i: usize = 0;
    while i < rows.len()
        invariant
            i <= rows@.len(),
            forall|j: int| 0 <= j < i ==> !album_is(target@)(rows@[j]),
        decreases rows@.len() - i,
    {
        if text_eq(&rows[i].id, target) {
            proof {
                lemma_is_first_index(rows@, album_is(target@), i as int);
            }
            return DesiredCursorSnap::Found { row: i };
        }
        i = i + 1;
    }
    proof {
        lemma_none_index(rows@, album_is(target@));
    }
    DesiredCursorSnap::NotFound
}

pub fn find_artist_row(rows: &Vec<Artist>, target: &String) -> (r: DesiredCursorSnap)
    ensures
        r == spec_find_in(rows@, artist_is(target@)),
{
    if rows.len() == 0 {
        return DesiredCursorSnap::AwaitRows;
    }
    let mut i: usize = 0;
    while i < rows.len()
        invariant
            i <= rows@.len(),
            forall|j: int| 0 <= j < i ==> !artist_is(target@)(rows@[j]),
        decreases rows@.len() - i,
    {
        if text_eq(&rows[i].id, target) {
            proof {
                lemma_is_first_index(rows@, artist_is(target@), i as int);
            }
            return DesiredCursorSnap::Found { row: i };
        }
        i = i + 1;
    }
    proof {
        lemma_none_index(rows@, artist_is(target@));
    }
    DesiredCursorSnap::NotFound
}

/// Where the remembered song is, or why the snap cannot happen yet.
/// An album reply that has not landed is awaited; its songs are
/// searched once it has, even when it holds none.
pub open spec fn spec_desired_snap(
    pending: Option<Seq<char>>,
    mode: ModeProj,
    plt: Seq<Option<Song>>,
    songs: Seq<Song>,
    albums: Seq<Album>,
    artists: Seq<Artist>,
    album_songs: Option<Seq<Song>>,
) -> DesiredCursorSnap {
    match pending {
        None => DesiredCursorSnap::NoTarget,
        Some(t) => match mode {
            ModeProj::PlaylistSongs => if plt.len() == 0 {
                DesiredCursorSnap::AwaitRows
            } else {
                spec_find_in_slots(plt, t)
            },
            ModeProj::SearchSongs => spec_find_in(songs, song_is(t)),
            ModeProj::SearchAlbums => spec_find_in(albums, album_is(t)),
            ModeProj::SearchArtists => spec_find_in(artists, artist_is(t)),
            ModeProj::AlbumDetail { .. } => match album_songs {
                Some(s) => match first_index(s, song_is(t)) {
                    Some(i) => DesiredCursorSnap::Found { row: i as usize },
                    None => DesiredCursorSnap::NotFound,
                },
                None => DesiredCursorSnap::AwaitRows,
            },
            ModeProj::Other => DesiredCursorSnap::Unsupported,
        },
    }
}

pub fn desired_cursor_snap(input: &CursorSnapInput) -> (r: DesiredCursorSnap)
    ensures
        r == spec_desired_snap(
            ref_view(input.pending),
            input.mode,
            input.plt_songs@,
            input.search_songs@,
            input.search_albums@,
            input.search_artists@,
            match input.album_songs {
                Some(v) => Some(v@),
                None => None,
            },
        ),
{
    let target = match input.pending {
        None => return DesiredCursorSnap::NoTarget,
        Some(t) => t,
    };
    match input.mode {
        ModeProj::PlaylistSongs => {
            if input.plt_songs.len() == 0 {
                return DesiredCursorSnap::AwaitRows;
            }
            find_row_in_optional_arc(input.plt_songs, target)
        },
        ModeProj::SearchSongs => find_song_row(input.search_songs, target),
        ModeProj::SearchAlbums => find_album_row(input.search_albums, target),
        ModeProj::SearchArtists => find_artist_row(input.search_artists, target),
        ModeProj::AlbumDetail { .. } => match input.album_songs {
            Some(songs) => {
                if songs.len() == 0 {
                    proof {
                        lemma_none_index(songs@, song_is(target@));
                    }
                    DesiredCursorSnap::NotFound
                } else {
                    find_song_row(songs, target)
                }
            },
            None => DesiredCursorSnap::AwaitRows,
        },
        ModeProj::Other => DesiredCursorSnap::Unsupported,
    }
}

/// Nothing to do without a target or while rows are awaited; a found
/// row other than the cursor's is snapped to; in every other case the
/// target is only forgotten.
pub open spec fn spec_snap_action(desired: DesiredCursorSnap, middle: usize) -> CursorSnapAction {
    match desired {
        DesiredCursorSnap::NoTarget | DesiredCursorSnap::AwaitRows => CursorSnapAction::Noop,
        DesiredCursorSnap::Unsupported | DesiredCursorSnap::NotFound => CursorSnapAction::ClearOnly,
        DesiredCursorSnap::Found { row } => if row == middle {
            CursorSnapAction::ClearOnly
        } else {
            CursorSnapAction::SnapAndClear { row }
        },
    }
}

pub fn cursor_snap_action(desired: DesiredCursorSnap, cursor: &CursorMiddleInput) -> (r: CursorSnapAction)
    ensures
        r == spec_snap_action(desired, cursor.middle),
{
    match desired {
        DesiredCursorSnap::NoTarget | DesiredCursorSnap::AwaitRows => CursorSnapAction::Noop,
        DesiredCursorSnap::Unsupported | DesiredCursorSnap::NotFound => CursorSnapAction::ClearOnly,
        DesiredCursorSnap::Found { row } => {
            if row == cursor.middle {
                CursorSnapAction::ClearOnly
            } else {
                CursorSnapAction::SnapAndClear { row }
            }
        },
    }
}

/// The snap step's action on `s`.
pub open spec fn spec_cursor_snap_step(s: Sources) -> CursorSnapAction {
    let mode = ModeProj::of(s.history.mode);
    let album = match mode {
        ModeProj::AlbumDetail { awaiting_seq } => spec_album_detail_songs(awaiting_seq, s.responses.by_seq@),
        _ => None,
    };
    spec_snap_action(
        spec_desired_snap(
            opt_view(s.session.pending_cursor_song_id),
            mode,
            s.playlist_tracks.songs@,
            s.search.songs@,
            s.search.albums@,
            s.search.artists@,
            album,
        ),
        s.cursor.middle,
    )
}

/// What `apply_cursor_snap` does to the sources.
pub open spec fn apply_cursor_snap_effect(pre: Sources, post: Sources) -> bool {
    &&& (match spec_cursor_snap_step(pre) {
        CursorSnapAction::Noop => post == pre,
        CursorSnapAction::SnapAndClear { row } => post == (Sources {
            cursor: crate::state::ui::Cursor { middle: row, ..pre.cursor },
            session: crate::state::session::UiSession { pending_cursor_song_id: None, ..pre.session },
            ..pre
        }),
        CursorSnapAction::ClearOnly => post == (Sources {
            session: crate::state::session::UiSession { pending_cursor_song_id: None, ..pre.session },
            ..pre
        }),
    })
    &&& (spec_cursor_snap_step(post) == CursorSnapAction::Noop)
}

pub fn apply_cursor_snap(sources: &mut Sources)
    ensures
        apply_cursor_snap_effect(*old(sources), *final(sources)),
{
    let action = {
        let mode = ModeProj::new(&sources.history.mode);
        let album_songs = match mode {
            ModeProj::AlbumDetail { awaiting_seq } => album_detail_songs(awaiting_seq, &sources.responses.by_seq),
            _ => None,
        };
        let input = CursorSnapInput {
            pending: sources.session.pending_cursor_song_id.as_ref(),
            mode,
            plt_songs: &sources.playlist_tracks.songs,
            search_songs: &sources.search.songs,
            search_albums: &sources.search.albums,
            search_artists: &sources.search.artists,
            album_songs,
        };
        let desired = desired_cursor_snap(&input);
        cursor_snap_action(desired, &CursorMiddleInput { middle: sources.cursor.middle })
    };
    match action {
        CursorSnapAction::Noop => {},
        CursorSnapAction::SnapAndClear { row } => {
            sources.cursor.middle = row;
            sources.session.pending_cursor_song_id = None;
        },
        CursorSnapAction::ClearOnly => {
            sources.session.pending_cursor_song_id = None;
        },
    }
}

} // verus!
