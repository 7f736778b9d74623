//! Dispatch handlers: the one place UI events mutate user-decision
//! sources. Handlers that start driver work return the commands to
//! ship instead of shipping them.

use vstd::prelude::*;
use crate::persist::{LoadKey, LoadKeyModel, Persist, PersistCmd, SavedView, SavedViewModel};
use crate::proto::{search_type_text, Song};
use crate::queries::{album_detail_songs, search_type_str, spec_album_detail_songs};
use crate::state::history::{HistoryFrame, HistoryTransition, MiddleMode, UiHistory};
use crate::seqs::first_index;
use crate::proto::ClientMsg;
use crate::state::requests::{next_id, PendingRequest};
use crate::state::sources::Sources;
use crate::state::playlists::has_playlist_id;
use crate::state::ui::ColumnFocus;
use crate::proto::{search_type_of_text, SearchType};
use crate::queries::parse_search_type;
use crate::text::nonempty;
use crate::state::ui::ItemKind;

verus! {

/// Everything but the persist source is unchanged.
pub open spec fn same_except_persist(a: Sources, b: Sources) -> bool {
    Sources { persist: b.persist, ..a } == b
}

/// What issuing a load of `key` does to the sources: when it is already
/// in flight nothing changes; otherwise it joins the in-flight set and
/// nothing else moves.
pub open spec fn load_step(pre: Sources, post: Sources, key: LoadKeyModel, issued: bool) -> bool {
    if pre.persist.loads_in_flight.contents().contains(key) {
        !issued && post == pre
    } else {
        &&& issued
        &&& post.persist.loads_in_flight.contents() == pre.persist.loads_in_flight.contents().insert(key)
        &&& post.persist == (Persist { loads_in_flight: post.persist.loads_in_flight, ..pre.persist })
        &&& same_except_persist(pre, post)
    }
}

/// Marks `key` in flight unless it already is; says whether it did.
fn begin_load(sources: &mut Sources, key: LoadKey) -> (issued: bool)
    ensures
        load_step(*old(sources), *final(sources), key.model(), issued),
{
    if sources.persist.is_loading(&key) {
        return false;
    }
    sources.persist.loads_in_flight.insert(key);
    true
}

/// Issue a load of the last add-to-playlist target for `backend`,
/// unless that load is already in flight.
pub fn request_load_last_add_playlist(sources: &mut Sources, backend: String) -> (cmd: Option<PersistCmd>)
    ensures
        load_step(*old(sources), *final(sources), LoadKeyModel::LastAddPlaylist(backend@), cmd is Some),
        cmd matches Some(c) ==> (c matches PersistCmd::LoadLastAddPlaylist { backend: b } && b@ == backend@),
{
    if begin_load(sources, LoadKey::LastAddPlaylist(backend.clone())) {
        Some(PersistCmd::LoadLastAddPlaylist { backend })
    } else {
        None
    }
}

/// Issue a load of the saved view for `backend`, unless in flight.
pub fn request_load_view(sources: &mut Sources, backend: String) -> (cmd: Option<PersistCmd>)
    ensures
        load_step(*old(sources), *final(sources), LoadKeyModel::View(backend@), cmd is Some),
        cmd matches Some(c) ==> (c matches PersistCmd::LoadView { backend: b } && b@ == backend@),
{
    if begin_load(sources, LoadKey::View(backend.clone())) {
        Some(PersistCmd::LoadView { backend })
    } else {
        None
    }
}

/// Issue a load of the search history for `backend`, unless in flight.
pub fn request_load_search_history(sources: &mut Sources, backend: String) -> (cmd: Option<PersistCmd>)
    ensures
        load_step(*old(sources), *final(sources), LoadKeyModel::SearchHistory(backend@), cmd is Some),
        cmd matches Some(c) ==> (c matches PersistCmd::LoadSearchHistory { backend: b } && b@ == backend@),
{
    if begin_load(sources, LoadKey::SearchHistory(backend.clone())) {
        Some(PersistCmd::LoadSearchHistory { backend })
    } else {
        None
    }
}

/// The add request a deferred item turns into: a song or an album is
/// sent by id; an artist carries no ids.
pub open spec fn deferred_add_msg(kind: ItemKind, item_id: Seq<char>, playlist_id: Seq<char>, msg: ClientMsg) -> bool {
    msg matches ClientMsg::AddToPlaylist { playlist_id: p, song_ids, album_ids } && p@ == playlist_id && match kind {
        ItemKind::Song => song_ids@.len() == 1 && song_ids@[0]@ == item_id && album_ids@.len() == 0,
        ItemKind::Album => song_ids@.len() == 0 && album_ids@.len() == 1 && album_ids@[0]@ == item_id,
        ItemKind::Artist => song_ids@.len() == 0 && album_ids@.len() == 0,
    }
}

/// What firing the add that waited for a new playlist does.
pub open spec fn deferred_add_fired(pre: Sources, post: Sources, playlist_id: String) -> bool {
    &&& pre.picker.pending_create_add is None ==> post == pre
    &&& (pre.picker.pending_create_add matches Some(pending) ==> {
        let seq = next_id(pre.requests.last_seq);
        &&& post.picker.pending_create_add is None
        &&& post.picker.last_add_playlist matches Some(l) && l@ == playlist_id@
        &&& post.requests.pending@.len() == pre.requests.pending@.len() + 1
        &&& post.requests.pending@.drop_last() =~= pre.requests.pending@
        &&& post.requests.pending@.last().seq == seq
        &&& post.requests.pending@.last().task_id is None
        &&& deferred_add_msg(pending.item_kind, pending.item_id@, playlist_id@, post.requests.pending@.last().msg)
        &&& post.requests.last_seq == seq
        &&& post.requests.last_task == pre.requests.last_task
        &&& post.pending_playlists.adding@.drop_last() =~= pre.pending_playlists.adding@
        &&& post.pending_playlists.adding@.last().seq == seq
        &&& post.pending_playlists.adding@.last().playlist_id@ == playlist_id@
        &&& post.pending_playlists.adding@.len() == pre.pending_playlists.adding@.len() + 1
        &&& post.pending_playlists.creating@ == pre.pending_playlists.creating@
        &&& post.pending_playlists.deleting@ == pre.pending_playlists.deleting@
        &&& post.pending_playlists.renaming@ == pre.pending_playlists.renaming@
        &&& post.pending_playlists.removing@ == pre.pending_playlists.removing@
        &&& post == (Sources {
            picker: post.picker,
            requests: post.requests,
            pending_playlists: post.pending_playlists,
            ..pre
        })
    })
}

/// Fire the add that waited for its playlist to be created: take the
/// breadcrumb, queue the add, show it as in flight and remember the
/// playlist as the last add target. Without a breadcrumb nothing
/// happens.
pub fn fire_deferred_add_to_playlist(sources: &mut Sources, playlist_id: String)
    ensures
        deferred_add_fired(*old(sources), *final(sources), playlist_id),

{
    let pending = match sources.picker.pending_create_add.take() {
        None => return,
        Some(p) => p,
    };
    let mut song_ids: Vec<String> = Vec::new();
    let mut album_ids: Vec<String> = Vec::new();
    match pending.item_kind {
        ItemKind::Song => song_ids.push(pending.item_id),
        ItemKind::Album => album_ids.push(pending.item_id),
        ItemKind::Artist => {},
    }
    let seq = sources.requests.push(
        ClientMsg::AddToPlaylist { playlist_id: playlist_id.clone(), song_ids, album_ids },
        None,
    );
    sources.pending_playlists.add_adding(seq, playlist_id.clone());
    sources.picker.last_add_playlist = Some(playlist_id);
}

/// Id of the song at `i` of a list of loaded-or-pending rows, or empty.
pub open spec fn slot_song_id(rows: Seq<Option<Song>>, i: int) -> Seq<char> {
    if 0 <= i < rows.len() && rows[i] is Some { rows[i]->0.id@ } else { Seq::empty() }
}

/// Id of the song at `i` of a list of rows, or empty.
pub open spec fn row_song_id(rows: Seq<Song>, i: int) -> Seq<char> {
    if 0 <= i < rows.len() { rows[i].id@ } else { Seq::empty() }
}

/// The middle-pane location to save: which view, the cursor row and
/// the song under it. A playlist pane with no playlist open has none.
pub open spec fn spec_saved_view(s: Sources) -> Option<SavedViewModel> {
    let m = s.cursor.middle;
    match s.history.mode {
        MiddleMode::PlaylistSongs => match s.playlist_tracks.playlist_id {
            None => None,
            Some(pid) => Some(SavedViewModel::Playlist {
                playlist_id: pid@,
                selected: m,
                offset: 0,
                selected_id: slot_song_id(s.playlist_tracks.songs@, m as int),
            }),
        },
        MiddleMode::AlbumDetail { album_id, album_title, awaiting_seq } => Some(SavedViewModel::AlbumDetail {
            album_id: album_id@,
            album_name: album_title@,
            selected: m,
            offset: 0,
            selected_id: match spec_album_detail_songs(awaiting_seq, s.responses.by_seq@) {
                Some(songs) => row_song_id(songs, m as int),
                None => Seq::empty(),
            },
        }),
        MiddleMode::ArtistDetail { artist_id, artist_name, .. } => Some(SavedViewModel::ArtistDetail {
            artist_id: artist_id@,
            artist_name: artist_name@,
            selected: m,
            offset: 0,
        }),
        MiddleMode::SearchResults { term, search_type, .. } => Some(SavedViewModel::Search {
            query: term@,
            search_type: search_type_text(search_type),
            selected: m,
            offset: 0,
            selected_id: row_song_id(s.search.songs@, m as int),
        }),
    }
}

fn song_id_at(rows: &Vec<Song>, i: usize) -> (r: String)
    ensures
        r@ == row_song_id(rows@, i as int),
{
    if i < rows.len() { rows[i].id.clone() } else { String::new() }
}

pub fn build_saved_view(s: &Sources) -> (r: Option<SavedView>)
    ensures
        match r {
            Some(v) => spec_saved_view(*s) == Some(v.model()),
            None => spec_saved_view(*s) is None,
        },
{
    let m = s.cursor.middle;
    match &s.history.mode {
        MiddleMode::PlaylistSongs => {
            let pid = match &s.playlist_tracks.playlist_id {
                None => return None,
                Some(p) => p.clone(),
            };
            let song_id = if m < s.playlist_tracks.songs.len() {
                match &s.playlist_tracks.songs[m] {
                    Some(song) => song.id.clone(),
                    None => String::new(),
                }
            } else {
                String::new()
            };
            Some(SavedView::Playlist { playlist_id: pid, selected: m, offset: 0, selected_id: song_id })
        },
        MiddleMode::AlbumDetail { album_id, album_title, awaiting_seq } => {
            let song_id = match album_detail_songs(*awaiting_seq, &s.responses.by_seq) {
                Some(songs) => song_id_at(songs, m),
                None => String::new(),
            };
            Some(SavedView::AlbumDetail {
                album_id: album_id.clone(),
                album_name: album_title.clone(),
                selected: m,
                offset: 0,
                selected_id: song_id,
            })
        },
        MiddleMode::ArtistDetail { artist_id, artist_name, .. } => Some(SavedView::ArtistDetail {
            artist_id: artist_id.clone(),
            artist_name: artist_name.clone(),
            selected: m,
            offset: 0,
        }),
        MiddleMode::SearchResults { term, search_type, .. } => Some(SavedView::Search {
            query: term.clone(),
            search_type: search_type_str(*search_type).to_owned(),
            selected: m,
            offset: 0,
            selected_id: song_id_at(&s.search.songs, m),
        }),
    }
}

// ---------------------------------------------------------------------
// Opening a playlist and restoring a saved view
// ---------------------------------------------------------------------

/// `id` is open in the playlist pane: its rows are cleared and a
/// tracked `GetPlaylist` from the top is queued for it.
pub open spec fn playlist_opened(pre: Sources, post: Sources, id: String) -> bool {
    let t = next_id(pre.requests.last_task);
    let seq = next_id(pre.requests.last_seq);
    &&& post.requests.pending@ == pre.requests.pending@.push(
        PendingRequest { seq, task_id: Some(t), msg: ClientMsg::GetPlaylist { id, focus: 0 } },
    )
    &&& post.requests.last_seq == seq
    &&& post.requests.last_task == t
    &&& post.playlist_tracks.playlist_id == Some(id)
    &&& post.playlist_tracks.songs@.len() == 0
    &&& post.playlist_tracks.focus == 0
    &&& !post.playlist_tracks.stale
    &&& post.playlist_tracks.pending_task == Some(t)
}

/// Open `id` in the playlist pane and ask for its tracks.
pub fn view_playlist(sources: &mut Sources, id: String)
    ensures
        playlist_opened(*old(sources), *final(sources), id),
        *final(sources) == (Sources {
            requests: final(sources).requests,
            playlist_tracks: final(sources).playlist_tracks,
            ..*old(sources)
        }),
{
    sources.playlist_tracks.clear();
    sources.playlist_tracks.playlist_id = Some(id.clone());
    let task_id = sources.requests.alloc_task_id();
    sources.playlist_tracks.pending_task = Some(task_id);
    sources.requests.push(ClientMsg::GetPlaylist { id, focus: 0 }, Some(task_id));
}

/// `id` is open, shown in the middle pane with the cursor on top.
pub open spec fn first_opened(pre: Sources, post: Sources, id: String) -> bool {
    &&& playlist_opened(pre, post, id)
    &&& post.history == (crate::state::history::UiHistory { mode: MiddleMode::PlaylistSongs, ..pre.history })
    &&& post.cursor == (crate::state::ui::Cursor { middle: 0, ..pre.cursor })
    &&& post == (Sources {
        requests: post.requests,
        playlist_tracks: post.playlist_tracks,
        history: post.history,
        cursor: post.cursor,
        ..pre
    })
}

pub fn open_first_playlist(sources: &mut Sources, id: String)
    ensures
        first_opened(*old(sources), *final(sources), id),
{
    view_playlist(sources, id);
    sources.history.mode = MiddleMode::PlaylistSongs;
    sources.cursor.middle = 0;
}

/// The saved playlist view is back when the playlist still exists;
/// otherwise nothing changes.
pub open spec fn playlist_restored(pre: Sources, post: Sources, id: String, selected: usize, selected_id: Option<String>) -> bool {
    if !(exists|j: int| 0 <= j < pre.playlists.items@.len() && pre.playlists.items@[j].id@ == id@) {
        post == pre
    } else {
        &&& playlist_opened(pre, post, id)
        &&& post.history == (crate::state::history::UiHistory { mode: MiddleMode::PlaylistSongs, ..pre.history })
        &&& post.cursor == (crate::state::ui::Cursor { middle: selected, focus: ColumnFocus::Middle, ..pre.cursor })
        &&& post.session == (crate::state::session::UiSession { pending_cursor_song_id: selected_id, ..pre.session })
        &&& post == (Sources {
            requests: post.requests,
            playlist_tracks: post.playlist_tracks,
            history: post.history,
            cursor: post.cursor,
            session: post.session,
            ..pre
        })
    }
}

pub fn restore_saved_playlist(sources: &mut Sources, playlist_id: String, selected: usize, selected_id: Option<String>)
    ensures
        playlist_restored(*old(sources), *final(sources), playlist_id, selected, selected_id),
{
    if !has_playlist_id(&sources.playlists.items, &playlist_id) {
        return;
    }
    view_playlist(sources, playlist_id);
    sources.history.mode = MiddleMode::PlaylistSongs;
    sources.cursor.middle = selected;
    sources.session.pending_cursor_song_id = selected_id;
    sources.cursor.focus = ColumnFocus::Middle;
}

/// The album view is back, its detail requested.
pub open spec fn album_restored(
    pre: Sources,
    post: Sources,
    album_id: String,
    album_name: String,
    selected: usize,
    selected_id: Option<String>,
) -> bool {
    let seq = next_id(pre.requests.last_seq);
    &&& post.requests.pending@ == pre.requests.pending@.push(
        PendingRequest { seq, task_id: None, msg: ClientMsg::GetAlbumDetail { id: album_id } },
    )
    &&& post.requests.last_seq == seq
    &&& post.requests.last_task == pre.requests.last_task
    &&& post.history == (crate::state::history::UiHistory {
        mode: MiddleMode::AlbumDetail { album_id, album_title: album_name, awaiting_seq: Some(seq) },
        ..pre.history
    })
    &&& post.cursor == (crate::state::ui::Cursor { middle: selected, focus: ColumnFocus::Middle, ..pre.cursor })
    &&& post.session == (crate::state::session::UiSession { pending_cursor_song_id: selected_id, ..pre.session })
    &&& post == (Sources {
        requests: post.requests,
        history: post.history,
        cursor: post.cursor,
        session: post.session,
        ..pre
    })
}

pub fn restore_saved_album(
    sources: &mut Sources,
    album_id: String,
    album_name: String,
    selected: usize,
    selected_id: Option<String>,
)
    ensures
        album_restored(*old(sources), *final(sources), album_id, album_name, selected, selected_id),
{
    let seq = sources.requests.push(ClientMsg::GetAlbumDetail { id: album_id.clone() }, None);
    sources.history.mode = MiddleMode::AlbumDetail { album_id, album_title: album_name, awaiting_seq: Some(seq) };
    sources.cursor.middle = selected;
    sources.session.pending_cursor_song_id = selected_id;
    sources.cursor.focus = ColumnFocus::Middle;
}

/// The artist view is back, its detail requested.
pub open spec fn artist_restored(pre: Sources, post: Sources, artist_id: String, artist_name: String, selected: usize) -> bool {
    let seq = next_id(pre.requests.last_seq);
    &&& post.requests.pending@ == pre.requests.pending@.push(
        PendingRequest { seq, task_id: None, msg: ClientMsg::GetArtistDetail { id: artist_id } },
    )
    &&& post.requests.last_seq == seq
    &&& post.requests.last_task == pre.requests.last_task
    &&& post.history == (crate::state::history::UiHistory {
        mode: MiddleMode::ArtistDetail { artist_id, artist_name, awaiting_seq: Some(seq) },
        ..pre.history
    })
    &&& post.cursor == (crate::state::ui::Cursor { middle: selected, focus: ColumnFocus::Middle, ..pre.cursor })
    &&& post == (Sources { requests: post.requests, history: post.history, cursor: post.cursor, ..pre })
}

pub fn restore_saved_artist(sources: &mut Sources, artist_id: String, artist_name: String, selected: usize)
    ensures
        artist_restored(*old(sources), *final(sources), artist_id, artist_name, selected),
{
    let seq = sources.requests.push(ClientMsg::GetArtistDetail { id: artist_id.clone() }, None);
    sources.history.mode = MiddleMode::ArtistDetail { artist_id, artist_name, awaiting_seq: Some(seq) };
    sources.cursor.middle = selected;
    sources.cursor.focus = ColumnFocus::Middle;
}

/// The search is re-run under a fresh task and its results pane shown.
pub open spec fn search_restored(
    pre: Sources,
    post: Sources,
    query: String,
    search_type: SearchType,
    selected: usize,
    selected_id: Option<String>,
) -> bool {
    let t = next_id(pre.requests.last_task);
    let seq = next_id(pre.requests.last_seq);
    &&& post.requests.pending@ == pre.requests.pending@.push(
        PendingRequest { seq, task_id: Some(t), msg: ClientMsg::Search { term: query, search_type } },
    )
    &&& post.requests.last_seq == seq
    &&& post.requests.last_task == t
    &&& post.search.term@ == query@
    &&& post.search.search_type == search_type
    &&& post.search.task_id == Some(t)
    &&& post.search.songs@.len() == 0 && post.search.albums@.len() == 0 && post.search.artists@.len() == 0
    &&& !post.search.first_page_received && !post.search.empty_reopen_done && !post.search.stale
    &&& post.history == (crate::state::history::UiHistory {
        mode: MiddleMode::SearchResults { term: query, search_type, task_id: Some(t) },
        ..pre.history
    })
    &&& post.cursor == (crate::state::ui::Cursor { middle: selected, focus: ColumnFocus::Middle, ..pre.cursor })
    &&& post.session == (crate::state::session::UiSession {
        pending_cursor_song_id: if selected_id is Some { selected_id } else { pre.session.pending_cursor_song_id },
        ..pre.session
    })
    &&& post == (Sources {
        requests: post.requests,
        search: post.search,
        history: post.history,
        cursor: post.cursor,
        session: post.session,
        ..pre
    })
}

pub fn restore_saved_search(
    sources: &mut Sources,
    query: String,
    search_type: SearchType,
    selected: usize,
    selected_id: Option<String>,
)
    ensures
        search_restored(*old(sources), *final(sources), query, search_type, selected, selected_id),
{
    let task_id = sources.requests.alloc_task_id();
    sources.search.begin(task_id, query.clone(), search_type);
    sources.requests.push(ClientMsg::Search { term: query.clone(), search_type }, Some(task_id));
    sources.history.mode = MiddleMode::SearchResults { term: query, search_type, task_id: Some(task_id) };
    sources.cursor.middle = selected;
    if selected_id.is_some() {
        sources.session.pending_cursor_song_id = selected_id;
    }
    sources.cursor.focus = ColumnFocus::Middle;
}

/// `None` for empty text, the text itself otherwise.
pub open spec fn nonempty_of(s: String) -> Option<String> {
    if s@.len() == 0 { None } else { Some(s) }
}

/// What applying a saved view does: a playlist that no longer exists
/// falls back to the first playlist (if any); every other view is
/// restored as saved.
pub open spec fn saved_view_applied(pre: Sources, post: Sources, view: SavedView) -> bool {
    match view {
        SavedView::Playlist { playlist_id, selected, selected_id, .. } =>
            if !(exists|j: int| 0 <= j < pre.playlists.items@.len() && pre.playlists.items@[j].id@ == playlist_id@) {
                if pre.playlists.items@.len() > 0 {
                    first_opened(pre, post, pre.playlists.items@[0].id)
                } else {
                    post == pre
                }
            } else {
                playlist_restored(pre, post, playlist_id, selected, nonempty_of(selected_id))
            },
        SavedView::AlbumDetail { album_id, album_name, selected, selected_id, .. } =>
            album_restored(pre, post, album_id, album_name, selected, nonempty_of(selected_id)),
        SavedView::ArtistDetail { artist_id, artist_name, selected, .. } =>
            artist_restored(pre, post, artist_id, artist_name, selected),
        SavedView::Search { query, search_type, selected, selected_id, .. } =>
            search_restored(pre, post, query, search_type_of_text(search_type@), selected, nonempty_of(selected_id)),
    }
}

pub fn apply_saved_view(sources: &mut Sources, view: SavedView)
    ensures
        saved_view_applied(*old(sources), *final(sources), view),
{
    let missing = match &view {
        SavedView::Playlist { playlist_id, .. } => !has_playlist_id(&sources.playlists.items, playlist_id),
        _ => false,
    };
    if missing {
        if sources.playlists.items.len() > 0 {
            let first = sources.playlists.items[0].id.clone();
            open_first_playlist(sources, first);
        }
        return;
    }
    match view {
        SavedView::Playlist { playlist_id, selected, selected_id, .. } =>
            restore_saved_playlist(sources, playlist_id, selected, nonempty(selected_id)),
        SavedView::AlbumDetail { album_id, album_name, selected, selected_id, .. } =>
            restore_saved_album(sources, album_id, album_name, selected, nonempty(selected_id)),
        SavedView::ArtistDetail { artist_id, artist_name, selected, .. } =>
            restore_saved_artist(sources, artist_id, artist_name, selected),
        SavedView::Search { query, search_type, selected, selected_id, .. } => {
            let st = parse_search_type(search_type.as_str());
            restore_saved_search(sources, query, st, selected, nonempty(selected_id))
        },
    }
}

/// The row the middle cursor lands on for `target`, when the rows to
/// search have arrived: `Some(Some(row))` found, `Some(None)` searched
/// without a match, `None` not searchable yet. Artist detail is never
/// searched.
pub open spec fn spec_snap_row(s: Sources, target: Seq<char>) -> Option<Option<usize>> {
    use_first(match s.history.mode {
        MiddleMode::PlaylistSongs => if s.playlist_tracks.songs@.len() == 0 {
            None
        } else {
            Some(first_index(s.playlist_tracks.songs@, crate::lifecycle::cursor_snap::slot_is(target)))
        },
        MiddleMode::AlbumDetail { awaiting_seq, .. } => match spec_album_detail_songs(awaiting_seq, s.responses.by_seq@) {
            Some(songs) => Some(first_index(songs, crate::lifecycle::cursor_snap::song_is(target))),
            None => None,
        },
        MiddleMode::SearchResults { search_type, .. } => match search_type {
            SearchType::Song => if s.search.songs@.len() == 0 {
                None
            } else {
                Some(first_index(s.search.songs@, crate::lifecycle::cursor_snap::song_is(target)))
            },
            SearchType::Album => if s.search.albums@.len() == 0 {
                None
            } else {
                Some(first_index(s.search.albums@, crate::lifecycle::cursor_snap::album_is(target)))
            },
            SearchType::Artist => if s.search.artists@.len() == 0 {
                None
            } else {
                Some(first_index(s.search.artists@, crate::lifecycle::cursor_snap::artist_is(target)))
            },
        },
        MiddleMode::ArtistDetail { .. } => Some(None),
    })
}

/// A found position as a row.
pub open spec fn use_first(r: Option<Option<int>>) -> Option<Option<usize>> {
    match r {
        None => None,
        Some(None) => Some(None),
        Some(Some(i)) => Some(Some(i as usize)),
    }
}

fn found_row(d: crate::lifecycle::cursor_snap::DesiredCursorSnap) -> (r: Option<usize>)
    ensures
        d matches crate::lifecycle::cursor_snap::DesiredCursorSnap::Found { row } ==> r == Some(row),
        !(d is Found) ==> r is None,
{
    match d {
        crate::lifecycle::cursor_snap::DesiredCursorSnap::Found { row } => Some(row),
        _ => None,
    }
}

/// What landing the middle cursor on song `target` does.
pub open spec fn snapped_to_song(pre: Sources, post: Sources, target: String) -> bool {
    &&& (match spec_snap_row(pre, target@) {
        None => post == pre,
        Some(found) => post == (Sources {
            cursor: crate::state::ui::Cursor {
                middle: match found {
                    Some(row) => row,
                    None => pre.cursor.middle,
                },
                ..pre.cursor
            },
            session: crate::state::session::UiSession { pending_cursor_song_id: None, ..pre.session },
            ..pre
        }),
    })
}

/// Put the middle cursor on the row of song (or album, or artist)
/// `target` once the pane's rows are there, and forget the remembered
/// song; while they are not there, change nothing. A pane that cannot be
/// searched only forgets it.
pub fn snap_middle_cursor_to_song_id(sources: &mut Sources, target: String)
    ensures
        snapped_to_song(*old(sources), *final(sources), target),

{
    let found = match &sources.history.mode {
            MiddleMode::PlaylistSongs => {
                if sources.playlist_tracks.songs.len() == 0 {
                    None
                } else {
                    let d = crate::lifecycle::cursor_snap::find_row_in_optional_arc(&sources.playlist_tracks.songs, &target);
                    Some(found_row(d))
                }
            },
            MiddleMode::AlbumDetail { awaiting_seq, .. } => match album_detail_songs(*awaiting_seq, &sources.responses.by_seq) {
                Some(songs) => {
                    if songs.len() == 0 {
                        proof {
                            crate::seqs::lemma_none_index(songs@, crate::lifecycle::cursor_snap::song_is(target@));
                        }
                        Some(None)
                    } else {
                        Some(found_row(crate::lifecycle::cursor_snap::find_song_row(songs, &target)))
                    }
                },
                None => None,
            },
            MiddleMode::SearchResults { search_type, .. } => match search_type {
                SearchType::Song => if sources.search.songs.len() == 0 {
                    None
                } else {
                    Some(found_row(crate::lifecycle::cursor_snap::find_song_row(&sources.search.songs, &target)))
                },
                SearchType::Album => if sources.search.albums.len() == 0 {
                    None
                } else {
                    Some(found_row(crate::lifecycle::cursor_snap::find_album_row(&sources.search.albums, &target)))
                },
                SearchType::Artist => if sources.search.artists.len() == 0 {
                    None
                } else {
                    Some(found_row(crate::lifecycle::cursor_snap::find_artist_row(&sources.search.artists, &target)))
                },
            },
            MiddleMode::ArtistDetail { .. } => Some(None),
        };
    use_snap_result(sources, found);
}

fn use_snap_result(sources: &mut Sources, r: Option<Option<usize>>)
    ensures
        match r {
            None => *final(sources) == *old(sources),
            Some(found) => *final(sources) == (Sources {
                cursor: crate::state::ui::Cursor {
                    middle: match found {
                        Some(row) => row,
                        None => old(sources).cursor.middle,
                    },
                    ..old(sources).cursor
                },
                session: crate::state::session::UiSession { pending_cursor_song_id: None, ..old(sources).session },
                ..*old(sources)
            }),
        },
{
    match r {
        None => {},
        Some(found) => {
            if let Some(row) = found {
                sources.cursor.middle = row;
            }
            sources.session.pending_cursor_song_id = None;
        },
    }
}

// ---------------------------------------------------------------------
// Middle-pane history
// ---------------------------------------------------------------------

/// The live middle-pane location as a history frame.
pub open spec fn current_frame(s: Sources) -> HistoryFrame {
    HistoryFrame { mode: s.history.mode, filter: s.filter.middle, selected: s.cursor.middle }
}

/// The successor of a transition counter, wrapping at the top.
pub open spec fn seq_next(n: u64) -> u64 {
    if n == u64::MAX { 0 } else { (n + 1) as u64 }
}

/// `post` is `pre` after drilling into `new_mode`.
pub open spec fn drilled(pre: Sources, post: Sources, new_mode: MiddleMode) -> bool {
    &&& post.history == (UiHistory {
        mode: new_mode,
        back: post.history.back,
        forward: post.history.forward,
        last_transition: Some(HistoryTransition::Drill),
        transition_seq: seq_next(pre.history.transition_seq),
    })
    &&& post.history.back@ == pre.history.back@.push(current_frame(pre))
    &&& post.history.forward@.len() == 0
    &&& post.filter.middle@.len() == 0
    &&& post.filter.queue == pre.filter.queue
    &&& post.filter.playlist == pre.filter.playlist
    &&& post.cursor == (crate::state::ui::Cursor { middle: 0, focus: ColumnFocus::Middle, ..pre.cursor })
    &&& post == (Sources { history: post.history, filter: post.filter, cursor: post.cursor, ..pre })
}

/// Push the live location onto the back stack and show `new_mode`
/// with a fresh filter, the cursor on top and the focus on the middle
/// pane. Fresh navigation drops the forward stack.
pub fn history_drill(sources: &mut Sources, new_mode: MiddleMode)
    ensures
        drilled(*old(sources), *final(sources), new_mode),
{
    let mut mode = new_mode;
    std::mem::swap(&mut mode, &mut sources.history.mode);
    let mut filter = String::new();
    std::mem::swap(&mut filter, &mut sources.filter.middle);
    let selected = sources.cursor.middle;
    sources.cursor.middle = 0;
    sources.history.back.push(HistoryFrame { mode, filter, selected });
    sources.history.forward = Vec::new();
    sources.history.last_transition = Some(HistoryTransition::Drill);
    sources.history.transition_seq = sources.history.transition_seq.wrapping_add(1);
    sources.cursor.focus = ColumnFocus::Middle;
}

/// `post` is `pre` after one step back (`pre` has a back frame).
pub open spec fn stepped_back(pre: Sources, post: Sources) -> bool {
    let prev = pre.history.back@.last();
    &&& pre.history.back@.len() > 0
    &&& post.history.back@ == pre.history.back@.drop_last()
    &&& post.history.forward@ == pre.history.forward@.push(current_frame(pre))
    &&& post.history.mode == prev.mode
    &&& post.history.last_transition == Some(HistoryTransition::Back)
    &&& post.history.transition_seq == seq_next(pre.history.transition_seq)
    &&& post.filter == (crate::state::ui::UiFilter { middle: prev.filter, ..pre.filter })
    &&& post.cursor == (crate::state::ui::Cursor { middle: prev.selected, ..pre.cursor })
    &&& post == (Sources { history: post.history, filter: post.filter, cursor: post.cursor, ..pre })
}

/// Step one location back: the live location goes onto the forward
/// stack and the last back frame becomes live. Returns whether it
/// moved.
pub fn history_back(sources: &mut Sources) -> (moved: bool)
    ensures
        moved == (old(sources).history.back@.len() > 0),
        !moved ==> *final(sources) == *old(sources),
        moved ==> stepped_back(*old(sources), *final(sources)),
{
    if sources.history.back.len() == 0 {
        return false;
    }
    let prev = sources.history.back.pop().unwrap();
    let HistoryFrame { mode, filter, selected } = prev;
    let mut live_mode = mode;
    std::mem::swap(&mut live_mode, &mut sources.history.mode);
    let mut live_filter = filter;
    std::mem::swap(&mut live_filter, &mut sources.filter.middle);
    let live_selected = sources.cursor.middle;
    sources.history.forward.push(HistoryFrame { mode: live_mode, filter: live_filter, selected: live_selected });
    sources.cursor.middle = selected;
    sources.history.last_transition = Some(HistoryTransition::Back);
    sources.history.transition_seq = sources.history.transition_seq.wrapping_add(1);
    true
}

/// `post` is `pre` after one step forward (`pre` has a forward frame).
pub open spec fn stepped_forward(pre: Sources, post: Sources) -> bool {
    let next = pre.history.forward@.last();
    &&& pre.history.forward@.len() > 0
    &&& post.history.forward@ == pre.history.forward@.drop_last()
    &&& post.history.back@ == pre.history.back@.push(current_frame(pre))
    &&& post.history.mode == next.mode
    &&& post.history.last_transition == Some(HistoryTransition::Forward)
    &&& post.history.transition_seq == seq_next(pre.history.transition_seq)
    &&& post.filter == (crate::state::ui::UiFilter { middle: next.filter, ..pre.filter })
    &&& post.cursor == (crate::state::ui::Cursor { middle: next.selected, ..pre.cursor })
    &&& post == (Sources { history: post.history, filter: post.filter, cursor: post.cursor, ..pre })
}

/// Step one location forward again: the live location goes onto the
/// back stack and the last forward frame becomes live. Returns whether
/// it moved.
pub fn history_forward(sources: &mut Sources) -> (moved: bool)
    ensures
        moved == (old(sources).history.forward@.len() > 0),
        !moved ==> *final(sources) == *old(sources),
        moved ==> stepped_forward(*old(sources), *final(sources)),
{
    if sources.history.forward.len() == 0 {
        return false;
    }
    let next = sources.history.forward.pop().unwrap();
    let HistoryFrame { mode, filter, selected } = next;
    let mut live_mode = mode;
    std::mem::swap(&mut live_mode, &mut sources.history.mode);
    let mut live_filter = filter;
    std::mem::swap(&mut live_filter, &mut sources.filter.middle);
    let live_selected = sources.cursor.middle;
    sources.history.back.push(HistoryFrame { mode: live_mode, filter: live_filter, selected: live_selected });
    sources.cursor.middle = selected;
    sources.history.last_transition = Some(HistoryTransition::Forward);
    sources.history.transition_seq = sources.history.transition_seq.wrapping_add(1);
    true
}

// ---------------------------------------------------------------------
// Connecting and pairing
// ---------------------------------------------------------------------

/// A fresh, user-asked-for attempt: no leftover pairing, no earlier
/// error, no backoff, and unresolved probes run again.
pub open spec fn fresh_attempt(pre: Sources, post: Sources) -> bool {
    &&& post.pairing.is_reset()
    &&& post.link == (crate::state::link::Link { last_err: None, retry_at: None, retry_attempts: 0, ..pre.link })
    &&& post.probes.by_addr@ == pre.probes.by_addr@.filter(crate::state::probes::resolved())
}

/// What asking for a session with `server_name` does.
pub open spec fn connected_to(pre: Sources, post: Sources, server_name: String) -> bool {
    &&& fresh_attempt(pre, post)
    &&& post.intent == (crate::state::intent::Intent { target: Some(server_name), pair_target: None })
    &&& (post == (Sources {
        pairing: post.pairing,
        intent: post.intent,
        link: post.link,
        probes: post.probes,
        ..pre
    }))
}

/// Hold an authenticated session with `server_name`.
pub fn connect_to(sources: &mut Sources, server_name: String)
    ensures
        connected_to(*old(sources), *final(sources), server_name),

{
    sources.pairing = crate::state::pairing::Pairing::new();
    sources.intent.target = Some(server_name);
    sources.intent.pair_target = None;
    sources.link.last_err = None;
    sources.link.clear_retry();
    sources.probes.retry_unresolved();
}

/// What asking to pair with `server_name` does.
pub open spec fn pair_begun(pre: Sources, post: Sources, server_name: String) -> bool {
    &&& fresh_attempt(pre, post)
    &&& post.intent == (crate::state::intent::Intent { pair_target: Some(server_name), ..pre.intent })
    &&& (post == (Sources {
        pairing: post.pairing,
        intent: post.intent,
        link: post.link,
        probes: post.probes,
        ..pre
    }))
}

/// Pair with `server_name`.
pub fn begin_pair(sources: &mut Sources, server_name: String)
    ensures
        pair_begun(*old(sources), *final(sources), server_name),

{
    sources.pairing = crate::state::pairing::Pairing::new();
    sources.intent.pair_target = Some(server_name);
    sources.link.last_err = None;
    sources.link.clear_retry();
    sources.probes.retry_unresolved();
}

/// What confirming the pairing code does, and the command it sends.
pub open spec fn pair_confirmed(pre: Sources, post: Sources, cmd: Option<crate::link_driver::LinkCmd>) -> bool {
    &&& (pre.pairing.phase == crate::state::pairing::PairingPhase::AwaitingConfirmation ==> {
        &&& cmd matches Some(crate::link_driver::LinkCmd::ConfirmPair)
        &&& post == (Sources {
            pairing: crate::state::pairing::Pairing {
                phase: crate::state::pairing::PairingPhase::Confirming,
                ..pre.pairing
            },
            ..pre
        })
    })
    &&& (pre.pairing.phase != crate::state::pairing::PairingPhase::AwaitingConfirmation
        ==> cmd is None && post == pre)
}

/// The user confirmed the pairing code: only while a confirmation is
/// awaited does the pairing move on, with the confirmation to send.
pub fn confirm_pair(sources: &mut Sources) -> (cmd: Option<crate::link_driver::LinkCmd>)
    ensures
        pair_confirmed(*old(sources), *final(sources), cmd),

{
    if sources.pairing.phase == crate::state::pairing::PairingPhase::AwaitingConfirmation {
        sources.pairing.phase = crate::state::pairing::PairingPhase::Confirming;
        Some(crate::link_driver::LinkCmd::ConfirmPair)
    } else {
        None
    }
}

/// What rejecting the pairing does, and the command it sends.
pub open spec fn pair_rejected(pre: Sources, post: Sources, cmd: crate::link_driver::LinkCmd) -> bool {
    &&& cmd is RejectPair
    &&& post.pairing.is_reset()
    &&& post.intent == (crate::state::intent::Intent { pair_target: None, ..pre.intent })
    &&& post == (Sources { pairing: post.pairing, intent: post.intent, ..pre })
}

/// The user rejected the pairing: it is dropped, with the rejection to
/// send.
pub fn reject_pair(sources: &mut Sources) -> (cmd: crate::link_driver::LinkCmd)
    ensures
        pair_rejected(*old(sources), *final(sources), cmd),

{
    sources.pairing = crate::state::pairing::Pairing::new();
    sources.intent.pair_target = None;
    crate::link_driver::LinkCmd::RejectPair
}

/// What asking to disconnect does, and the command it sends.
pub open spec fn disconnected(pre: Sources, post: Sources, cmd: Option<crate::link_driver::LinkCmd>) -> bool {
    &&& post.intent == (crate::state::intent::Intent { target: None, ..pre.intent })
    &&& post == (Sources { intent: post.intent, ..pre })
    &&& ((pre.link.phase == crate::state::link::LinkPhase::Connected
        || pre.link.phase == crate::state::link::LinkPhase::Connecting) <==> cmd is Some)
    &&& (cmd matches Some(c) ==> c is Disconnect)
}

/// Drop the session target; an open or opening link is closed.
pub fn disconnect(sources: &mut Sources) -> (cmd: Option<crate::link_driver::LinkCmd>)
    ensures
        disconnected(*old(sources), *final(sources), cmd),

{
    sources.intent.target = None;
    match sources.link.phase {
        crate::state::link::LinkPhase::Connected | crate::state::link::LinkPhase::Connecting => {
            Some(crate::link_driver::LinkCmd::Disconnect)
        },
        _ => None,
    }
}

/// What forgetting a pairing does, and the commands it sends.
pub open spec fn forgotten(pre: Sources, post: Sources, fingerprint: String, cmds: (Option<crate::link_driver::LinkCmd>, crate::drivers::CredCmd)) -> bool {
    &&& cmds.1 matches crate::drivers::CredCmd::Delete { fingerprint: f } && f == fingerprint
    &&& (crate::text::opt_view(pre.intent.target) == Some(fingerprint@) ==> {
        &&& cmds.0 matches Some(c) && c is Disconnect
        &&& post == (Sources {
            intent: crate::state::intent::Intent { target: None, ..pre.intent },
            ..pre
        })
    })
    &&& (crate::text::opt_view(pre.intent.target) != Some(fingerprint@) ==> cmds.0 is None
        && post == pre)
}

/// Forget the stored pairing `fingerprint`: the credentials go, and a
/// session targeted by that name is dropped and its link closed.
pub fn forget(sources: &mut Sources, fingerprint: String) -> (cmds: (Option<crate::link_driver::LinkCmd>, crate::drivers::CredCmd))
    ensures
        forgotten(*old(sources), *final(sources), fingerprint, cmds),

{
    let hit = match &sources.intent.target {
        Some(t) => crate::text::text_eq(t, &fingerprint),
        None => false,
    };
    let link_cmd = if hit {
        sources.intent.target = None;
        Some(crate::link_driver::LinkCmd::Disconnect)
    } else {
        None
    };
    (link_cmd, crate::drivers::CredCmd::Delete { fingerprint })
}

} // verus!
