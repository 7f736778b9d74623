//! The action menu opened on a row: its cursor, and what each menu key
//! does to the row it was opened on.

use vstd::prelude::*;
use crate::dispatch::{drilled, history_drill};
use crate::panes::{remove_queue_entry, removal_of, sent};
use crate::proto::{ClientMsg, MediaKind, NavigateTarget, QueuePosition};
use crate::proto::{Album, Artist, SearchType, Song};
use crate::queries::{
    album_detail_songs, artist_detail_item, middle_filtered_indices, queue_filtered_indices, spec_album_detail_songs,
    spec_artist_item, spec_middle_indices, spec_queue_indices, ArtistDetailItem,
};
use crate::state::ui::{ColumnFocus, Cursor};
use crate::seqs::{first_index, key_is};
use crate::state::history::MiddleMode;
use crate::state::playlists::{find_playlist_id, playlist_key};
use crate::state::requests::queued;
use crate::state::sources::Sources;
use crate::state::ui::{ActionItem, ActionKind, ActionModalState, ActionOrigin, Screen};
use crate::server_picker::{wrap_down, wrap_down_row, wrap_up};

verus! {

/// What a play request of an item of kind `k` names: songs and albums
/// play as themselves; an artist is not playable.
pub open spec fn media_of(k: ActionKind) -> Option<MediaKind> {
    match k {
        ActionKind::Song => Some(MediaKind::Song),
        ActionKind::Album => Some(MediaKind::Album),
        ActionKind::Artist => None,
    }
}

pub fn to_media(k: ActionKind) -> (r: Option<MediaKind>)
    ensures
        r == media_of(k),
{
    match k {
        ActionKind::Song => Some(MediaKind::Song),
        ActionKind::Album => Some(MediaKind::Album),
        ActionKind::Artist => None,
    }
}

/// `s` with the action menu's highlight at `row`.
pub open spec fn with_menu_row(s: Sources, row: usize) -> Sources {
    match s.screen {
        Screen::ActionModal(st) => Sources { screen: Screen::ActionModal(ActionModalState { selected: row, ..st }), ..s },
        _ => s,
    }
}

/// What `action_modal_cursor_up` does to the sources.
pub open spec fn action_modal_cursor_up_effect(pre: Sources, post: Sources, n: usize) -> bool {
    &&& ((pre.screen is ActionModal && n > 0) ==> post == with_menu_row(
        pre,
        wrap_up(pre.screen->ActionModal_0.selected, n),
    ))
    &&& (!(pre.screen is ActionModal && n > 0) ==> post == pre)
}

/// Up in an action menu of `n` entries, wrapping to the bottom.
pub fn action_modal_cursor_up(sources: &mut Sources, n: usize)
    ensures
        action_modal_cursor_up_effect(*old(sources), *final(sources), n),
{
    if n == 0 {
        return;
    }
    if let Screen::ActionModal(st) = &mut sources.screen {
        st.selected = if st.selected == 0 { n - 1 } else { st.selected - 1 };
    }
}

/// What `action_modal_cursor_down` does to the sources.
pub open spec fn action_modal_cursor_down_effect(pre: Sources, post: Sources, n: usize) -> bool {
    &&& ((pre.screen is ActionModal && n > 0) ==> post == with_menu_row(
        pre,
        wrap_down(pre.screen->ActionModal_0.selected, n),
    ))
    &&& (!(pre.screen is ActionModal && n > 0) ==> post == pre)
}

/// Down in an action menu of `n` entries, wrapping to the top.
pub fn action_modal_cursor_down(sources: &mut Sources, n: usize)
    ensures
        action_modal_cursor_down_effect(*old(sources), *final(sources), n),
{
    if n == 0 {
        return;
    }
    if let Screen::ActionModal(st) = &mut sources.screen {
        st.selected = wrap_down_row(st.selected, n);
    }
}

/// The title a drilled view shows while its detail loads: the known
/// label, or `fallback`.
pub open spec fn title_or(label: Option<String>, fallback: Seq<char>) -> Seq<char> {
    match label {
        Some(l) => l@,
        None => fallback,
    }
}

fn label_or(label: &Option<String>, fallback: &str) -> (r: String)
    ensures
        r@ == title_or(*label, fallback@),
{
    match label {
        Some(l) => l.clone(),
        None => fallback.to_owned(),
    }
}

/// A detail drill: `req` was queued, and the middle pane drilled into
/// `mode_of(seq)` where `seq` is the request's seq.
pub open spec fn drilled_after(pre: Sources, post: Sources, req: ClientMsg, mode: MiddleMode) -> bool {
    let mid = Sources { requests: post.requests, ..pre };
    &&& queued(pre.requests, post.requests, req, None)
    &&& drilled(mid, post, mode)
}

/// Go to the artist (`q`) or album (`w`) of `item`: by its known id, or
/// for a song by asking the server to resolve it; otherwise nothing.
pub open spec fn went_to(pre: Sources, post: Sources, item: ActionItem, artist: bool) -> bool {
    let known = if artist { item.artist_id } else { item.album_id };
    let title = if artist { title_or(item.artist_label, "Artist"@) } else { title_or(item.album_title, "Album"@) };
    let seq = crate::state::requests::next_id(pre.requests.last_seq);
    match known {
        Some(id) => {
            let req = if artist { ClientMsg::GetArtistDetail { id } } else { ClientMsg::GetAlbumDetail { id } };
            &&& drilled_after(pre, post, req, post.history.mode)
            &&& if artist {
                post.history.mode matches MiddleMode::ArtistDetail { artist_id, artist_name, awaiting_seq }
                    && artist_id == id && artist_name@ == title && awaiting_seq == Some(seq)
            } else {
                post.history.mode matches MiddleMode::AlbumDetail { album_id, album_title, awaiting_seq }
                    && album_id == id && album_title@ == title && awaiting_seq == Some(seq)
            }
        },
        None => if item.kind == ActionKind::Song {
            let target = if artist { NavigateTarget::Artist } else { NavigateTarget::Album };
            &&& drilled_after(pre, post, ClientMsg::Navigate { target, song_id: item.id }, post.history.mode)
            &&& if artist {
                post.history.mode matches MiddleMode::ArtistDetail { artist_id, artist_name, awaiting_seq }
                    && artist_id@.len() == 0 && artist_name@ == title && awaiting_seq == Some(seq)
            } else {
                post.history.mode matches MiddleMode::AlbumDetail { album_id, album_title, awaiting_seq }
                    && album_id@.len() == 0 && album_title@ == title && awaiting_seq == Some(seq)
            }
        } else {
            post == pre
        },
    }
}

/// What menu key `choice` does to `item`, and the screen that follows
/// (`None`: back to the main screen).
pub open spec fn action_chosen(pre: Sources, post: Sources, choice: char, item: ActionItem, next: Option<Screen>) -> bool {
    if choice == 'n' || choice == 'e' {
        &&& next is None
        &&& match media_of(item.kind) {
            Some(kind) => sent(pre, post, ClientMsg::Play {
                id: item.id,
                kind,
                position: if choice == 'n' { QueuePosition::Next } else { QueuePosition::Last },
                start_index: None,
            }),
            None => post == pre,
        }
    } else if choice == 'a' {
        next == Some(Screen::PlaylistPicker { item, selected: 0 }) && post == pre
    } else if choice == 'q' || choice == 'w' {
        next is None && went_to(pre, post, item, choice == 'q')
    } else if choice == 'd' {
        match item.origin {
            ActionOrigin::PlaylistSongs => post == pre && match (item.playlist_id, item.view_index) {
                (Some(pid), Some(idx)) => next == Some(
                    Screen::ConfirmRemoveFromPlaylist { playlist_id: pid, song_index: idx, song_title: item.label },
                ),
                _ => next is None,
            },
            ActionOrigin::Queue => next is None && {
                let rows = spec_queue_indices(pre);
                let c = pre.cursor.queue as int;
                if c < rows.len() {
                    match removal_of(pre, rows[c] as int) {
                        Some(m) => sent(pre, post, m),
                        None => post == pre,
                    }
                } else {
                    post == pre
                }
            },
            ActionOrigin::OtherMiddle => next is None && post == pre,
        }
    } else {
        next is None && post == pre
    }
}

fn go_to(sources: &mut Sources, item: &ActionItem, artist: bool)
    ensures
        went_to(*old(sources), *final(sources), *item, artist),
{
    let known = if artist { &item.artist_id } else { &item.album_id };
    let title = if artist { label_or(&item.artist_label, "Artist") } else { label_or(&item.album_title, "Album") };
    let target = if artist { NavigateTarget::Artist } else { NavigateTarget::Album };
    let (id, seq) = match known {
        Some(id) => {
            let req = if artist {
                ClientMsg::GetArtistDetail { id: id.clone() }
            } else {
                ClientMsg::GetAlbumDetail { id: id.clone() }
            };
            (id.clone(), sources.requests.push(req, None))
        },
        None => {
            if item.kind != ActionKind::Song {
                return;
            }
            let seq = sources.requests.push(ClientMsg::Navigate { target, song_id: item.id.clone() }, None);
            (String::new(), seq)
        },
    };
    let mode = if artist {
        MiddleMode::ArtistDetail { artist_id: id, artist_name: title, awaiting_seq: Some(seq) }
    } else {
        MiddleMode::AlbumDetail { album_id: id, album_title: title, awaiting_seq: Some(seq) }
    };
    history_drill(sources, mode);
}

/// Apply action-menu key `choice` to `item`; returns the screen to
/// show next, or `None` to go back to the main screen.
pub fn dispatch_action_choice_inner(sources: &mut Sources, choice: char, item: &ActionItem) -> (next: Option<Screen>)
    ensures
        action_chosen(*old(sources), *final(sources), choice, *item, next),
{
    if choice == 'n' || choice == 'e' {
        if let Some(kind) = to_media(item.kind) {
            let position = if choice == 'n' { QueuePosition::Next } else { QueuePosition::Last };
            sources.requests.push(ClientMsg::Play { id: item.id.clone(), kind, position, start_index: None }, None);
        }
        None
    } else if choice == 'a' {
        Some(Screen::PlaylistPicker { item: item.duplicate(), selected: 0 })
    } else if choice == 'q' || choice == 'w' {
        go_to(sources, item, choice == 'q');
        None
    } else if choice == 'd' {
        match item.origin {
            ActionOrigin::PlaylistSongs => match (&item.playlist_id, item.view_index) {
                (Some(pid), Some(idx)) => Some(
                    Screen::ConfirmRemoveFromPlaylist {
                        playlist_id: pid.clone(),
                        song_index: idx,
                        song_title: item.label.clone(),
                    },
                ),
                _ => None,
            },
            ActionOrigin::Queue => {
                let rows = queue_filtered_indices(sources);
                if sources.cursor.queue < rows.len() {
                    let index = rows[sources.cursor.queue];
                    remove_queue_entry(sources, index);
                }
                None
            },
            ActionOrigin::OtherMiddle => None,
        }
    } else {
        None
    }
}

/// A playlist picker opens on the playlist last added to on this
/// backend, when it is still listed; any other screen is unchanged.
pub open spec fn preselected(screen: Screen, s: Sources) -> Screen {
    match screen {
        Screen::PlaylistPicker { item, selected } => match s.picker.last_add_playlist {
            Some(last) => match first_index(s.playlists.items@, key_is(playlist_key(), last@)) {
                Some(pos) => Screen::PlaylistPicker { item, selected: pos as usize },
                None => Screen::PlaylistPicker { item, selected },
            },
            None => Screen::PlaylistPicker { item, selected },
        },
        other => other,
    }
}

pub fn preselect_picker(screen: Screen, sources: &Sources) -> (r: Screen)
    ensures
        r == preselected(screen, *sources),
{
    match screen {
        Screen::PlaylistPicker { item, selected } => {
            let pos = match &sources.picker.last_add_playlist {
                Some(last) => find_playlist_id(&sources.playlists.items, last),
                None => None,
            };
            match pos {
                Some(p) => Screen::PlaylistPicker { item, selected: p },
                None => Screen::PlaylistPicker { item, selected },
            }
        },
        other => other,
    }
}

/// What `apply_action_choice` does to the sources.
pub open spec fn apply_action_choice_effect(pre: Sources, post: Sources, choice: char, offered: bool) -> bool {
    &&& ((pre.screen is ActionModal && offered) ==> {
        let item = pre.screen->ActionModal_0.item;
        exists|mid: Sources, next: Option<Screen>| {
            &&& action_chosen(pre, mid, choice, item, next)
            &&& post == (Sources {
                screen: match next {
                    Some(s) => preselected(s, mid),
                    None => Screen::NowPlaying,
                },
                ..mid
            })
        }
    })
    &&& (!(pre.screen is ActionModal && offered) ==> post == pre)
}

/// Menu key `choice` on the action menu: when the menu offers it
/// (`offered`, as the menu answers), it is applied to the menu's row
/// and the screen becomes what follows, with a playlist picker
/// preselected; otherwise nothing happens.
pub fn apply_action_choice(sources: &mut Sources, choice: char, offered: bool)
    ensures
        apply_action_choice_effect(*old(sources), *final(sources), choice, offered),
{
    let item = match &sources.screen {
        Screen::ActionModal(st) => st.item.duplicate(),
        _ => return,
    };
    if !offered {
        return;
    }
    let next = dispatch_action_choice_inner(sources, choice, &item);
    let ghost mid = *sources;
    sources.screen = match next {
        Some(s) => preselect_picker(s, sources),
        None => Screen::NowPlaying,
    };
    assert(action_chosen(*old(sources), mid, choice, item, next));
}

// ---------------------------------------------------------------------
// The row a menu opens on
// ---------------------------------------------------------------------

/// The menu row of a song: going to its album or artist is resolved by
/// the server, so only their names are known.
pub open spec fn song_item(s: Song) -> ActionItem {
    ActionItem {
        id: s.id,
        kind: ActionKind::Song,
        label: s.title,
        album_id: None,
        album_title: Some(s.album_title),
        artist_id: None,
        artist_label: Some(s.artist_name),
        playlist_id: None,
        view_index: None,
        origin: ActionOrigin::OtherMiddle,
    }
}

/// The menu row of an album.
pub open spec fn album_item(a: Album) -> ActionItem {
    ActionItem {
        id: a.id,
        kind: ActionKind::Album,
        label: a.name,
        album_id: Some(a.id),
        album_title: Some(a.name),
        artist_id: Some(a.artist_id),
        artist_label: Some(a.artist_name),
        playlist_id: None,
        view_index: None,
        origin: ActionOrigin::OtherMiddle,
    }
}

/// The menu row of an artist.
pub open spec fn artist_item(a: Artist) -> ActionItem {
    ActionItem {
        id: a.id,
        kind: ActionKind::Artist,
        label: a.name,
        album_id: None,
        album_title: None,
        artist_id: Some(a.id),
        artist_label: Some(a.name),
        playlist_id: None,
        view_index: None,
        origin: ActionOrigin::OtherMiddle,
    }
}

pub fn action_item_for_song(s: &Song) -> (r: ActionItem)
    ensures
        r == song_item(*s),
{
    ActionItem {
        id: s.id.clone(),
        kind: ActionKind::Song,
        label: s.title.clone(),
        album_id: None,
        album_title: Some(s.album_title.clone()),
        artist_id: None,
        artist_label: Some(s.artist_name.clone()),
        playlist_id: None,
        view_index: None,
        origin: ActionOrigin::OtherMiddle,
    }
}

fn action_item_for_album(a: &Album) -> (r: ActionItem)
    ensures
        r == album_item(*a),
{
    ActionItem {
        id: a.id.clone(),
        kind: ActionKind::Album,
        label: a.name.clone(),
        album_id: Some(a.id.clone()),
        album_title: Some(a.name.clone()),
        artist_id: Some(a.artist_id.clone()),
        artist_label: Some(a.artist_name.clone()),
        playlist_id: None,
        view_index: None,
        origin: ActionOrigin::OtherMiddle,
    }
}

fn action_item_for_artist(a: &Artist) -> (r: ActionItem)
    ensures
        r == artist_item(*a),
{
    ActionItem {
        id: a.id.clone(),
        kind: ActionKind::Artist,
        label: a.name.clone(),
        album_id: None,
        album_title: None,
        artist_id: Some(a.id.clone()),
        artist_label: Some(a.name.clone()),
        playlist_id: None,
        view_index: None,
        origin: ActionOrigin::OtherMiddle,
    }
}

/// The menu row of the highlighted queue row.
pub open spec fn spec_queue_action_item(s: Sources) -> Option<ActionItem> {
    let rows = spec_queue_indices(s);
    let c = s.cursor.queue as int;
    if c < rows.len() && (rows[c] as int) < s.queue.items@.len() {
        Some(ActionItem { origin: ActionOrigin::Queue, ..song_item(s.queue.items@[rows[c] as int]) })
    } else {
        None
    }
}

pub fn current_queue_action_item(s: &Sources) -> (r: Option<ActionItem>)
    ensures
        r == spec_queue_action_item(*s),
{
    let rows = queue_filtered_indices(s);
    if s.cursor.queue < rows.len() && rows[s.cursor.queue] < s.queue.items.len() {
        let mut item = action_item_for_song(&s.queue.items[rows[s.cursor.queue]]);
        item.origin = ActionOrigin::Queue;
        Some(item)
    } else {
        None
    }
}

/// The menu row of the highlighted middle row: a song, album or
/// artist; a loaded playlist's song also carries the playlist and its
/// position there.
pub open spec fn spec_middle_action_item(s: Sources) -> Option<ActionItem> {
    let rows = spec_middle_indices(s);
    let c = s.cursor.middle as int;
    if c < rows.len() {
        let o = rows[c] as int;
        match s.history.mode {
            MiddleMode::PlaylistSongs => if o < s.playlist_tracks.songs@.len() {
                match s.playlist_tracks.songs@[o] {
                    Some(song) => Some(match s.playlist_tracks.playlist_id {
                        Some(pid) => ActionItem {
                            playlist_id: Some(pid),
                            view_index: Some(o as usize),
                            origin: ActionOrigin::PlaylistSongs,
                            ..song_item(song)
                        },
                        None => song_item(song),
                    }),
                    None => None,
                }
            } else {
                None
            },
            MiddleMode::AlbumDetail { awaiting_seq, .. } => match spec_album_detail_songs(awaiting_seq, s.responses.by_seq@) {
                Some(v) => if o < v.len() { Some(song_item(v[o])) } else { None },
                None => None,
            },
            MiddleMode::ArtistDetail { awaiting_seq, .. } => match spec_artist_item(
                awaiting_seq,
                s.responses.by_seq@,
                s.artist_extras,
                o,
            ) {
                Some(ArtistDetailItem::Song(x)) => Some(song_item(x)),
                Some(ArtistDetailItem::Album(a)) => Some(album_item(a)),
                Some(ArtistDetailItem::Artist(a)) => Some(artist_item(a)),
                None => None,
            },
            MiddleMode::SearchResults { search_type, .. } => match search_type {
                SearchType::Song => if o < s.search.songs@.len() { Some(song_item(s.search.songs@[o])) } else { None },
                SearchType::Album => if o < s.search.albums@.len() { Some(album_item(s.search.albums@[o])) } else { None },
                SearchType::Artist => if o < s.search.artists@.len() {
                    Some(artist_item(s.search.artists@[o]))
                } else {
                    None
                },
            },
        }
    } else {
        None
    }
}

pub fn current_middle_action_item(s: &Sources) -> (r: Option<ActionItem>)
    ensures
        r == spec_middle_action_item(*s),
{
    let rows = middle_filtered_indices(s);
    if s.cursor.middle >= rows.len() {
        return None;
    }
    let o = rows[s.cursor.middle];
    match &s.history.mode {
        MiddleMode::PlaylistSongs => {
            if o >= s.playlist_tracks.songs.len() {
                return None;
            }
            match &s.playlist_tracks.songs[o] {
                Some(song) => {
                    let mut item = action_item_for_song(song);
                    if let Some(pid) = &s.playlist_tracks.playlist_id {
                        item.playlist_id = Some(pid.clone());
                        item.view_index = Some(o);
                        item.origin = ActionOrigin::PlaylistSongs;
                    }
                    Some(item)
                },
                None => None,
            }
        },
        MiddleMode::AlbumDetail { awaiting_seq, .. } => match album_detail_songs(*awaiting_seq, &s.responses.by_seq) {
            Some(v) => if o < v.len() { Some(action_item_for_song(&v[o])) } else { None },
            None => None,
        },
        MiddleMode::ArtistDetail { awaiting_seq, .. } => match artist_detail_item(
            *awaiting_seq,
            &s.responses.by_seq,
            &s.artist_extras,
            o,
        ) {
            Some(ArtistDetailItem::Song(x)) => Some(action_item_for_song(&x)),
            Some(ArtistDetailItem::Album(a)) => Some(action_item_for_album(&a)),
            Some(ArtistDetailItem::Artist(a)) => Some(action_item_for_artist(&a)),
            None => None,
        },
        MiddleMode::SearchResults { search_type, .. } => match search_type {
            SearchType::Song => if o < s.search.songs.len() { Some(action_item_for_song(&s.search.songs[o])) } else { None },
            SearchType::Album => if o < s.search.albums.len() {
                Some(action_item_for_album(&s.search.albums[o]))
            } else {
                None
            },
            SearchType::Artist => if o < s.search.artists.len() {
                Some(action_item_for_artist(&s.search.artists[o]))
            } else {
                None
            },
        },
    }
}

/// The action menu on `item`, first entry highlighted.
pub open spec fn menu_on(item: ActionItem) -> Screen {
    Screen::ActionModal(ActionModalState { item, selected: 0 })
}

/// What `middle_open_action` does to the sources.
pub open spec fn middle_open_action_effect(pre: Sources, post: Sources) -> bool {
    &&& (match spec_middle_action_item(pre) {
        Some(item) => post == (Sources { screen: menu_on(item), ..pre }),
        None => post == pre,
    })
}

/// Tab on the middle column: the menu of the highlighted row.
pub fn middle_open_action(sources: &mut Sources)
    ensures
        middle_open_action_effect(*old(sources), *final(sources)),
{
    if let Some(item) = current_middle_action_item(sources) {
        sources.screen = Screen::ActionModal(ActionModalState { item, selected: 0 });
    }
}

/// What `queue_open_action` does to the sources.
pub open spec fn queue_open_action_effect(pre: Sources, post: Sources) -> bool {
    &&& (match spec_queue_action_item(pre) {
        Some(item) => post == (Sources { screen: menu_on(item), ..pre }),
        None => post == pre,
    })
}

/// Tab on the queue column: the menu of the highlighted row.
pub fn queue_open_action(sources: &mut Sources)
    ensures
        queue_open_action_effect(*old(sources), *final(sources)),
{
    if let Some(item) = current_queue_action_item(sources) {
        sources.screen = Screen::ActionModal(ActionModalState { item, selected: 0 });
    }
}

/// What `open_action_menu_or_cycle` does to the sources.
pub open spec fn open_action_menu_or_cycle_effect(pre: Sources, post: Sources) -> bool {
    &&& (({
        let pre = pre;
        let opened = match pre.cursor.focus {
            ColumnFocus::Left => {
                let left = pre.cursor.left as int;
                if 1 <= left <= crate::panes::playlist_rows(pre) {
                    match crate::queries::listed_playlist(pre, pre.filter.playlist@, left - 1) {
                        Some(p) => Some(Screen::PlaylistAction { playlist_id: p.id, playlist_name: p.name, selected: 0 }),
                        None => None,
                    }
                } else {
                    None
                }
            },
            ColumnFocus::Middle => match spec_middle_action_item(pre) {
                Some(item) => Some(menu_on(item)),
                None => None,
            },
            ColumnFocus::Queue => match spec_queue_action_item(pre) {
                Some(item) => Some(menu_on(item)),
                None => None,
            },
        };
        match opened {
            Some(screen) => post == (Sources { screen, ..pre }),
            None => {
                let mid = Sources {
                    cursor: Cursor { focus: crate::state::ui::focus_after(pre.cursor.focus), ..pre.cursor },
                    ..pre
                };
                &&& (mid.cursor.focus == ColumnFocus::Queue && mid.queue.current_index is Some) ==> post
                    == crate::panes::with_queue(
                    mid,
                    crate::panes::current_row(spec_queue_indices(mid), mid.queue.current_index->0),
                )
                &&& !(mid.cursor.focus == ColumnFocus::Queue && mid.queue.current_index is Some) ==> post == mid
            },
        }
    }))
}

/// Tab on the main screen: the menu of the focused column's row (the
/// rename / delete choice for a listed playlist); with no menu there,
/// focus moves on instead.
pub fn open_action_menu_or_cycle(sources: &mut Sources)
    ensures
        open_action_menu_or_cycle_effect(*old(sources), *final(sources)),
{
    let opened = match sources.cursor.focus {
        ColumnFocus::Left => {
            let n = crate::queries::filtered_playlist_count(sources, &sources.filter.playlist);
            let left = sources.cursor.left;
            if 1 <= left && left <= n {
                match crate::queries::filtered_playlist(sources, &sources.filter.playlist, left - 1) {
                    Some((playlist_id, playlist_name)) => {
                        sources.screen = Screen::PlaylistAction { playlist_id, playlist_name, selected: 0 };
                        true
                    },
                    None => false,
                }
            } else {
                false
            }
        },
        ColumnFocus::Middle => match current_middle_action_item(sources) {
            Some(item) => {
                sources.screen = Screen::ActionModal(ActionModalState { item, selected: 0 });
                true
            },
            None => false,
        },
        ColumnFocus::Queue => match current_queue_action_item(sources) {
            Some(item) => {
                sources.screen = Screen::ActionModal(ActionModalState { item, selected: 0 });
                true
            },
            None => false,
        },
    };
    if !opened {
        crate::panes::cycle_focus_forward(sources);
    }
}

} // verus!
