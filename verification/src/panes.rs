//! Handlers of the three columns and the transport keys: cursor moves,
//! activation of the highlighted row, and the play / pause, skip,
//! seek and repeat requests.

use vstd::prelude::*;
use crate::dispatch::{drilled, history_drill};
use crate::proto::{ClientMsg, MediaKind, QueuePosition, RepeatMode, SearchType};
use crate::proto::Song;
use crate::dispatch::{playlist_opened, view_playlist};
use crate::queries::{
    filtered_playlist, listed_playlist, selected_playlist_id,
    album_detail_songs, artist_detail_item, filtered_playlist_count, middle_filtered_indices, queue_filtered_indices,
    spec_album_detail_songs, spec_artist_item, spec_filtered_playlist_count, spec_middle_indices, spec_queue_indices,
    ArtistDetailItem,
};
use crate::state::link::sat_add;
use crate::state::discovery::{find_first_name, find_server, lemma_first_is_find, lemma_none_is_find};
use crate::state::ui::{ColumnFocus, Cursor, FilterState, FilterTarget, Screen, UiFilter, UiPreview};
use crate::state::history::MiddleMode;
use crate::state::requests::queued;
use crate::state::sources::Sources;

verus! {

/// Only the request queue changed.
pub open spec fn only_requests(pre: Sources, post: Sources) -> bool {
    post == (Sources { requests: post.requests, ..pre })
}

/// `msg` was queued and nothing else changed.
pub open spec fn sent(pre: Sources, post: Sources, msg: ClientMsg) -> bool {
    &&& queued(pre.requests, post.requests, msg, None)
    &&& only_requests(pre, post)
}

// ---------------------------------------------------------------------
// Transport
// ---------------------------------------------------------------------

/// The player reports that it is playing.
pub open spec fn is_playing(s: Sources) -> bool {
    s.server.play matches Some(p) && p.playing
}

/// What `toggle_play_pause` does to the sources.
pub open spec fn toggle_play_pause_effect(pre: Sources, post: Sources) -> bool {
    &&& (sent(pre, post, ClientMsg::SetPaused { paused: is_playing(pre) }))
}

/// Pause when playing, resume otherwise.
pub fn toggle_play_pause(sources: &mut Sources)
    ensures
        toggle_play_pause_effect(*old(sources), *final(sources)),
{
    let playing = match &sources.server.play {
        Some(p) => p.playing,
        None => false,
    };
    sources.requests.push(ClientMsg::SetPaused { paused: playing }, None);
}

pub fn skip_next(sources: &mut Sources)
    ensures
        sent(*old(sources), *final(sources), ClientMsg::Skip),
{
    sources.requests.push(ClientMsg::Skip, None);
}

pub fn skip_previous(sources: &mut Sources)
    ensures
        sent(*old(sources), *final(sources), ClientMsg::Previous),
{
    sources.requests.push(ClientMsg::Previous, None);
}

/// Seek by `offset_ms` from the current position.
pub fn seek_relative(sources: &mut Sources, offset_ms: i64)
    ensures
        sent(*old(sources), *final(sources), ClientMsg::SeekRelative { offset_ms }),
{
    sources.requests.push(ClientMsg::SeekRelative { offset_ms }, None);
}

/// The repeat mode after `m` in the Off, All, One cycle.
pub open spec fn repeat_next(m: RepeatMode) -> RepeatMode {
    match m {
        RepeatMode::Off => RepeatMode::All,
        RepeatMode::All => RepeatMode::One,
        RepeatMode::One => RepeatMode::Off,
    }
}

/// The repeat mode the player reports, off when it reported nothing.
pub open spec fn current_repeat(s: Sources) -> RepeatMode {
    match s.server.play {
        Some(p) => p.repeat,
        None => RepeatMode::Off,
    }
}

/// Ask for the next repeat mode in the cycle.
pub fn cycle_repeat_mode(sources: &mut Sources)
    ensures
        sent(*old(sources), *final(sources), ClientMsg::SetRepeat { mode: repeat_next(current_repeat(*old(sources))) }),
{
    let cur = match &sources.server.play {
        Some(p) => p.repeat,
        None => RepeatMode::Off,
    };
    let next = match cur {
        RepeatMode::Off => RepeatMode::All,
        RepeatMode::All => RepeatMode::One,
        RepeatMode::One => RepeatMode::Off,
    };
    sources.requests.push(ClientMsg::SetRepeat { mode: next }, None);
}

// ---------------------------------------------------------------------
// Opening details
// ---------------------------------------------------------------------

/// The album detail of `id` was requested and the middle pane drilled
/// into it, awaiting that request.
pub open spec fn opened_album(pre: Sources, post: Sources, id: String, title: String) -> bool {
    let mid = Sources { requests: post.requests, ..pre };
    &&& queued(pre.requests, post.requests, ClientMsg::GetAlbumDetail { id }, None)
    &&& drilled(mid, post, MiddleMode::AlbumDetail { album_id: id, album_title: title, awaiting_seq: Some(post.requests.last_seq) })
}

/// The artist detail of `id` was requested and the middle pane
/// drilled into it, awaiting that request.
pub open spec fn opened_artist(pre: Sources, post: Sources, id: String, name: String) -> bool {
    let mid = Sources { requests: post.requests, ..pre };
    &&& queued(pre.requests, post.requests, ClientMsg::GetArtistDetail { id }, None)
    &&& drilled(mid, post, MiddleMode::ArtistDetail { artist_id: id, artist_name: name, awaiting_seq: Some(post.requests.last_seq) })
}

fn open_album(sources: &mut Sources, id: String, title: String)
    ensures
        opened_album(*old(sources), *final(sources), id, title),
{
    let seq = sources.requests.push(ClientMsg::GetAlbumDetail { id: id.clone() }, None);
    history_drill(sources, MiddleMode::AlbumDetail { album_id: id, album_title: title, awaiting_seq: Some(seq) });
}

fn open_artist(sources: &mut Sources, id: String, name: String)
    ensures
        opened_artist(*old(sources), *final(sources), id, name),
{
    let seq = sources.requests.push(ClientMsg::GetArtistDetail { id: id.clone() }, None);
    history_drill(sources, MiddleMode::ArtistDetail { artist_id: id, artist_name: name, awaiting_seq: Some(seq) });
}

// ---------------------------------------------------------------------
// Middle pane
// ---------------------------------------------------------------------

/// A play request of `id` of kind `kind` that replaces the queue.
pub open spec fn play_now(id: String, kind: MediaKind, start_index: Option<usize>) -> ClientMsg {
    ClientMsg::Play { id, kind, position: QueuePosition::Reset, start_index }
}

/// What activating the highlighted middle row does: play it (a song,
/// or its playlist or album from that row on), or open the album or
/// artist it names. Nothing happens on an empty pane or a row that is
/// not there.
pub open spec fn middle_activated(pre: Sources, post: Sources) -> bool {
    let rows = spec_middle_indices(pre);
    let c = pre.cursor.middle as int;
    if c >= rows.len() {
        post == pre
    } else {
        let orig = rows[c];
        match pre.history.mode {
            MiddleMode::PlaylistSongs => match pre.playlist_tracks.playlist_id {
                Some(id) => sent(pre, post, play_now(id, MediaKind::Playlist, Some(orig))),
                None => post == pre,
            },
            MiddleMode::SearchResults { search_type, .. } => match search_type {
                SearchType::Song => if (orig as int) < pre.search.songs@.len() {
                    sent(pre, post, play_now(pre.search.songs@[orig as int].id, MediaKind::Song, None))
                } else {
                    post == pre
                },
                SearchType::Album => if (orig as int) < pre.search.albums@.len() {
                    opened_album(pre, post, pre.search.albums@[orig as int].id, pre.search.albums@[orig as int].name)
                } else {
                    post == pre
                },
                SearchType::Artist => if (orig as int) < pre.search.artists@.len() {
                    opened_artist(pre, post, pre.search.artists@[orig as int].id, pre.search.artists@[orig as int].name)
                } else {
                    post == pre
                },
            },
            MiddleMode::AlbumDetail { album_id, .. } => sent(pre, post, play_now(album_id, MediaKind::Album, Some(orig))),
            MiddleMode::ArtistDetail { awaiting_seq, .. } => match spec_artist_item(
                awaiting_seq,
                pre.responses.by_seq@,
                pre.artist_extras,
                orig as int,
            ) {
                Some(ArtistDetailItem::Song(s)) => sent(pre, post, play_now(s.id, MediaKind::Song, None)),
                Some(ArtistDetailItem::Album(a)) => opened_album(pre, post, a.id, a.name),
                Some(ArtistDetailItem::Artist(a)) => opened_artist(pre, post, a.id, a.name),
                None => post == pre,
            },
        }
    }
}

/// Enter on the middle pane.
pub fn middle_activate(sources: &mut Sources)
    ensures
        middle_activated(*old(sources), *final(sources)),
{
    let rows = middle_filtered_indices(sources);
    if sources.cursor.middle >= rows.len() {
        return;
    }
    let orig = rows[sources.cursor.middle];
    let mode = sources.history.mode.duplicate();
    match mode {
        MiddleMode::PlaylistSongs => {
            let id = crate::text::copy_opt_string(&sources.playlist_tracks.playlist_id);
            if let Some(id) = id {
                sources.requests.push(
                    ClientMsg::Play { id, kind: MediaKind::Playlist, position: QueuePosition::Reset, start_index: Some(orig) },
                    None,
                );
            }
        },
        MiddleMode::SearchResults { search_type, .. } => match search_type {
            SearchType::Song => {
                if orig < sources.search.songs.len() {
                    let id = sources.search.songs[orig].id.clone();
                    sources.requests.push(
                        ClientMsg::Play { id, kind: MediaKind::Song, position: QueuePosition::Reset, start_index: None },
                        None,
                    );
                }
            },
            SearchType::Album => {
                if orig < sources.search.albums.len() {
                    let id = sources.search.albums[orig].id.clone();
                    let name = sources.search.albums[orig].name.clone();
                    open_album(sources, id, name);
                }
            },
            SearchType::Artist => {
                if orig < sources.search.artists.len() {
                    let id = sources.search.artists[orig].id.clone();
                    let name = sources.search.artists[orig].name.clone();
                    open_artist(sources, id, name);
                }
            },
        },
        MiddleMode::AlbumDetail { album_id, .. } => {
            sources.requests.push(
                ClientMsg::Play {
                    id: album_id,
                    kind: MediaKind::Album,
                    position: QueuePosition::Reset,
                    start_index: Some(orig),
                },
                None,
            );
        },
        MiddleMode::ArtistDetail { awaiting_seq, .. } => {
            match artist_detail_item(awaiting_seq, &sources.responses.by_seq, &sources.artist_extras, orig) {
                Some(ArtistDetailItem::Song(s)) => {
                    sources.requests.push(
                        ClientMsg::Play { id: s.id, kind: MediaKind::Song, position: QueuePosition::Reset, start_index: None },
                        None,
                    );
                },
                Some(ArtistDetailItem::Album(a)) => open_album(sources, a.id, a.name),
                Some(ArtistDetailItem::Artist(a)) => open_artist(sources, a.id, a.name),
                None => {},
            }
        },
    }
}

// ---------------------------------------------------------------------
// Queue pane
// ---------------------------------------------------------------------

/// The request that removes queue row `index`, when the queue and the
/// row's entry id are known.
pub open spec fn removal_of(s: Sources, index: int) -> Option<ClientMsg> {
    match s.queue.queue_id {
        Some(q) => if 0 <= index < s.queue.entry_ids@.len() {
            Some(ClientMsg::RemoveFromQueue { queue_id: q, entry_id: s.queue.entry_ids@[index] })
        } else {
            None
        },
        None => None,
    }
}

/// Ask the server to drop queue row `index`.
pub fn remove_queue_entry(sources: &mut Sources, index: usize)
    ensures
        match removal_of(*old(sources), index as int) {
            Some(m) => sent(*old(sources), *final(sources), m),
            None => *final(sources) == *old(sources),
        },
{
    if let Some(queue_id) = sources.queue.queue_id {
        if index < sources.queue.entry_ids.len() {
            let entry_id = sources.queue.entry_ids[index];
            sources.requests.push(ClientMsg::RemoveFromQueue { queue_id, entry_id }, None);
        }
    }
}

/// The request that jumps playback to the highlighted queue row.
pub open spec fn queue_jump_of(s: Sources) -> Option<ClientMsg> {
    let rows = spec_queue_indices(s);
    let c = s.cursor.queue as int;
    if c < rows.len() {
        match s.queue.queue_id {
            Some(q) => if (rows[c] as int) < s.queue.entry_ids@.len() {
                Some(ClientMsg::SkipToQueueEntry { queue_id: q, entry_id: s.queue.entry_ids@[rows[c] as int] })
            } else {
                None
            },
            None => None,
        }
    } else {
        None
    }
}

/// What `queue_activate` does to the sources.
pub open spec fn queue_activate_effect(pre: Sources, post: Sources) -> bool {
    &&& (match queue_jump_of(pre) {
        Some(m) => sent(pre, post, m),
        None => post == pre,
    })
}

/// Enter on the queue pane: play from the highlighted entry.
pub fn queue_activate(sources: &mut Sources)
    ensures
        queue_activate_effect(*old(sources), *final(sources)),
{
    let rows = queue_filtered_indices(sources);
    if sources.cursor.queue >= rows.len() {
        return;
    }
    let orig = rows[sources.cursor.queue];
    if let Some(queue_id) = sources.queue.queue_id {
        if orig < sources.queue.entry_ids.len() {
            let entry_id = sources.queue.entry_ids[orig];
            sources.requests.push(ClientMsg::SkipToQueueEntry { queue_id, entry_id }, None);
        }
    }
}

// ---------------------------------------------------------------------
// Cursor moves
// ---------------------------------------------------------------------

/// How long a hovered song stays in the now-playing bar.
pub const PREVIEW_TTL_MS: u64 = 3000;

/// Rows a page move covers.
pub const PAGE_SIZE: usize = 10;

/// The song under the middle cursor, if the row is a song.
pub open spec fn spec_hovered_middle_song(s: Sources) -> Option<Song> {
    let rows = spec_middle_indices(s);
    let c = s.cursor.middle as int;
    if c < rows.len() {
        let o = rows[c] as int;
        match s.history.mode {
            MiddleMode::PlaylistSongs => if o < s.playlist_tracks.songs@.len() {
                s.playlist_tracks.songs@[o]
            } else {
                None
            },
            MiddleMode::AlbumDetail { awaiting_seq, .. } => match spec_album_detail_songs(awaiting_seq, s.responses.by_seq@) {
                Some(v) => if o < v.len() { Some(v[o]) } else { None },
                None => None,
            },
            MiddleMode::ArtistDetail { awaiting_seq, .. } => match spec_artist_item(
                awaiting_seq,
                s.responses.by_seq@,
                s.artist_extras,
                o,
            ) {
                Some(ArtistDetailItem::Song(x)) => Some(x),
                _ => None,
            },
            MiddleMode::SearchResults { .. } => if o < s.search.songs@.len() {
                Some(s.search.songs@[o])
            } else {
                None
            },
        }
    } else {
        None
    }
}

pub fn hovered_middle_song(s: &Sources) -> (r: Option<Song>)
    ensures
        r == spec_hovered_middle_song(*s),
{
    let rows = middle_filtered_indices(s);
    if s.cursor.middle >= rows.len() {
        return None;
    }
    let o = rows[s.cursor.middle];
    match &s.history.mode {
        MiddleMode::PlaylistSongs => {
            if o < s.playlist_tracks.songs.len() {
                match &s.playlist_tracks.songs[o] {
                    Some(x) => Some(x.duplicate()),
                    None => None,
                }
            } else {
                None
            }
        },
        MiddleMode::AlbumDetail { awaiting_seq, .. } => match album_detail_songs(*awaiting_seq, &s.responses.by_seq) {
            Some(v) => if o < v.len() { Some(v[o].duplicate()) } else { None },
            None => None,
        },
        MiddleMode::ArtistDetail { awaiting_seq, .. } => match artist_detail_item(
            *awaiting_seq,
            &s.responses.by_seq,
            &s.artist_extras,
            o,
        ) {
            Some(ArtistDetailItem::Song(x)) => Some(x),
            _ => None,
        },
        MiddleMode::SearchResults { .. } => if o < s.search.songs.len() {
            Some(s.search.songs[o].duplicate())
        } else {
            None
        },
    }
}

/// The song under the queue cursor.
pub open spec fn spec_hovered_queue_song(s: Sources) -> Option<Song> {
    let rows = spec_queue_indices(s);
    let c = s.cursor.queue as int;
    if c < rows.len() && (rows[c] as int) < s.queue.items@.len() {
        Some(s.queue.items@[rows[c] as int])
    } else {
        None
    }
}

pub fn hovered_queue_song(s: &Sources) -> (r: Option<Song>)
    ensures
        r == spec_hovered_queue_song(*s),
{
    let rows = queue_filtered_indices(s);
    if s.cursor.queue < rows.len() && rows[s.cursor.queue] < s.queue.items.len() {
        Some(s.queue.items[rows[s.cursor.queue]].duplicate())
    } else {
        None
    }
}

/// `post` is `mid` with `song`, when there is one, previewed for the
/// preview's lifetime.
pub open spec fn previewed(mid: Sources, post: Sources, song: Option<Song>) -> bool {
    match song {
        Some(x) => post == (Sources {
            preview: UiPreview { song: Some(x), expires_at: Some(sat_add(mid.now, PREVIEW_TTL_MS)) },
            ..mid
        }),
        None => post == mid,
    }
}

/// `s` with the middle cursor at `row`.
pub open spec fn with_middle(s: Sources, row: usize) -> Sources {
    Sources { cursor: Cursor { middle: row, ..s.cursor }, ..s }
}

/// `s` with the queue cursor at `row`.
pub open spec fn with_queue(s: Sources, row: usize) -> Sources {
    Sources { cursor: Cursor { queue: row, ..s.cursor }, ..s }
}

/// `s` with the left cursor at `row`.
pub open spec fn with_left(s: Sources, row: usize) -> Sources {
    Sources { cursor: Cursor { left: row, ..s.cursor }, ..s }
}

/// One row up, stopping at the top.
pub open spec fn row_up(c: usize) -> usize {
    if c == 0 { 0 } else { (c - 1) as usize }
}

/// One row down, stopping at the last of `n` rows.
pub open spec fn row_down(c: usize, n: int) -> usize {
    if c + 1 < n { (c + 1) as usize } else { c }
}

/// The middle cursor moved to `row`, previewing the song it lands on.
pub open spec fn middle_moved(pre: Sources, post: Sources, row: usize) -> bool {
    previewed(with_middle(pre, row), post, spec_hovered_middle_song(with_middle(pre, row)))
}

/// The queue cursor moved to `row`, previewing the song it lands on.
pub open spec fn queue_moved(pre: Sources, post: Sources, row: usize) -> bool {
    previewed(with_queue(pre, row), post, spec_hovered_queue_song(with_queue(pre, row)))
}

fn preview_middle(sources: &mut Sources)
    ensures
        previewed(*old(sources), *final(sources), spec_hovered_middle_song(*old(sources))),
{
    if let Some(song) = hovered_middle_song(sources) {
        let until = sources.now.saturating_add(PREVIEW_TTL_MS);
        sources.preview.set(song, until);
    }
}

fn preview_queue(sources: &mut Sources)
    ensures
        previewed(*old(sources), *final(sources), spec_hovered_queue_song(*old(sources))),
{
    if let Some(song) = hovered_queue_song(sources) {
        let until = sources.now.saturating_add(PREVIEW_TTL_MS);
        sources.preview.set(song, until);
    }
}

/// What `middle_cursor_up` does to the sources.
pub open spec fn middle_cursor_up_effect(pre: Sources, post: Sources) -> bool {
    &&& (spec_middle_indices(pre).len() == 0 ==> post == pre)
    &&& (spec_middle_indices(pre).len() > 0 ==> middle_moved(
        pre,
        post,
        row_up(pre.cursor.middle),
    ))
}

pub fn middle_cursor_up(sources: &mut Sources)
    ensures
        middle_cursor_up_effect(*old(sources), *final(sources)),
{
    let n = middle_filtered_indices(sources).len();
    if n == 0 {
        return;
    }
    sources.cursor.middle = sources.cursor.middle.saturating_sub(1);
    preview_middle(sources);
}

/// What `middle_cursor_down` does to the sources.
pub open spec fn middle_cursor_down_effect(pre: Sources, post: Sources) -> bool {
    &&& (spec_middle_indices(pre).len() == 0 ==> post == pre)
    &&& (spec_middle_indices(pre).len() > 0 ==> middle_moved(
        pre,
        post,
        row_down(pre.cursor.middle, spec_middle_indices(pre).len() as int),
    ))
}

pub fn middle_cursor_down(sources: &mut Sources)
    ensures
        middle_cursor_down_effect(*old(sources), *final(sources)),
{
    let n = middle_filtered_indices(sources).len();
    if n == 0 {
        return;
    }
    if sources.cursor.middle < n - 1 {
        sources.cursor.middle = sources.cursor.middle + 1;
    }
    preview_middle(sources);
}

/// What `queue_cursor_up` does to the sources.
pub open spec fn queue_cursor_up_effect(pre: Sources, post: Sources) -> bool {
    &&& (spec_queue_indices(pre).len() == 0 ==> post == pre)
    &&& (spec_queue_indices(pre).len() > 0 ==> queue_moved(
        pre,
        post,
        row_up(pre.cursor.queue),
    ))
}

pub fn queue_cursor_up(sources: &mut Sources)
    ensures
        queue_cursor_up_effect(*old(sources), *final(sources)),
{
    let n = queue_filtered_indices(sources).len();
    if n == 0 {
        return;
    }
    sources.cursor.queue = sources.cursor.queue.saturating_sub(1);
    preview_queue(sources);
}

/// What `queue_cursor_down` does to the sources.
pub open spec fn queue_cursor_down_effect(pre: Sources, post: Sources) -> bool {
    &&& (spec_queue_indices(pre).len() == 0 ==> post == pre)
    &&& (spec_queue_indices(pre).len() > 0 ==> queue_moved(
        pre,
        post,
        row_down(pre.cursor.queue, spec_queue_indices(pre).len() as int),
    ))
}

pub fn queue_cursor_down(sources: &mut Sources)
    ensures
        queue_cursor_down_effect(*old(sources), *final(sources)),
{
    let n = queue_filtered_indices(sources).len();
    if n == 0 {
        return;
    }
    if sources.cursor.queue < n - 1 {
        sources.cursor.queue = sources.cursor.queue + 1;
    }
    preview_queue(sources);
}

/// Rows of the left column: the server row, the playlists that show,
/// and the "+ New" row (counted up to `usize::MAX`).
pub open spec fn left_rows(s: Sources) -> int {
    let n = spec_filtered_playlist_count(s, s.filter.playlist@) + 2;
    if n > usize::MAX { usize::MAX as int } else { n as int }
}

pub fn left_n_rows(s: &Sources) -> (n: usize)
    ensures
        n == left_rows(*s),
{
    filtered_playlist_count(s, &s.filter.playlist).saturating_add(2)
}

/// What `left_cursor_up` does to the sources.
pub open spec fn left_cursor_up_effect(pre: Sources, post: Sources) -> bool {
    &&& (post == with_left(pre, row_up(pre.cursor.left)))
}

pub fn left_cursor_up(sources: &mut Sources)
    ensures
        left_cursor_up_effect(*old(sources), *final(sources)),
{
    sources.cursor.left = sources.cursor.left.saturating_sub(1);
}

/// What `left_cursor_down` does to the sources.
pub open spec fn left_cursor_down_effect(pre: Sources, post: Sources) -> bool {
    &&& (post == with_left(pre, row_down(pre.cursor.left, left_rows(pre))))
}

pub fn left_cursor_down(sources: &mut Sources)
    ensures
        left_cursor_down_effect(*old(sources), *final(sources)),
{
    let n = left_n_rows(sources);
    if sources.cursor.left < n - 1 {
        sources.cursor.left = sources.cursor.left + 1;
    }
}

/// Where a jump lands.
#[derive(PartialEq, Eq, Structural, Clone, Copy, Debug)]
pub enum JumpTarget {
    Top,
    Bottom,
}

/// Direction of a page move.
#[derive(PartialEq, Eq, Structural, Clone, Copy, Debug)]
pub enum PageStep {
    Up,
    Down,
}

/// The last row of `n` rows, or the top when there are none.
pub open spec fn last_row(n: int) -> usize {
    if n > 0 { (n - 1) as usize } else { 0 }
}

/// What `jump_focused` does to the sources.
pub open spec fn jump_focused_effect(pre: Sources, post: Sources, target: JumpTarget) -> bool {
    &&& (pre.cursor.focus == ColumnFocus::Left ==> post == with_left(
        pre,
        if target == JumpTarget::Top { 0 } else { last_row(left_rows(pre)) },
    ))
    &&& (pre.cursor.focus == ColumnFocus::Middle ==> post == with_middle(
        pre,
        if target == JumpTarget::Top { 0 } else { last_row(spec_middle_indices(pre).len() as int) },
    ))
    &&& (pre.cursor.focus == ColumnFocus::Queue ==> post == with_queue(
        pre,
        if target == JumpTarget::Top { 0 } else { last_row(spec_queue_indices(pre).len() as int) },
    ))
}

/// Jump the focused column's cursor to its top or bottom row. The
/// bottom of the left column is its "+ New" row.
pub fn jump_focused(sources: &mut Sources, target: JumpTarget)
    ensures
        jump_focused_effect(*old(sources), *final(sources), target),
{
    match sources.cursor.focus {
        ColumnFocus::Left => {
            let bottom = left_n_rows(sources) - 1;
            sources.cursor.left = match target {
                JumpTarget::Top => 0,
                JumpTarget::Bottom => bottom,
            };
        },
        ColumnFocus::Middle => {
            let n = middle_filtered_indices(sources).len();
            sources.cursor.middle = match target {
                JumpTarget::Top => 0,
                JumpTarget::Bottom => n.saturating_sub(1),
            };
        },
        ColumnFocus::Queue => {
            let n = queue_filtered_indices(sources).len();
            sources.cursor.queue = match target {
                JumpTarget::Top => 0,
                JumpTarget::Bottom => n.saturating_sub(1),
            };
        },
    }
}

/// A page move from `cur` within rows `0..=max`.
pub open spec fn paged(cur: usize, max: usize, step: PageStep) -> usize {
    match step {
        PageStep::Up => if cur >= PAGE_SIZE { (cur - PAGE_SIZE) as usize } else { 0 },
        PageStep::Down => if cur + PAGE_SIZE < max { (cur + PAGE_SIZE) as usize } else { max },
    }
}

fn page_apply(cur: usize, max: usize, step: PageStep) -> (r: usize)
    ensures
        r == paged(cur, max, step),
{
    match step {
        PageStep::Up => cur.saturating_sub(PAGE_SIZE),
        PageStep::Down => {
            let t = cur.saturating_add(PAGE_SIZE);
            if t < max { t } else { max }
        },
    }
}

/// What `page_focused` does to the sources.
pub open spec fn page_focused_effect(pre: Sources, post: Sources, step: PageStep) -> bool {
    &&& (pre.cursor.focus == ColumnFocus::Left ==> post == with_left(
        pre,
        paged(pre.cursor.left, last_row(left_rows(pre)), step),
    ))
    &&& (pre.cursor.focus == ColumnFocus::Middle ==> {
        let n = spec_middle_indices(pre).len() as int;
        &&& n == 0 ==> post == pre
        &&& n > 0 ==> middle_moved(pre, post, paged(pre.cursor.middle, last_row(n), step))
    })
    &&& (pre.cursor.focus == ColumnFocus::Queue ==> {
        let n = spec_queue_indices(pre).len() as int;
        &&& n == 0 ==> post == pre
        &&& n > 0 ==> queue_moved(pre, post, paged(pre.cursor.queue, last_row(n), step))
    })
}

/// Move the focused column's cursor one page, previewing the song it
/// lands on in the middle and queue columns.
pub fn page_focused(sources: &mut Sources, step: PageStep)
    ensures
        page_focused_effect(*old(sources), *final(sources), step),
{
    match sources.cursor.focus {
        ColumnFocus::Left => {
            let n = left_n_rows(sources);
            sources.cursor.left = page_apply(sources.cursor.left, n - 1, step);
        },
        ColumnFocus::Middle => {
            let n = middle_filtered_indices(sources).len();
            if n == 0 {
                return;
            }
            sources.cursor.middle = page_apply(sources.cursor.middle, n - 1, step);
            preview_middle(sources);
        },
        ColumnFocus::Queue => {
            let n = queue_filtered_indices(sources).len();
            if n == 0 {
                return;
            }
            sources.cursor.queue = page_apply(sources.cursor.queue, n - 1, step);
            preview_queue(sources);
        },
    }
}

/// The row equal to `ci`.
pub open spec fn is_row(ci: usize) -> spec_fn(usize) -> bool {
    |i: usize| i == ci
}

/// Where the queue cursor lands on entering the queue column: the
/// playing row if it shows, else the top.
pub open spec fn current_row(rows: Seq<usize>, ci: usize) -> usize {
    match crate::seqs::first_index(rows, is_row(ci)) {
        Some(k) => k as usize,
        None => 0,
    }
}

fn position_of(rows: &Vec<usize>, ci: usize) -> (r: usize)
    ensures
        r == current_row(rows@, ci),
{
    let mut k: usize = 0;
    while k < rows.len()
        invariant
            k <= rows@.len(),
            forall|j: int| 0 <= j < k ==> !is_row(ci)(rows@[j]),
        decreases rows@.len() - k,
    {
        if rows[k] == ci {
            proof {
                crate::seqs::lemma_is_first_index(rows@, is_row(ci), k as int);
            }
            return k;
        }
        k = k + 1;
    }
    proof {
        crate::seqs::lemma_none_index(rows@, is_row(ci));
    }
    0
}

/// With the queue focused and a playing row known, put the queue
/// cursor on the playing row (or the top when it is filtered out).
pub fn snap_queue_cursor_to_current(sources: &mut Sources)
    ensures
        (old(sources).cursor.focus == ColumnFocus::Queue && old(sources).queue.current_index is Some) ==> *final(sources)
            == with_queue(*old(sources), current_row(spec_queue_indices(*old(sources)), old(sources).queue.current_index->0)),
        !(old(sources).cursor.focus == ColumnFocus::Queue && old(sources).queue.current_index is Some) ==> *final(sources)
            == *old(sources),
{
    if sources.cursor.focus != ColumnFocus::Queue {
        return;
    }
    let ci = match sources.queue.current_index {
        None => return,
        Some(c) => c,
    };
    let rows = queue_filtered_indices(sources);
    sources.cursor.queue = position_of(&rows, ci);
}

/// What `cycle_focus_forward` does to the sources.
pub open spec fn cycle_focus_forward_effect(pre: Sources, post: Sources) -> bool {
    &&& (({
        let mid = Sources {
            cursor: Cursor { focus: crate::state::ui::focus_after(pre.cursor.focus), ..pre.cursor },
            ..pre
        };
        &&& (mid.cursor.focus == ColumnFocus::Queue && mid.queue.current_index is Some) ==> post
            == with_queue(mid, current_row(spec_queue_indices(mid), mid.queue.current_index->0))
        &&& !(mid.cursor.focus == ColumnFocus::Queue && mid.queue.current_index is Some) ==> post == mid
    }))
}

/// Move focus one column on and land the queue cursor on the playing
/// row when that column is the queue.
pub fn cycle_focus_forward(sources: &mut Sources)
    ensures
        cycle_focus_forward_effect(*old(sources), *final(sources)),
{
    sources.cursor.cycle_focus_forward();
    snap_queue_cursor_to_current(sources);
}

/// What `cycle_focus_backward` does to the sources.
pub open spec fn cycle_focus_backward_effect(pre: Sources, post: Sources) -> bool {
    &&& (({
        let mid = Sources {
            cursor: Cursor { focus: crate::state::ui::focus_before(pre.cursor.focus), ..pre.cursor },
            ..pre
        };
        &&& (mid.cursor.focus == ColumnFocus::Queue && mid.queue.current_index is Some) ==> post
            == with_queue(mid, current_row(spec_queue_indices(mid), mid.queue.current_index->0))
        &&& !(mid.cursor.focus == ColumnFocus::Queue && mid.queue.current_index is Some) ==> post == mid
    }))
}

/// Move focus one column back, as `cycle_focus_forward` does.
pub fn cycle_focus_backward(sources: &mut Sources)
    ensures
        cycle_focus_backward_effect(*old(sources), *final(sources)),
{
    sources.cursor.cycle_focus_backward();
    snap_queue_cursor_to_current(sources);
}

// ---------------------------------------------------------------------
// Filters
// ---------------------------------------------------------------------

/// What `clear_focused_filter` does to the sources.
pub open spec fn clear_focused_filter_effect(pre: Sources, post: Sources) -> bool {
    &&& (({
        let pre = pre;
        match pre.cursor.focus {
            ColumnFocus::Left => if pre.filter.playlist@.len() > 0 {
                post.filter.playlist@.len() == 0 && post == (Sources {
                    filter: UiFilter { playlist: post.filter.playlist, ..pre.filter },
                    cursor: Cursor { left: 0, ..pre.cursor },
                    ..pre
                })
            } else {
                post == pre
            },
            ColumnFocus::Middle => if pre.filter.middle@.len() > 0 {
                post.filter.middle@.len() == 0 && post == (Sources {
                    filter: UiFilter { middle: post.filter.middle, ..pre.filter },
                    cursor: Cursor { middle: 0, ..pre.cursor },
                    ..pre
                })
            } else {
                post == pre
            },
            ColumnFocus::Queue => if pre.filter.queue@.len() > 0 {
                post.filter.queue@.len() == 0 && post == (Sources {
                    filter: UiFilter { queue: post.filter.queue, ..pre.filter },
                    cursor: Cursor { queue: 0, ..pre.cursor },
                    ..pre
                })
            } else {
                post == pre
            },
        }
    }))
}

/// Esc on the main screen: clear the focused column's filter, if it
/// has one, and put that column's cursor on the top row.
pub fn clear_focused_filter(sources: &mut Sources)
    ensures
        clear_focused_filter_effect(*old(sources), *final(sources)),
{
    match sources.cursor.focus {
        ColumnFocus::Left => {
            if !sources.filter.playlist.as_str().is_empty() {
                sources.filter.playlist = String::new();
                sources.cursor.left = 0;
            }
        },
        ColumnFocus::Middle => {
            if !sources.filter.middle.as_str().is_empty() {
                sources.filter.middle = String::new();
                sources.cursor.middle = 0;
            }
        },
        ColumnFocus::Queue => {
            if !sources.filter.queue.as_str().is_empty() {
                sources.filter.queue = String::new();
                sources.cursor.queue = 0;
            }
        },
    }
}

/// What `open_filter_input_for_focused` does to the sources.
pub open spec fn open_filter_input_for_focused_effect(pre: Sources, post: Sources) -> bool {
    &&& (pre.cursor.focus == ColumnFocus::Left ==> post == pre)
    &&& (pre.cursor.focus == ColumnFocus::Middle ==> (post.screen matches Screen::FilterInput(st)
        && st.target == FilterTarget::Middle && st.input == pre.filter.middle))
    &&& (pre.cursor.focus == ColumnFocus::Queue ==> (post.screen matches Screen::FilterInput(st)
        && st.target == FilterTarget::Queue && st.input == pre.filter.queue))
    &&& (post == (Sources { screen: post.screen, ..pre }))
}

/// The filter modal for the focused column, seeded with its current
/// filter; the left column has none.
pub fn open_filter_input_for_focused(sources: &mut Sources)
    ensures
        open_filter_input_for_focused_effect(*old(sources), *final(sources)),
{
    let (target, input) = match sources.cursor.focus {
        ColumnFocus::Middle => (FilterTarget::Middle, sources.filter.middle.clone()),
        ColumnFocus::Queue => (FilterTarget::Queue, sources.filter.queue.clone()),
        ColumnFocus::Left => return,
    };
    sources.screen = Screen::FilterInput(FilterState { target, input });
}

// ---------------------------------------------------------------------
// Left column
// ---------------------------------------------------------------------

/// Playlist rows of the left column (listed and being created),
/// counted up to `usize::MAX`.
pub open spec fn playlist_rows(s: Sources) -> int {
    let n = spec_filtered_playlist_count(s, s.filter.playlist@);
    if n > usize::MAX { usize::MAX as int } else { n as int }
}

/// The server picker, on the connected server's row (the top row when
/// it is not listed).
pub open spec fn picker_on_backend(s: Sources) -> Screen {
    let selected = match s.session.backend_name {
        Some(b) => match find_first_name(s.discovery.servers@, b@) {
            Some(i) => i as usize,
            None => 0,
        },
        None => 0,
    };
    Screen::ServerPicker { selected }
}

/// What Enter on the left column does: the server row opens the server
/// picker, the "+ New" row opens playlist creation, a listed playlist
/// is opened in the middle pane; a playlist still being created does
/// nothing.
pub open spec fn left_activated(pre: Sources, post: Sources) -> bool {
    let left = pre.cursor.left as int;
    if left == 0 {
        post == (Sources { screen: picker_on_backend(pre), ..pre })
    } else if left == 1 + playlist_rows(pre) {
        &&& post.screen matches Screen::CreatePlaylist { input, add_item } && input@.len() == 0 && add_item is None
        &&& post == (Sources { screen: post.screen, ..pre })
    } else {
        match listed_playlist(pre, pre.filter.playlist@, left - 1) {
            Some(p) => {
                let mid = Sources { requests: post.requests, playlist_tracks: post.playlist_tracks, ..pre };
                &&& playlist_opened(pre, mid, p.id)
                &&& drilled(mid, post, MiddleMode::PlaylistSongs)
            },
            None => post == pre,
        }
    }
}

/// Enter on the left column.
pub fn left_activate(sources: &mut Sources)
    ensures
        left_activated(*old(sources), *final(sources)),
{
    let n = filtered_playlist_count(sources, &sources.filter.playlist);
    let left = sources.cursor.left;
    if left == 0 {
        let selected = match &sources.session.backend_name {
            Some(b) => match find_server(&sources.discovery.servers, b) {
                Some(i) => {
                    proof {
                        lemma_first_is_find(sources.discovery.servers@, b@, i as int);
                    }
                    i
                },
                None => {
                    proof {
                        lemma_none_is_find(sources.discovery.servers@, b@);
                    }
                    0
                },
            },
            None => 0,
        };
        sources.screen = Screen::ServerPicker { selected };
    } else if n < usize::MAX && left == n + 1 {
        sources.screen = Screen::CreatePlaylist { input: String::new(), add_item: None };
    } else {
        let id = selected_playlist_id(sources, &sources.filter.playlist, left - 1);
        if let Some(id) = id {
            view_playlist(sources, id);
            history_drill(sources, MiddleMode::PlaylistSongs);
        }
    }
}

/// What `left_open_action` does to the sources.
pub open spec fn left_open_action_effect(pre: Sources, post: Sources) -> bool {
    &&& (({
        let left = pre.cursor.left as int;
        if 1 <= left <= playlist_rows(pre) {
            match listed_playlist(pre, pre.filter.playlist@, left - 1) {
                Some(p) => post == (Sources {
                    screen: Screen::PlaylistAction { playlist_id: p.id, playlist_name: p.name, selected: 0 },
                    ..pre
                }),
                None => post == pre,
            }
        } else {
            post == pre
        }
    }))
}

/// Tab on a listed playlist row: open its rename / delete choice.
pub fn left_open_action(sources: &mut Sources)
    ensures
        left_open_action_effect(*old(sources), *final(sources)),
{
    let n = filtered_playlist_count(sources, &sources.filter.playlist);
    let left = sources.cursor.left;
    if left < 1 || left > n {
        return;
    }
    if let Some((playlist_id, playlist_name)) = filtered_playlist(sources, &sources.filter.playlist, left - 1) {
        sources.screen = Screen::PlaylistAction { playlist_id, playlist_name, selected: 0 };
    }
}

/// The shuffled play request that Alt+Enter sends for the focused
/// column: the highlighted playlist on the left; in the middle, the
/// loaded playlist or the album shown; nothing for the queue or other
/// middle views.
pub open spec fn shuffle_request(s: Sources) -> Option<ClientMsg> {
    match s.cursor.focus {
        ColumnFocus::Left => match listed_playlist(s, s.filter.playlist@, row_up(s.cursor.left) as int) {
            Some(p) => Some(ClientMsg::Play { id: p.id, kind: MediaKind::Playlist, position: QueuePosition::Shuffle, start_index: None }),
            None => None,
        },
        ColumnFocus::Middle => match s.history.mode {
            MiddleMode::PlaylistSongs => match s.playlist_tracks.playlist_id {
                Some(id) => Some(ClientMsg::Play { id, kind: MediaKind::Playlist, position: QueuePosition::Shuffle, start_index: None }),
                None => None,
            },
            MiddleMode::AlbumDetail { album_id, .. } => Some(
                ClientMsg::Play { id: album_id, kind: MediaKind::Album, position: QueuePosition::Shuffle, start_index: None },
            ),
            _ => None,
        },
        ColumnFocus::Queue => None,
    }
}

/// What `shuffle_activate_focused` does to the sources.
pub open spec fn shuffle_activate_focused_effect(pre: Sources, post: Sources) -> bool {
    &&& (match shuffle_request(pre) {
        Some(m) => sent(pre, post, m),
        None => post == pre,
    })
}

/// Alt+Enter: play the focused column's item shuffled.
pub fn shuffle_activate_focused(sources: &mut Sources)
    ensures
        shuffle_activate_focused_effect(*old(sources), *final(sources)),
{
    let msg = match sources.cursor.focus {
        ColumnFocus::Left => {
            match selected_playlist_id(sources, &sources.filter.playlist, sources.cursor.left.saturating_sub(1)) {
                Some(id) => Some(
                    ClientMsg::Play { id, kind: MediaKind::Playlist, position: QueuePosition::Shuffle, start_index: None },
                ),
                None => None,
            }
        },
        ColumnFocus::Middle => match &sources.history.mode {
            MiddleMode::PlaylistSongs => match &sources.playlist_tracks.playlist_id {
                Some(id) => Some(
                    ClientMsg::Play {
                        id: id.clone(),
                        kind: MediaKind::Playlist,
                        position: QueuePosition::Shuffle,
                        start_index: None,
                    },
                ),
                None => None,
            },
            MiddleMode::AlbumDetail { album_id, .. } => Some(
                ClientMsg::Play {
                    id: album_id.clone(),
                    kind: MediaKind::Album,
                    position: QueuePosition::Shuffle,
                    start_index: None,
                },
            ),
            _ => None,
        },
        ColumnFocus::Queue => None,
    };
    if let Some(m) = msg {
        sources.requests.push(m, None);
    }
}

} // verus!
