//! Folding driver events into sources: what a closed link or a new
//! backend discards.

use vstd::prelude::*;
use crate::link_driver::{ListTarget, PlaylistMutation, Response, ServerMsg};
use crate::proto::{Playlist, Song};
use crate::state::history::{HistoryFrame, MiddleMode};
use crate::state::playlists::{adjusted, not_id, playlist_by_id, PlaylistTracks, Playlists};
use crate::state::search::Search;
use crate::state::server::{
    delta_model, entry_ids_of, entry_songs, for_queue, prefix, replayed, QueueModel,
    op_for, op_not_for, op_not_seq, op_song, task_not, without_first, Activity, PendingPlaylists, Queue,
    ServerReply, ServerState,
};
use crate::state::sources::Sources;
use crate::text::opt_view;
use crate::drivers::{CredCmd, CredEvent, DiscoveryEvent};
use crate::link_driver::LinkEvent;
use crate::persist::{LoadKey, LoadKeyModel, PersistEvent, ViewLoadResult};
use crate::proto::{ClientMsg, Peer};
use crate::state::credentials::{cred_of, Credentials, PairingEntry};
use crate::state::discovery::{find_first_name, Discovery};
use crate::state::link::{LinkKind, LinkPhase};
use crate::state::pairing::{Pairing, PairingPhase};
use crate::state::requests::{next_id, PendingRequest};
use crate::state::server::ResponseEntry;
use crate::state::ui::{Screen, SearchHistoryEntry};

verus! {

/// What `Search::clear` leaves of `pre`.
pub open spec fn search_cleared(pre: Search, post: Search) -> bool {
    &&& post.task_id is None
    &&& post.songs@.len() == 0 && post.albums@.len() == 0 && post.artists@.len() == 0
    &&& !post.first_page_received
    &&& post.stale == (pre.task_id is Some || pre.stale)
    &&& post.term@ == pre.term@
    &&& post.search_type == pre.search_type
    &&& post.empty_reopen_done == pre.empty_reopen_done
}

/// Every source that the server filled (replies, playback, queue,
/// playlists, open playlist, search results, peer activity,
/// optimistic edits) is back to empty; the user's own sources are
/// untouched. Requests, the server facts and the playlist request
/// tracking are left to the caller.
pub open spec fn server_derived_cleared(pre: Sources, post: Sources) -> bool {
    &&& post.responses.by_seq@.len() == 0
    &&& post.queue.is_reset()
    &&& post.playlists.items@.len() == 0 && !post.playlists.loaded && !post.playlists.stale
    &&& post.playlist_tracks.is_reset()
    &&& search_cleared(pre.search, post.search)
    &&& post.activity.tasks@.len() == 0
    &&& post.artist_extras.entries@.len() == 0
    &&& post.pending_playlists.is_reset()
}

fn clear_server_derived(s: &mut Sources)
    ensures
        server_derived_cleared(*old(s), *final(s)),
        final(s).playlists.is_reset(),
        *final(s) == (Sources {
            responses: final(s).responses,
            queue: final(s).queue,
            playlists: final(s).playlists,
            playlist_tracks: final(s).playlist_tracks,
            search: final(s).search,
            artist_extras: final(s).artist_extras,
            activity: final(s).activity,
            pending_playlists: final(s).pending_playlists,
            ..*old(s)
        }),
{
    s.responses.clear();
    s.queue = crate::state::server::Queue::new();
    s.playlists = crate::state::playlists::Playlists::new();
    s.playlist_tracks.clear();
    s.search.clear();
    s.artist_extras.clear();
    s.activity.clear();
    s.pending_playlists.clear();
}

/// Drop everything the server produced: queued requests, replies,
/// server facts and every server-filled source.
pub fn reset_server_derived_state(s: &mut Sources)
    ensures
        server_derived_cleared(*old(s), *final(s)),
        final(s).playlists.is_reset(),
        final(s).requests.pending@.len() == 0,
        final(s).requests.last_seq == old(s).requests.last_seq,
        final(s).requests.last_task == old(s).requests.last_task,
        final(s).server.is_reset(),
        *final(s) == (Sources {
            requests: final(s).requests,
            server: final(s).server,
            responses: final(s).responses,
            queue: final(s).queue,
            playlists: final(s).playlists,
            playlist_tracks: final(s).playlist_tracks,
            search: final(s).search,
            artist_extras: final(s).artist_extras,
            activity: final(s).activity,
            pending_playlists: final(s).pending_playlists,
            ..*old(s)
        }),
{
    s.requests.clear();
    s.server = crate::state::server::ServerState::new();
    clear_server_derived(s);
}

/// A backend change drops what a close drops, except that queued
/// handshakes survive and the server facts are the caller's.
pub fn reset_for_new_backend(s: &mut Sources)
    ensures
        server_derived_cleared(*old(s), *final(s)),
        final(s).requests.pending@ == old(s).requests.pending@.filter(crate::state::requests::hello_only()),
        final(s).requests.last_seq == old(s).requests.last_seq,
        final(s).requests.last_task == old(s).requests.last_task,
        *final(s) == (Sources {
            requests: final(s).requests,
            responses: final(s).responses,
            queue: final(s).queue,
            playlists: final(s).playlists,
            playlist_tracks: final(s).playlist_tracks,
            search: final(s).search,
            artist_extras: final(s).artist_extras,
            activity: final(s).activity,
            pending_playlists: final(s).pending_playlists,
            ..*old(s)
        }),
{
    s.requests.retain_hello();
    clear_server_derived(s);
}

// ---------------------------------------------------------------------
// Broadcast frames
// ---------------------------------------------------------------------

/// The playlist list after `playlist_id` got `track_count`.
pub open spec fn track_count_set(pre: Playlists, post: Playlists, id: Seq<char>, count: u32) -> bool {
    &&& match playlist_by_id(pre.items@, id) {
        None => post.items@ == pre.items@,
        Some(p) => playlist_by_id(post.items@, id) == Some(Playlist { track_count: count, ..p })
            && forall|o: Seq<char>| o != id ==> playlist_by_id(post.items@, o) == playlist_by_id(pre.items@, o),
    }
    &&& post.loaded == pre.loaded && post.stale == pre.stale
    &&& post.pending_request == pre.pending_request && post.pending_task == pre.pending_task
}

/// The playlist list after `playlist_id`'s count moved by `delta`.
pub open spec fn track_count_adjusted(pre: Playlists, post: Playlists, id: Seq<char>, delta: i32) -> bool {
    &&& match playlist_by_id(pre.items@, id) {
        None => post.items@ == pre.items@,
        Some(p) => playlist_by_id(post.items@, id) == Some(Playlist { track_count: adjusted(p.track_count, delta), ..p })
            && forall|o: Seq<char>| o != id ==> playlist_by_id(post.items@, o) == playlist_by_id(pre.items@, o),
    }
    &&& post.loaded == pre.loaded && post.stale == pre.stale
    &&& post.pending_request == pre.pending_request && post.pending_task == pre.pending_task
}

/// The playlist list with `p` put in place.
pub open spec fn upserted(pre: Playlists, post: Playlists, p: Playlist) -> bool {
    &&& playlist_by_id(post.items@, p.id@) == Some(p)
    &&& forall|id: Seq<char>| id != p.id@ ==> playlist_by_id(post.items@, id) == playlist_by_id(pre.items@, id)
    &&& post.loaded == pre.loaded && post.stale == pre.stale
    &&& post.pending_request == pre.pending_request && post.pending_task == pre.pending_task
}

/// Only the `adding` list of the optimistic edits changed.
pub open spec fn only_adding(pre: PendingPlaylists, post: PendingPlaylists) -> bool {
    post.creating@ == pre.creating@ && post.deleting@ == pre.deleting@ && post.renaming@ == pre.renaming@
        && post.removing@ == pre.removing@
}

/// Only the `removing` list of the optimistic edits changed.
pub open spec fn only_removing(pre: PendingPlaylists, post: PendingPlaylists) -> bool {
    post.creating@ == pre.creating@ && post.deleting@ == pre.deleting@ && post.renaming@ == pre.renaming@
        && post.adding@ == pre.adding@
}

/// The open playlist's rows and their flags, apart from the rows.
pub open spec fn tracks_rows_only(pre: PlaylistTracks, post: PlaylistTracks) -> bool {
    post.playlist_id == pre.playlist_id && post.focus == pre.focus && post.stale == pre.stale
        && post.pending_task == pre.pending_task
}

/// What a change to one playlist does to the sources.
pub open spec fn mutation_folded(pre: Sources, post: Sources, id: String, m: PlaylistMutation) -> bool {
    match m {
        PlaylistMutation::Deleted => {
            &&& post.playlists.items@ == pre.playlists.items@.filter(not_id(id@))
            &&& post.playlists == (Playlists { items: post.playlists.items, ..pre.playlists })
            &&& post.pending_playlists.deleting@ == pre.pending_playlists.deleting@.filter(op_not_for(id@))
            &&& post.pending_playlists.creating@ == pre.pending_playlists.creating@
            &&& post.pending_playlists.renaming@ == pre.pending_playlists.renaming@
            &&& post.pending_playlists.adding@ == pre.pending_playlists.adding@
            &&& post.pending_playlists.removing@ == pre.pending_playlists.removing@
            &&& post == (Sources { playlists: post.playlists, pending_playlists: post.pending_playlists, ..pre })
        },
        PlaylistMutation::Renamed { new_name } => {
            &&& match playlist_by_id(pre.playlists.items@, id@) {
                None => post.playlists.items@ == pre.playlists.items@,
                Some(p) => playlist_by_id(post.playlists.items@, id@) == Some(Playlist { name: new_name, ..p })
                    && forall|o: Seq<char>| o != id@ ==> playlist_by_id(post.playlists.items@, o) == playlist_by_id(pre.playlists.items@, o),
            }
            &&& post.playlists == (Playlists { items: post.playlists.items, ..pre.playlists })
            &&& post.pending_playlists.renaming@ == pre.pending_playlists.renaming@.filter(op_not_for(id@))
            &&& post.pending_playlists.creating@ == pre.pending_playlists.creating@
            &&& post.pending_playlists.deleting@ == pre.pending_playlists.deleting@
            &&& post.pending_playlists.adding@ == pre.pending_playlists.adding@
            &&& post.pending_playlists.removing@ == pre.pending_playlists.removing@
            &&& post == (Sources { playlists: post.playlists, pending_playlists: post.pending_playlists, ..pre })
        },
        PlaylistMutation::SongAdded { songs } => {
            &&& (opt_view(pre.playlist_tracks.playlist_id) == Some(id@) ==> post.playlist_tracks.songs@
                == pre.playlist_tracks.songs@ + songs@.map_values(|s: Song| Some(s)))
            &&& (opt_view(pre.playlist_tracks.playlist_id) != Some(id@) ==> post.playlist_tracks.songs@
                == pre.playlist_tracks.songs@)
            &&& tracks_rows_only(pre.playlist_tracks, post.playlist_tracks)
            &&& songs@.len() <= i32::MAX ==> track_count_adjusted(pre.playlists, post.playlists, id@, songs@.len() as i32)
            &&& songs@.len() > i32::MAX ==> track_count_adjusted(pre.playlists, post.playlists, id@, i32::MAX)
            &&& post.pending_playlists.adding@ == without_first(pre.pending_playlists.adding@, op_for(id@))
            &&& only_adding(pre.pending_playlists, post.pending_playlists)
            &&& post == (Sources {
                playlists: post.playlists,
                playlist_tracks: post.playlist_tracks,
                pending_playlists: post.pending_playlists,
                ..pre
            })
        },
        PlaylistMutation::SongRemoved { song_id, index } => {
            &&& ((opt_view(pre.playlist_tracks.playlist_id) == Some(id@) && index < pre.playlist_tracks.songs@.len())
                ==> post.playlist_tracks.songs@ == pre.playlist_tracks.songs@.remove(index as int))
            &&& (!(opt_view(pre.playlist_tracks.playlist_id) == Some(id@) && index < pre.playlist_tracks.songs@.len())
                ==> post.playlist_tracks.songs@ == pre.playlist_tracks.songs@)
            &&& tracks_rows_only(pre.playlist_tracks, post.playlist_tracks)
            &&& track_count_adjusted(pre.playlists, post.playlists, id@, -1i32)
            &&& post.pending_playlists.removing@ == without_first(pre.pending_playlists.removing@, op_song(id@, song_id@))
            &&& only_removing(pre.pending_playlists, post.pending_playlists)
            &&& post == (Sources {
                playlists: post.playlists,
                playlist_tracks: post.playlist_tracks,
                pending_playlists: post.pending_playlists,
                ..pre
            })
        },
        PlaylistMutation::Modified => {
            &&& post.playlists == (Playlists { stale: true, ..pre.playlists })
            &&& post.playlist_tracks == (PlaylistTracks {
                stale: if opt_view(pre.playlist_tracks.playlist_id) == Some(id@) { true } else { pre.playlist_tracks.stale },
                ..pre.playlist_tracks
            })
            &&& post == (Sources { playlists: post.playlists, playlist_tracks: post.playlist_tracks, ..pre })
        },
    }
}

fn fold_mutation(sources: &mut Sources, playlist_id: String, mutation: PlaylistMutation)
    ensures
        mutation_folded(*old(sources), *final(sources), playlist_id, mutation),
{
    let ghost m = mutation;
    match mutation {
        PlaylistMutation::Deleted => {
            sources.playlists.remove(&playlist_id);
            sources.pending_playlists.drop_deleting_for(&playlist_id);
        },
        PlaylistMutation::Renamed { new_name } => {
            sources.playlists.rename(&playlist_id, new_name);
            sources.pending_playlists.drop_renaming_for(&playlist_id);
        },
        PlaylistMutation::SongAdded { songs } => {
            let n = songs.len();
            let delta: i32 = if n <= i32::MAX as usize { n as i32 } else { i32::MAX };
            sources.playlist_tracks.extend(&playlist_id, songs);
            sources.playlists.adjust_track_count(&playlist_id, delta);
            sources.pending_playlists.drop_oldest_adding_for(&playlist_id);
        },
        PlaylistMutation::SongRemoved { song_id, index } => {
            sources.playlist_tracks.remove_at(&playlist_id, index);
            sources.playlists.adjust_track_count(&playlist_id, -1);
            sources.pending_playlists.drop_removing_song(&playlist_id, &song_id);
        },
        PlaylistMutation::Modified => {
            sources.playlists.stale = true;
            let open = match &sources.playlist_tracks.playlist_id {
                Some(p) => crate::text::text_eq(p, &playlist_id),
                None => false,
            };
            if open {
                sources.playlist_tracks.stale = true;
            }
        },
    }
}

/// A task ended: the search it ran (if any) is no longer in flight,
/// the playlist count stream it carried (if it is this frame's task)
/// is done, and it leaves the status bar.
pub open spec fn task_ended(pre: Sources, post: Sources, frame_task: Option<u64>, tid: u64) -> bool {
    &&& post.search == (Search {
        task_id: if pre.search.task_id == Some(tid) { None } else { pre.search.task_id },
        ..pre.search
    })
    &&& post.playlists == (Playlists {
        pending_task: if frame_task == Some(tid) && pre.playlists.pending_task == Some(tid) {
            None
        } else {
            pre.playlists.pending_task
        },
        ..pre.playlists
    })
    &&& post.activity.tasks@ == pre.activity.tasks@.filter(task_not(tid))
    &&& post == (Sources { search: post.search, playlists: post.playlists, activity: post.activity, ..pre })
}

fn end_task(sources: &mut Sources, frame_task: Option<u64>, tid: u64)
    ensures
        task_ended(*old(sources), *final(sources), frame_task, tid),
{
    sources.search.mark_completed(tid);
    if frame_task == Some(tid) && sources.playlists.pending_task == Some(tid) {
        sources.playlists.pending_task = None;
    }
    sources.activity.completed(tid);
}

/// What folding a broadcast frame does to the sources. Frames the
/// client does not mirror leave them as they were.
pub open spec fn broadcast_folded(pre: Sources, post: Sources, r: Response) -> bool {
    match r.msg {
        ServerMsg::StateUpdate(play) => post == (Sources { server: ServerState { play: Some(play), ..pre.server }, ..pre }),
        ServerMsg::BackendChanged { backend } => post == (Sources {
            server: ServerState { backend: Some(backend), ..pre.server },
            ..pre
        }),
        ServerMsg::Playlists { playlists } => {
            &&& post.playlists.items@ == playlists@
            &&& post.playlists == (Playlists { items: post.playlists.items, loaded: true, ..pre.playlists })
            &&& post == (Sources { playlists: post.playlists, ..pre })
        },
        ServerMsg::PlaylistTrackCount { playlist_id, track_count } => if r.task_id == pre.playlists.pending_task {
            track_count_set(pre.playlists, post.playlists, playlist_id@, track_count)
                && post == (Sources { playlists: post.playlists, ..pre })
        } else {
            post == pre
        },
        ServerMsg::PlaylistCreated { playlist } => upserted(pre.playlists, post.playlists, playlist)
            && post == (Sources { playlists: post.playlists, ..pre }),
        ServerMsg::PlaylistMutated { playlist_id, mutation } => mutation_folded(pre, post, playlist_id, mutation),
        ServerMsg::ListBegin { target, total, focus } => match target {
            ListTarget::Playlist { id } => {
                &&& post.playlist_tracks.playlist_id == Some(id)
                &&& post.playlist_tracks.songs@ == Seq::<Option<Song>>::new(total as nat, |i: int| None)
                &&& post.playlist_tracks.focus == focus
                &&& !post.playlist_tracks.stale
                &&& post.playlist_tracks.pending_task == pre.playlist_tracks.pending_task
                &&& post == (Sources { playlist_tracks: post.playlist_tracks, ..pre })
            },
            ListTarget::Queue { queue_id, version } => {
                let q = for_queue(pre.queue.model(), queue_id);
                &&& post.queue.model() == (QueueModel {
                    version,
                    expected_total: Some(total),
                    current_index: if focus < total && q.current_index is None { Some(focus) } else { q.current_index },
                    ..q
                })
                &&& post == (Sources { queue: post.queue, ..pre })
            },
        },
        ServerMsg::ListChunk { target, offset, songs } => match target {
            ListTarget::Playlist { id } => if opt_view(pre.playlist_tracks.playlist_id) == Some(id@) {
                &&& post.playlist_tracks.songs@.len() == pre.playlist_tracks.songs@.len()
                &&& forall|k: int| 0 <= k < pre.playlist_tracks.songs@.len() ==> #[trigger] post.playlist_tracks.songs@[k]
                    == (if offset <= k < offset + songs@.len() { Some(songs@[k - offset]) } else { pre.playlist_tracks.songs@[k] })
                &&& tracks_rows_only(pre.playlist_tracks, post.playlist_tracks)
                &&& post == (Sources { playlist_tracks: post.playlist_tracks, ..pre })
            } else {
                post == pre
            },
            ListTarget::Queue { .. } => post == pre,
        },
        ServerMsg::QueueChunk { queue_id, offset, entries } => {
            let q = for_queue(pre.queue.model(), queue_id);
            &&& post.queue.model() == (if offset <= q.items.len() {
                QueueModel {
                    items: q.items.take(offset as int) + entry_songs(entries@),
                    ids: prefix(q.ids, offset as int) + entry_ids_of(entries@),
                    ..q
                }
            } else {
                q
            })
            &&& post == (Sources { queue: post.queue, ..pre })
        },
        ServerMsg::QueueDelta { queue_id, version, delta } => {
            &&& post.queue.model() == delta_model(QueueModel { version, ..for_queue(pre.queue.model(), queue_id) }, delta)
            &&& post == (Sources { queue: post.queue, ..pre })
        },
        ServerMsg::QueueCatchUp { queue_id, deltas } => {
            &&& post.queue.model() == replayed(for_queue(pre.queue.model(), queue_id), deltas@)
            &&& post == (Sources { queue: post.queue, ..pre })
        },
        ServerMsg::SearchMore(page) => match r.task_id {
            Some(t) => if pre.search.task_id == Some(t) {
                &&& post.search.songs@ == pre.search.songs@ + page.songs@
                &&& post.search.albums@ == pre.search.albums@ + page.albums@
                &&& post.search.artists@ == pre.search.artists@ + page.artists@
                &&& post.search == (Search {
                    songs: post.search.songs,
                    albums: post.search.albums,
                    artists: post.search.artists,
                    ..pre.search
                })
                &&& post == (Sources { search: post.search, ..pre })
            } else {
                post == pre
            },
            None => post == pre,
        },
        ServerMsg::SimilarArtists { artist_id, artists } => {
            &&& post.artist_extras.extra_of(artist_id@) matches Some(e) && e.similar@ == artists@
                && e.paged_albums@ == (match pre.artist_extras.extra_of(artist_id@) {
                    Some(o) => o.paged_albums@,
                    None => Seq::empty(),
                })
            &&& forall|o: Seq<char>| o != artist_id@ ==> post.artist_extras.extra_of(o) == pre.artist_extras.extra_of(o)
            &&& post == (Sources { artist_extras: post.artist_extras, ..pre })
        },
        ServerMsg::ArtistAlbumsChunk { artist_id, albums } => {
            &&& post.artist_extras.extra_of(artist_id@) matches Some(e) && e.paged_albums@ == (match pre.artist_extras.extra_of(artist_id@) {
                Some(o) => o.paged_albums@,
                None => Seq::empty(),
            }) + albums@ && e.similar@ == (match pre.artist_extras.extra_of(artist_id@) {
                Some(o) => o.similar@,
                None => Seq::empty(),
            })
            &&& forall|o: Seq<char>| o != artist_id@ ==> post.artist_extras.extra_of(o) == pre.artist_extras.extra_of(o)
            &&& post == (Sources { artist_extras: post.artist_extras, ..pre })
        },
        ServerMsg::TaskStarted { task_id, peer, activity } => {
            &&& post.activity.tasks@ == pre.activity.tasks@.filter(task_not(task_id)).push(
                crate::state::server::ActivityTask { task_id, peer, activity, started_at: pre.now },
            )
            &&& post == (Sources { activity: post.activity, ..pre })
        },
        ServerMsg::TaskCompleted { task_id } => task_ended(pre, post, r.task_id, task_id),
        ServerMsg::TaskFailed { task_id } => task_ended(pre, post, r.task_id, task_id),
        _ => post == pre,
    }
}

/// Fold a broadcast frame (seq zero) into the source it describes.
pub fn fold_broadcast(sources: &mut Sources, response: Response)
    ensures
        broadcast_folded(*old(sources), *final(sources), response),
{
    let task_id = response.task_id;
    match response.msg {
        ServerMsg::StateUpdate(play) => {
            sources.server.play = Some(play);
        },
        ServerMsg::BackendChanged { backend } => {
            sources.server.backend = Some(backend);
        },
        ServerMsg::Playlists { playlists } => {
            sources.playlists.set_all(playlists);
        },
        ServerMsg::PlaylistTrackCount { playlist_id, track_count } => {
            if task_id == sources.playlists.pending_task {
                sources.playlists.set_track_count(&playlist_id, track_count);
            }
        },
        ServerMsg::PlaylistCreated { playlist } => {
            sources.playlists.upsert(playlist);
        },
        ServerMsg::PlaylistMutated { playlist_id, mutation } => {
            fold_mutation(sources, playlist_id, mutation);
        },
        ServerMsg::ListBegin { target, total, focus } => match target {
            ListTarget::Playlist { id } => {
                sources.playlist_tracks.begin(id, total, focus);
            },
            ListTarget::Queue { queue_id, version } => {
                sources.queue.follow(queue_id);
                sources.queue.version = version;
                sources.queue.expected_total = Some(total);
                if focus < total && sources.queue.current_index.is_none() {
                    sources.queue.current_index = Some(focus);
                }
            },
        },
        ServerMsg::ListChunk { target, offset, songs } => match target {
            ListTarget::Playlist { id } => {
                let open = match &sources.playlist_tracks.playlist_id {
                    Some(p) => crate::text::text_eq(p, &id),
                    None => false,
                };
                if open {
                    sources.playlist_tracks.chunk(offset, songs);
                }
            },
            ListTarget::Queue { .. } => {},
        },
        ServerMsg::QueueChunk { queue_id, offset, entries } => {
            sources.queue.follow(queue_id);
            if offset <= sources.queue.items.len() {
                sources.queue.chunk(offset, &entries);
            }
        },
        ServerMsg::QueueDelta { queue_id, version, delta } => {
            sources.queue.follow(queue_id);
            sources.queue.version = version;
            sources.queue.apply(&delta);
        },
        ServerMsg::QueueCatchUp { queue_id, deltas } => {
            sources.queue.follow(queue_id);
            sources.queue.catch_up(&deltas);
        },
        ServerMsg::SearchMore(page) => {
            if let Some(t) = task_id {
                sources.search.append(t, page);
            }
        },
        ServerMsg::SimilarArtists { artist_id, artists } => {
            sources.artist_extras.set_similar(artist_id, artists);
        },
        ServerMsg::ArtistAlbumsChunk { artist_id, albums } => {
            sources.artist_extras.append_albums(artist_id, albums);
        },
        ServerMsg::TaskStarted { task_id: tid, peer, activity } => {
            let now = sources.now;
            sources.activity.started(tid, peer, activity, now);
        },
        ServerMsg::TaskCompleted { task_id: tid } => {
            end_task(sources, task_id, tid);
        },
        ServerMsg::TaskFailed { task_id: tid } => {
            end_task(sources, task_id, tid);
        },
        _ => {},
    }
}

// ---------------------------------------------------------------------
// Replies
// ---------------------------------------------------------------------

/// The album-detail pane waiting on `seq` with a placeholder id learns
/// the real id `resolved`; any other mode is unchanged.
pub open spec fn album_resolved(m: MiddleMode, seq: u64, resolved: String) -> MiddleMode {
    match m {
        MiddleMode::AlbumDetail { album_id, album_title, awaiting_seq } =>
            if album_id@.len() == 0 && awaiting_seq == Some(seq) {
                MiddleMode::AlbumDetail { album_id: resolved, album_title, awaiting_seq }
            } else {
                m
            },
        _ => m,
    }
}

fn resolve_album(m: &MiddleMode, seq: u64, resolved: &String) -> (r: MiddleMode)
    ensures
        r == album_resolved(*m, seq, *resolved),
{
    match m {
        MiddleMode::AlbumDetail { album_id, album_title, awaiting_seq } => {
            if album_id.as_str().is_empty() && *awaiting_seq == Some(seq) {
                MiddleMode::AlbumDetail {
                    album_id: resolved.clone(),
                    album_title: album_title.clone(),
                    awaiting_seq: *awaiting_seq,
                }
            } else {
                m.duplicate()
            }
        },
        _ => m.duplicate(),
    }
}

/// Every frame with its mode resolved.
pub open spec fn frames_resolved(frames: Seq<HistoryFrame>, seq: u64, resolved: String) -> Seq<HistoryFrame> {
    frames.map_values(|f: HistoryFrame| HistoryFrame { mode: album_resolved(f.mode, seq, resolved), ..f })
}

fn resolve_frames(frames: &Vec<HistoryFrame>, seq: u64, resolved: &String) -> (r: Vec<HistoryFrame>)
    ensures
        r@ == frames_resolved(frames@, seq, *resolved),
{
    let mut out: Vec<HistoryFrame> = Vec::new();
    let mut i: usize = 0;
    while i < frames.len()
        invariant
            i <= frames@.len(),
            out@ == frames_resolved(frames@.take(i as int), seq, *resolved),
        decreases frames@.len() - i,
    {
        let f = &frames[i];
        out.push(HistoryFrame { mode: resolve_album(&f.mode, seq, resolved), filter: f.filter.clone(), selected: f.selected });
        proof {
            assert(frames@.take(i + 1) =~= frames@.take(i as int).push(frames@[i as int]));
        }
        i = i + 1;
        assert(out@ =~= frames_resolved(frames@.take(i as int), seq, *resolved));
    }
    assert(frames@.take(frames@.len() as int) =~= frames@);
    out
}

/// What a reply to a request does to the sources, and the reply kept
/// for a consumer (`None` when the reply was consumed here). A reply to
/// the tracked playlist-list request settles that request (an error or
/// any other answer degrades a first list to empty); every other reply
/// is filed, after the facts it carries are folded in.
pub open spec fn reply_mirrored(pre: Sources, post: Sources, r: Response, kept: Option<ServerReply>) -> bool {
    if Some(r.seq) == pre.playlists.pending_request {
        let initial = !pre.playlists.loaded;
        &&& kept is None
        &&& post.playlists.pending_request is None
        &&& match r.msg {
            ServerMsg::Playlists { playlists } => post.playlists == (Playlists {
                items: post.playlists.items,
                loaded: true,
                stale: false,
                pending_request: None,
                ..pre.playlists
            }) && post.playlists.items@ == playlists@,
            _ => post.playlists == (Playlists {
                items: post.playlists.items,
                loaded: pre.playlists.loaded || initial,
                pending_request: None,
                pending_task: None,
                ..pre.playlists
            }) && (initial ==> post.playlists.items@.len() == 0) && (!initial ==> post.playlists.items@ == pre.playlists.items@),
        }
        &&& post == (Sources { playlists: post.playlists, ..pre })
    } else {
        match r.msg {
            ServerMsg::BackendChanged { backend } => kept is None && post == (Sources {
                server: ServerState { backend: Some(backend), ..pre.server },
                ..pre
            }),
            ServerMsg::PlaylistCreated { playlist } => {
                &&& kept == Some(ServerReply::Other)
                &&& upserted(pre.playlists, post.playlists, playlist)
                &&& post.pending_playlists.creating@ == pre.pending_playlists.creating@.filter(op_not_seq(r.seq))
                &&& post.pending_playlists.deleting@ == pre.pending_playlists.deleting@
                &&& post.pending_playlists.renaming@ == pre.pending_playlists.renaming@
                &&& post.pending_playlists.adding@ == pre.pending_playlists.adding@
                &&& post.pending_playlists.removing@ == pre.pending_playlists.removing@
                &&& post == (Sources { playlists: post.playlists, pending_playlists: post.pending_playlists, ..pre })
            },
            ServerMsg::StateUpdate(play) => kept == Some(ServerReply::Other) && post == (Sources {
                server: ServerState { play: Some(play), ..pre.server },
                ..pre
            }),
            ServerMsg::Search(page) => {
                &&& kept == Some(ServerReply::Other)
                &&& match r.task_id {
                    Some(t) => if pre.search.task_id == Some(t) {
                        &&& post.search.songs@ == page.songs@
                        &&& post.search.albums@ == page.albums@
                        &&& post.search.artists@ == page.artists@
                        &&& post.search == (Search {
                            songs: post.search.songs,
                            albums: post.search.albums,
                            artists: post.search.artists,
                            first_page_received: true,
                            ..pre.search
                        })
                    } else {
                        post.search == pre.search
                    },
                    None => post.search == pre.search,
                }
                &&& post == (Sources { search: post.search, ..pre })
            },
            ServerMsg::AlbumDetail { album_id, songs } => {
                &&& kept matches Some(ServerReply::AlbumDetail { album_id: a, songs: s }) && a == album_id && s@ == songs@
                &&& post.history.mode == album_resolved(pre.history.mode, r.seq, album_id)
                &&& post.history.back@ == frames_resolved(pre.history.back@, r.seq, album_id)
                &&& post.history.forward@ == frames_resolved(pre.history.forward@, r.seq, album_id)
                &&& post.history.last_transition == pre.history.last_transition
                &&& post.history.transition_seq == pre.history.transition_seq
                &&& post == (Sources { history: post.history, ..pre })
            },
            ServerMsg::ArtistDetail { artist_id, top_songs, top_albums, latest_albums } => kept == Some(
                ServerReply::ArtistDetail { artist_id, top_songs, top_albums, latest_albums },
            ) && post == pre,
            ServerMsg::Error { message } => {
                &&& kept == Some(ServerReply::Error { message })
                &&& post.pending_playlists.creating@ == pre.pending_playlists.creating@.filter(op_not_seq(r.seq))
                &&& post.pending_playlists.deleting@ == pre.pending_playlists.deleting@.filter(op_not_seq(r.seq))
                &&& post.pending_playlists.renaming@ == pre.pending_playlists.renaming@.filter(op_not_seq(r.seq))
                &&& post.pending_playlists.adding@ == pre.pending_playlists.adding@.filter(op_not_seq(r.seq))
                &&& post.pending_playlists.removing@ == pre.pending_playlists.removing@.filter(op_not_seq(r.seq))
                &&& post == (Sources { pending_playlists: post.pending_playlists, ..pre })
            },
            _ => kept == Some(ServerReply::Other) && post == pre,
        }
    }
}

/// Fold a reply (non-zero seq) into the sources; return what is filed
/// for consumers, or `None` when the reply was consumed here.
pub fn mirror_response_into_source(sources: &mut Sources, response: Response) -> (kept: Option<ServerReply>)
    ensures
        reply_mirrored(*old(sources), *final(sources), response, kept),
{
    let seq = response.seq;
    if Some(seq) == sources.playlists.pending_request {
        sources.playlists.pending_request = None;
        let was_initial = !sources.playlists.loaded;
        match response.msg {
            ServerMsg::Playlists { playlists } => {
                sources.playlists.set_all(playlists);
                sources.playlists.stale = false;
            },
            _ => {
                sources.playlists.pending_task = None;
                if was_initial {
                    sources.playlists.set_all(Vec::new());
                }
            },
        }
        return None;
    }
    match response.msg {
        ServerMsg::BackendChanged { backend } => {
            sources.server.backend = Some(backend);
            None
        },
        ServerMsg::PlaylistCreated { playlist } => {
            sources.playlists.upsert(playlist);
            sources.pending_playlists.drop_creating_seq(seq);
            Some(ServerReply::Other)
        },
        ServerMsg::StateUpdate(play) => {
            sources.server.play = Some(play);
            Some(ServerReply::Other)
        },
        ServerMsg::Search(page) => {
            if let Some(t) = response.task_id {
                sources.search.set_first_page(t, page);
            }
            Some(ServerReply::Other)
        },
        ServerMsg::AlbumDetail { album_id, songs } => {
            let mode = resolve_album(&sources.history.mode, seq, &album_id);
            let back = resolve_frames(&sources.history.back, seq, &album_id);
            let forward = resolve_frames(&sources.history.forward, seq, &album_id);
            sources.history.mode = mode;
            sources.history.back = back;
            sources.history.forward = forward;
            Some(ServerReply::AlbumDetail { album_id, songs })
        },
        ServerMsg::ArtistDetail { artist_id, top_songs, top_albums, latest_albums } => {
            Some(ServerReply::ArtistDetail { artist_id, top_songs, top_albums, latest_albums })
        },
        ServerMsg::Error { message } => {
            sources.pending_playlists.drop_seq(seq);
            Some(ServerReply::Error { message })
        },
        _ => Some(ServerReply::Other),
    }
}

/// A frame from the link: broadcasts (seq zero) fold into their source;
/// replies are mirrored and, unless consumed, filed under their seq.
/// What taking in one frame does to the sources.
pub open spec fn frame_ingested(pre: Sources, post: Sources, response: Response) -> bool {
    if response.seq == 0 {
        broadcast_folded(pre, post, response)
    } else {
        exists|mid: Sources, kept: Option<ServerReply>| {
            &&& #[trigger] reply_mirrored(pre, mid, response, kept)
            &&& match kept {
                None => post == mid,
                Some(reply) => {
                    &&& crate::seqs::lookup(post.responses.by_seq@, crate::state::server::reply_seq(), response.seq)
                        == Some(ResponseEntry { seq: response.seq, reply })
                    &&& forall|o: u64| o != response.seq ==> crate::seqs::lookup(post.responses.by_seq@, crate::state::server::reply_seq(), o)
                        == crate::seqs::lookup(mid.responses.by_seq@, crate::state::server::reply_seq(), o)
                    &&& post == (Sources { responses: post.responses, ..mid })
                },
            }
        }
    }
}

pub fn ingest_frame(sources: &mut Sources, response: Response)
    ensures
        frame_ingested(*old(sources), *final(sources), response),
{
    if response.seq == 0 {
        fold_broadcast(sources, response);
        return;
    }
    let ghost r = response;
    let seq = response.seq;
    let kept = mirror_response_into_source(sources, response);
    let ghost mid = *sources;
    if let Some(reply) = kept {
        sources.responses.insert(seq, reply);
    }
    assert(reply_mirrored(*old(sources), mid, r, kept));
}

// ---------------------------------------------------------------------
// Link, credentials, discovery and persist events
// ---------------------------------------------------------------------

/// The pairing was confirmed and holds every credential fragment.
pub open spec fn pairing_complete(p: Pairing) -> bool {
    p.phase == PairingPhase::Confirming && p.server_fingerprint is Some && p.server_cert_pem is Some
        && p.client_cert_pem is Some && p.client_key_pem is Some
}

/// A pairing closed after the user confirmed it: store the credentials,
/// clear the pairing and turn the pairing target into the connect
/// target. Otherwise nothing happens.
pub fn maybe_persist_confirmed_pairing(sources: &mut Sources) -> (cmd: Option<CredCmd>)
    ensures
        !pairing_complete(old(sources).pairing) ==> cmd is None && *final(sources) == *old(sources),
        pairing_complete(old(sources).pairing) ==> {
            let p = old(sources).pairing;
            &&& cmd matches Some(CredCmd::Save(saved)) && saved.fingerprint == p.server_fingerprint->0
                && saved.server_cert_pem == p.server_cert_pem->0 && saved.client_cert_pem == p.client_cert_pem->0
                && saved.client_key_pem == p.client_key_pem->0
                && saved.host@ == (match old(sources).intent.pair_target {
                    Some(t) => t@,
                    None => Seq::empty(),
                })
            &&& final(sources).pairing.is_reset()
            &&& final(sources).intent.pair_target is None
            &&& final(sources).intent.target == (match old(sources).intent.pair_target {
                Some(t) => Some(t),
                None => old(sources).intent.target,
            })
            &&& *final(sources) == (Sources { pairing: final(sources).pairing, intent: final(sources).intent, ..*old(sources) })
        },
{
    if sources.pairing.phase != PairingPhase::Confirming {
        return None;
    }
    let (fingerprint, server_cert_pem, client_cert_pem, client_key_pem) = match (
        &sources.pairing.server_fingerprint,
        &sources.pairing.server_cert_pem,
        &sources.pairing.client_cert_pem,
        &sources.pairing.client_key_pem,
    ) {
        (Some(f), Some(s), Some(c), Some(k)) => (f.clone(), s.clone(), c.clone(), k.clone()),
        _ => return None,
    };
    let pair_target = sources.intent.pair_target.take();
    let host = match &pair_target {
        Some(t) => t.clone(),
        None => String::new(),
    };
    let entry = PairingEntry { fingerprint, host, server_cert_pem, client_cert_pem, client_key_pem };
    sources.pairing = Pairing::new();
    if let Some(name) = pair_target {
        sources.intent.target = Some(name);
    }
    Some(CredCmd::Save(entry))
}

/// What one link event does to the sources.
pub open spec fn link_event_folded(pre: Sources, post: Sources, ev: LinkEvent, peer: Peer, version: u32) -> bool {
    match ev {
        LinkEvent::Connected { kind } => {
            &&& post.link == (crate::state::link::Link {
                phase: LinkPhase::Connected,
                kind: Some(kind),
                last_err: None,
                ..pre.link
            })
            &&& match kind {
                LinkKind::Pairing => post.pairing == (Pairing { phase: PairingPhase::AwaitingResponse, ..pre.pairing })
                    && post == (Sources { link: post.link, pairing: post.pairing, ..pre }),
                LinkKind::Client => {
                    &&& post.requests.pending@ == pre.requests.pending@.push(PendingRequest {
                        seq: next_id(pre.requests.last_seq),
                        task_id: None,
                        msg: ClientMsg::Hello { peer, version },
                    })
                    &&& post.requests.last_seq == next_id(pre.requests.last_seq)
                    &&& post.requests.last_task == pre.requests.last_task
                    &&& post == (Sources { link: post.link, requests: post.requests, ..pre })
                },
            }
        },
        LinkEvent::Frame(response) => frame_ingested(pre, post, response),
        LinkEvent::PairingReady { server_cert_pem, client_cert_pem, client_key_pem, fingerprint, code } => post == (Sources {
            pairing: Pairing {
                phase: PairingPhase::AwaitingConfirmation,
                code: Some(code),
                server_fingerprint: Some(fingerprint),
                server_cert_pem: Some(server_cert_pem),
                client_cert_pem: Some(client_cert_pem),
                client_key_pem: Some(client_key_pem),
                error: None,
            },
            ..pre
        }),
        LinkEvent::PairFailed { message } => post == (Sources {
            pairing: Pairing { phase: PairingPhase::Failed, error: Some(message), ..pre.pairing },
            ..pre
        }),
        LinkEvent::ProbeResult { addr, result } => {
            &&& crate::state::probes::probe_of(post.probes.by_addr@, addr) == Some(match result {
                Ok(fp) => crate::state::probes::ProbeOutcome::Fingerprint(fp),
                Err(m) => crate::state::probes::ProbeOutcome::Failed(m),
            })
            &&& forall|a: crate::state::discovery::Endpoint| a != addr ==> crate::state::probes::probe_of(post.probes.by_addr@, a)
                == crate::state::probes::probe_of(pre.probes.by_addr@, a)
            &&& post == (Sources { probes: post.probes, ..pre })
        },
        LinkEvent::Closed { error } => {
            &&& post.link == (crate::state::link::Link { phase: LinkPhase::Closed, kind: None, last_err: error, ..pre.link })
            &&& (pairing_complete(pre.pairing) ==> post.pairing.is_reset() && post.intent.pair_target is None
                && post.intent.target == (match pre.intent.pair_target {
                    Some(t) => Some(t),
                    None => pre.intent.target,
                }))
            &&& (!pairing_complete(pre.pairing) ==> post.pairing == pre.pairing && post.intent == pre.intent)
            &&& server_derived_cleared(pre, post)
            &&& post.playlists.is_reset()
            &&& post.requests.pending@.len() == 0
            &&& post.requests.last_seq == pre.requests.last_seq
            &&& post.requests.last_task == pre.requests.last_task
            &&& post.server.is_reset()
            &&& post == (Sources {
                link: post.link,
                pairing: post.pairing,
                intent: post.intent,
                requests: post.requests,
                server: post.server,
                responses: post.responses,
                queue: post.queue,
                playlists: post.playlists,
                playlist_tracks: post.playlist_tracks,
                search: post.search,
                artist_extras: post.artist_extras,
                activity: post.activity,
                pending_playlists: post.pending_playlists,
                ..pre
            })
        },
    }
}

/// Fold one link event into the sources. A closed pairing the user had
/// confirmed yields the command that stores its credentials.
pub fn ingest_link(sources: &mut Sources, ev: LinkEvent, peer: Peer, version: u32) -> (cmd: Option<CredCmd>)
    ensures
        link_event_folded(*old(sources), *final(sources), ev, peer, version),
        (ev is Closed && pairing_complete(old(sources).pairing)) <==> cmd is Some,
        cmd matches Some(c) ==> c is Save,
{
    match ev {
        LinkEvent::Connected { kind } => {
            sources.link.phase = LinkPhase::Connected;
            sources.link.kind = Some(kind);
            sources.link.last_err = None;
            match kind {
                LinkKind::Pairing => {
                    sources.pairing.phase = PairingPhase::AwaitingResponse;
                },
                LinkKind::Client => {
                    sources.requests.push(ClientMsg::Hello { peer, version }, None);
                },
            }
            None
        },
        LinkEvent::Frame(response) => {
            ingest_frame(sources, response);
            None
        },
        LinkEvent::PairingReady { server_cert_pem, client_cert_pem, client_key_pem, fingerprint, code } => {
            sources.pairing = Pairing {
                phase: PairingPhase::AwaitingConfirmation,
                code: Some(code),
                server_fingerprint: Some(fingerprint),
                server_cert_pem: Some(server_cert_pem),
                client_cert_pem: Some(client_cert_pem),
                client_key_pem: Some(client_key_pem),
                error: None,
            };
            None
        },
        LinkEvent::PairFailed { message } => {
            sources.pairing.phase = PairingPhase::Failed;
            sources.pairing.error = Some(message);
            None
        },
        LinkEvent::ProbeResult { addr, result } => {
            match result {
                Ok(fp) => sources.probes.set_fingerprint(addr, fp),
                Err(m) => sources.probes.set_failed(addr, m),
            }
            None
        },
        LinkEvent::Closed { error } => {
            let cmd = maybe_persist_confirmed_pairing(sources);
            sources.link.phase = LinkPhase::Closed;
            sources.link.kind = None;
            sources.link.last_err = error;
            reset_server_derived_state(sources);
            cmd
        },
    }
}

/// The entry stored for `fp` once `entries` were inserted in order:
/// the last one with that fingerprint.
pub open spec fn last_cred(entries: Seq<PairingEntry>, fp: Seq<char>) -> Option<PairingEntry>
    decreases entries.len(),
{
    if entries.len() == 0 {
        None
    } else if entries.last().fingerprint@ == fp {
        Some(entries.last())
    } else {
        last_cred(entries.drop_last(), fp)
    }
}

/// What folding one credentials event does to the store. A load also
/// leaves no two entries with one fingerprint; the other events keep
/// that.
pub open spec fn credentials_folded(pre: Credentials, post: Credentials, ev: CredEvent) -> bool {
    &&& match ev {
        CredEvent::Loaded(entries) => post.loaded
            && forall|fp: Seq<char>| #[trigger] cred_of(post.entries@, fp) == last_cred(entries@, fp),
        CredEvent::Saved(e) => cred_of(post.entries@, e.fingerprint@) == Some(e)
            && post.loaded == pre.loaded
            && forall|fp: Seq<char>| fp != e.fingerprint@ ==> cred_of(post.entries@, fp) == cred_of(pre.entries@, fp),
        CredEvent::Deleted { fingerprint } => post.loaded == pre.loaded
            && post.entries@ == match crate::seqs::first_index(pre.entries@, crate::state::credentials::for_fp(fingerprint@)) {
                Some(i) => pre.entries@.remove(i),
                None => pre.entries@,
            },
        CredEvent::Error { .. } => post == pre,
    }
    &&& (ev is Loaded || crate::state::credentials::fps_unique(pre.entries@))
        ==> crate::state::credentials::fps_unique(post.entries@)
}

/// Fold one credentials event: a load replaces the store (later
/// entries win on a shared fingerprint) and marks it loaded; a save
/// stores; a delete drops; an error changes nothing.
pub fn ingest_credentials(creds: &mut Credentials, ev: CredEvent)
    ensures
        credentials_folded(*old(creds), *final(creds), ev),
{
    match ev {
        CredEvent::Loaded(entries) => {
            creds.entries = Vec::new();
            assert forall|fp: Seq<char>| #[trigger] cred_of(creds.entries@, fp) == last_cred(entries@.take(0), fp) by {
                crate::seqs::lemma_none_index(creds.entries@, crate::state::credentials::for_fp(fp));
            }
            let mut i: usize = 0;
            while i < entries.len()
                invariant
                    i <= entries@.len(),
                    forall|fp: Seq<char>| #[trigger] cred_of(creds.entries@, fp) == last_cred(entries@.take(i as int), fp),
                    crate::state::credentials::fps_unique(creds.entries@),
                decreases entries@.len() - i,
            {
                let e = entries[i].duplicate();
                proof {
                    assert(entries@.take(i + 1).drop_last() =~= entries@.take(i as int));
                    assert(entries@.take(i + 1).last() == e);
                }
                creds.insert(e);
                i = i + 1;
            }
            assert(entries@.take(entries@.len() as int) =~= entries@);
            creds.loaded = true;
        },
        CredEvent::Saved(e) => creds.insert(e),
        CredEvent::Deleted { fingerprint } => creds.remove(&fingerprint),
        CredEvent::Error { .. } => {},
    }
}

/// What folding one discovery event does: a sighting replaces the
/// entry of that name in place or appends it, a removal drops it; no
/// two entries ever share a name.
pub open spec fn discovery_folded(pre: Discovery, post: Discovery, ev: DiscoveryEvent) -> bool {
    &&& post.wf()
    &&& match ev {
        DiscoveryEvent::Added(ad) | DiscoveryEvent::Refreshed(ad) => match find_first_name(pre.servers@, ad.name@) {
            Some(i) => post.servers@ == pre.servers@.update(i, ad),
            None => post.servers@ == pre.servers@.push(ad),
        },
        DiscoveryEvent::Removed { name } => match find_first_name(pre.servers@, name@) {
            Some(i) => post.servers@ == pre.servers@.remove(i),
            None => post.servers@ == pre.servers@,
        },
    }
}

/// Fold one discovery event: a sighting adds or refreshes the server,
/// a removal drops it.
pub fn ingest_discovery(discovery: &mut Discovery, ev: DiscoveryEvent)
    requires
        old(discovery).wf(),
    ensures
        discovery_folded(*old(discovery), *final(discovery), ev),
{
    match ev {
        DiscoveryEvent::Added(ad) => discovery.upsert(ad),
        DiscoveryEvent::Refreshed(ad) => discovery.upsert(ad),
        DiscoveryEvent::Removed { name } => discovery.remove(&name),
    }
}

/// The search-history rows the modal lists for stored items.
pub open spec fn history_rows(items: Seq<crate::persist::SearchHistoryItem>) -> Seq<SearchHistoryEntry> {
    items.map_values(|i: crate::persist::SearchHistoryItem| SearchHistoryEntry { query: i.query, search_type: i.search_type, ts: i.ts })
}

/// Fold one persist event. Each answer clears its load from the
/// in-flight set; the last server seeds the preferred server once; a
/// loaded view is stashed for the restore rule; a search history fills
/// the open search modal and a last add target the picker, both only
/// for the live backend.
pub fn ingest_persist(sources: &mut Sources, ev: PersistEvent)
    ensures
        match ev {
            PersistEvent::LastServerLoaded { name } => {
                &&& final(sources).persist.loads_in_flight.contents() == old(sources).persist.loads_in_flight.contents().remove(LoadKeyModel::LastServer)
                &&& final(sources).session.preferred_server == (if old(sources).session.preferred_server is None {
                    name
                } else {
                    old(sources).session.preferred_server
                })
                &&& final(sources).session == (crate::state::session::UiSession {
                    preferred_server: final(sources).session.preferred_server,
                    ..old(sources).session
                })
                &&& final(sources).persist == (crate::persist::Persist { loads_in_flight: final(sources).persist.loads_in_flight, ..old(sources).persist })
                &&& *final(sources) == (Sources { persist: final(sources).persist, session: final(sources).session, ..*old(sources) })
            },
            PersistEvent::ViewLoaded { backend, view } => {
                &&& final(sources).persist.loads_in_flight.contents() == old(sources).persist.loads_in_flight.contents().remove(LoadKeyModel::View(backend@))
                &&& final(sources).persist.last_view_load == Some(ViewLoadResult { backend, view })
                &&& final(sources).persist == (crate::persist::Persist {
                    loads_in_flight: final(sources).persist.loads_in_flight,
                    last_view_load: final(sources).persist.last_view_load,
                    ..old(sources).persist
                })
                &&& *final(sources) == (Sources { persist: final(sources).persist, ..*old(sources) })
            },
            PersistEvent::SearchHistoryLoaded { backend, history } => {
                &&& final(sources).persist.loads_in_flight.contents() == old(sources).persist.loads_in_flight.contents().remove(LoadKeyModel::SearchHistory(backend@))
                &&& final(sources).persist == (crate::persist::Persist { loads_in_flight: final(sources).persist.loads_in_flight, ..old(sources).persist })
                &&& (opt_view(old(sources).session.backend_name) == Some(backend@) && old(sources).screen is SearchInput) ==> (
                    final(sources).screen matches Screen::SearchInput(st) && old(sources).screen matches Screen::SearchInput(o)
                    && st.history@ == history_rows(history.items@) && st.input == o.input && st.last_type == o.last_type
                    && st.history_selected == o.history_selected)
                &&& !(opt_view(old(sources).session.backend_name) == Some(backend@) && old(sources).screen is SearchInput)
                    ==> final(sources).screen == old(sources).screen
                &&& *final(sources) == (Sources { persist: final(sources).persist, screen: final(sources).screen, ..*old(sources) })
            },
            PersistEvent::LastAddPlaylistLoaded { backend, id } => {
                &&& final(sources).persist.loads_in_flight.contents() == old(sources).persist.loads_in_flight.contents().remove(LoadKeyModel::LastAddPlaylist(backend@))
                &&& final(sources).persist == (crate::persist::Persist { loads_in_flight: final(sources).persist.loads_in_flight, ..old(sources).persist })
                &&& final(sources).picker.last_add_playlist == (if opt_view(old(sources).session.backend_name) == Some(backend@) {
                    id
                } else {
                    old(sources).picker.last_add_playlist
                })
                &&& final(sources).picker.pending_create_add == old(sources).picker.pending_create_add
                &&& *final(sources) == (Sources { persist: final(sources).persist, picker: final(sources).picker, ..*old(sources) })
            },
            PersistEvent::KeybindingsLoaded { keybindings } => {
                &&& final(sources).persist.loads_in_flight.contents() == old(sources).persist.loads_in_flight.contents().remove(LoadKeyModel::Keybindings)
                &&& final(sources).persist == (crate::persist::Persist { loads_in_flight: final(sources).persist.loads_in_flight, ..old(sources).persist })
                &&& final(sources).keybindings == keybindings
                &&& *final(sources) == (Sources { persist: final(sources).persist, keybindings: final(sources).keybindings, ..*old(sources) })
            },
            PersistEvent::KeybindingsSaved { keybindings } => {
                &&& final(sources).keybindings == keybindings
                &&& final(sources).toast.message matches Some(m) && m@ == "Keybindings saved"@
                &&& final(sources).toast.expires_at == Some(crate::state::link::sat_add(old(sources).now, crate::state::keybindings::KEY_TOAST_MS))
                &&& *final(sources) == (Sources { keybindings: final(sources).keybindings, toast: final(sources).toast, ..*old(sources) })
            },
            PersistEvent::SaveFailed { op, .. } => if op@ == "save_keybindings"@ {
                &&& final(sources).toast.message matches Some(m) && m@ == "Failed to save keybindings"@
                &&& final(sources).toast.expires_at == Some(crate::state::link::sat_add(old(sources).now, crate::state::keybindings::KEY_TOAST_MS))
                &&& *final(sources) == (Sources { toast: final(sources).toast, ..*old(sources) })
            } else {
                *final(sources) == *old(sources)
            },
        },
{
    match ev {
        PersistEvent::KeybindingsLoaded { keybindings } => {
            sources.persist.loads_in_flight.remove(&LoadKey::Keybindings);
            sources.keybindings = keybindings;
        },
        PersistEvent::KeybindingsSaved { keybindings } => {
            sources.keybindings = keybindings;
            let until = sources.now.saturating_add(crate::state::keybindings::KEY_TOAST_MS);
            sources.toast.show("Keybindings saved".to_owned(), until);
        },
        PersistEvent::LastServerLoaded { name } => {
            sources.persist.loads_in_flight.remove(&LoadKey::LastServer);
            if sources.session.preferred_server.is_none() {
                sources.session.preferred_server = name;
            }
        },
        PersistEvent::ViewLoaded { backend, view } => {
            sources.persist.loads_in_flight.remove(&LoadKey::View(backend.clone()));
            sources.persist.last_view_load = Some(ViewLoadResult { backend, view });
        },
        PersistEvent::SearchHistoryLoaded { backend, history } => {
            sources.persist.loads_in_flight.remove(&LoadKey::SearchHistory(backend.clone()));
            let live = match &sources.session.backend_name {
                Some(b) => crate::text::text_eq(b, &backend),
                None => false,
            };
            if live {
                let rows = search_history_rows(history);
                let mut screen = Screen::NowPlaying;
                std::mem::swap(&mut screen, &mut sources.screen);
                sources.screen = match screen {
                    Screen::SearchInput(st) => Screen::SearchInput(crate::state::ui::SearchState {
                        input: st.input,
                        last_type: st.last_type,
                        history: rows,
                        history_selected: st.history_selected,
                    }),
                    other => other,
                };
            }
        },
        PersistEvent::LastAddPlaylistLoaded { backend, id } => {
            sources.persist.loads_in_flight.remove(&LoadKey::LastAddPlaylist(backend.clone()));
            let live = match &sources.session.backend_name {
                Some(b) => crate::text::text_eq(b, &backend),
                None => false,
            };
            if live {
                sources.picker.last_add_playlist = id;
            }
        },
        PersistEvent::SaveFailed { op, .. } => {
            if crate::text::text_eq(&op, &"save_keybindings".to_owned()) {
                let until = sources.now.saturating_add(crate::state::keybindings::KEY_TOAST_MS);
                sources.toast.show("Failed to save keybindings".to_owned(), until);
            }
        },
    }
}

fn search_history_rows(history: crate::persist::SearchHistory) -> (r: Vec<SearchHistoryEntry>)
    ensures
        r@ == history_rows(history.items@),
{
    let items = history.items;
    let mut out: Vec<SearchHistoryEntry> = Vec::new();
    let mut i: usize = 0;
    while i < items.len()
        invariant
            i <= items@.len(),
            out@ == history_rows(items@.take(i as int)),
        decreases items@.len() - i,
    {
        let it = &items[i];
        out.push(SearchHistoryEntry { query: it.query.clone(), search_type: it.search_type.clone(), ts: it.ts });
        proof {
            assert(items@.take(i + 1) =~= items@.take(i as int).push(items@[i as int]));
        }
        i = i + 1;
        assert(out@ =~= history_rows(items@.take(i as int)));
    }
    assert(items@.take(items@.len() as int) =~= items@);
    out
}

} // verus!
