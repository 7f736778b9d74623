//! Re-issue the playlist list, the open playlist and an interrupted
//! search once they are marked stale and nothing is in flight for them.

use vstd::prelude::*;
use crate::execute::ref_view;
use crate::proto::{ClientMsg, SearchType, TaskId};
use crate::state::history::MiddleMode;
use crate::state::requests::{next_id, PendingRequest};
use crate::state::sources::Sources;
use crate::text::opt_view;

verus! {

pub struct PlaylistsRefetchInput {
    pub stale: bool,
    pub pending_request: Option<u64>,
    pub pending_task: Option<TaskId>,
}

pub struct PlaylistTracksRefetchInput<'a> {
    pub stale: bool,
    pub playlist_id: Option<&'a String>,
    pub focus: usize,
    pub pending_task: Option<TaskId>,
}

pub enum PlaylistsRefetchAction {
    Noop,
    Fire,
}

pub enum PlaylistTracksRefetchAction {
    Noop,
    Fire { id: String, focus: usize },
}

/// Refetch the list when it is stale and neither its request nor its
/// count stream is outstanding.
pub open spec fn spec_playlists_refetch(stale: bool, pending_request: Option<u64>, pending_task: Option<TaskId>) -> bool {
    stale && pending_request is None && pending_task is None
}

pub fn playlists_refetch_action(input: &PlaylistsRefetchInput) -> (r: PlaylistsRefetchAction)
    ensures
        r is Fire <==> spec_playlists_refetch(input.stale, input.pending_request, input.pending_task),
{
    if input.stale && input.pending_request.is_none() && input.pending_task.is_none() {
        PlaylistsRefetchAction::Fire
    } else {
        PlaylistsRefetchAction::Noop
    }
}

/// Refetch the open playlist when it is stale and no transfer of it is
/// outstanding.
pub open spec fn spec_tracks_refetch(stale: bool, playlist_id: Option<Seq<char>>, pending_task: Option<TaskId>) -> Option<Seq<char>> {
    match playlist_id {
        None => None,
        Some(id) => if !stale || pending_task is Some { None } else { Some(id) },
    }
}

pub fn playlist_tracks_refetch_action(input: &PlaylistTracksRefetchInput) -> (r: PlaylistTracksRefetchAction)
    ensures
        match spec_tracks_refetch(input.stale, ref_view(input.playlist_id), input.pending_task) {
            None => r is Noop,
            Some(i) => r matches PlaylistTracksRefetchAction::Fire { id, focus } && id@ == i && focus == input.focus,
        },
{
    let id = match input.playlist_id {
        None => return PlaylistTracksRefetchAction::Noop,
        Some(i) => i,
    };
    if !input.stale || input.pending_task.is_some() {
        return PlaylistTracksRefetchAction::Noop;
    }
    PlaylistTracksRefetchAction::Fire { id: id.clone(), focus: input.focus }
}

pub open spec fn spec_playlists_refetch_step(s: Sources) -> bool {
    spec_playlists_refetch(s.playlists.stale, s.playlists.pending_request, s.playlists.pending_task)
}

/// What `apply_playlists_refetch` does to the sources.
pub open spec fn apply_playlists_refetch_effect(pre: Sources, post: Sources) -> bool {
    &&& (!spec_playlists_refetch_step(pre) ==> post == pre)
    &&& (spec_playlists_refetch_step(pre) ==> {
        let t = next_id(pre.requests.last_task);
        let seq = next_id(pre.requests.last_seq);
        &&& post.requests.pending@ == pre.requests.pending@.push(
            PendingRequest { seq, task_id: Some(t), msg: ClientMsg::GetPlaylists },
        )
        &&& post.requests.last_seq == seq
        &&& post.requests.last_task == t
        &&& post.playlists == (crate::state::playlists::Playlists {
            pending_request: Some(seq),
            pending_task: Some(t),
            stale: false,
            ..pre.playlists
        })
        &&& post == (Sources {
            requests: post.requests,
            playlists: post.playlists,
            ..pre
        })
    })
    &&& (!spec_playlists_refetch_step(post))
}

pub fn apply_playlists_refetch(sources: &mut Sources)
    ensures
        apply_playlists_refetch_effect(*old(sources), *final(sources)),
{
    let action = playlists_refetch_action(&PlaylistsRefetchInput {
        stale: sources.playlists.stale,
        pending_request: sources.playlists.pending_request,
        pending_task: sources.playlists.pending_task,
    });
    match action {
        PlaylistsRefetchAction::Noop => return,
        PlaylistsRefetchAction::Fire => {},
    }
    let task_id = sources.requests.alloc_task_id();
    let seq = sources.requests.push(ClientMsg::GetPlaylists, Some(task_id));
    sources.playlists.pending_request = Some(seq);
    sources.playlists.pending_task = Some(task_id);
    sources.playlists.stale = false;
}

pub open spec fn spec_tracks_refetch_step(s: Sources) -> Option<Seq<char>> {
    spec_tracks_refetch(s.playlist_tracks.stale, opt_view(s.playlist_tracks.playlist_id), s.playlist_tracks.pending_task)
}

/// What `apply_playlist_tracks_refetch` does to the sources.
pub open spec fn apply_playlist_tracks_refetch_effect(pre: Sources, post: Sources) -> bool {
    &&& (spec_tracks_refetch_step(pre) is None ==> post == pre)
    &&& (spec_tracks_refetch_step(pre) matches Some(id) ==> {
        let t = next_id(pre.requests.last_task);
        let seq = next_id(pre.requests.last_seq);
        &&& post.requests.pending@.len() == pre.requests.pending@.len() + 1
        &&& post.requests.pending@.drop_last() =~= pre.requests.pending@
        &&& post.requests.pending@.last().seq == seq
        &&& post.requests.pending@.last().task_id == Some(t)
        &&& post.requests.pending@.last().msg matches ClientMsg::GetPlaylist { id: i, focus }
            && i@ == id && focus == pre.playlist_tracks.focus
        &&& post.requests.last_seq == seq
        &&& post.requests.last_task == t
        &&& post.playlist_tracks == (crate::state::playlists::PlaylistTracks {
            pending_task: Some(t),
            stale: false,
            ..pre.playlist_tracks
        })
        &&& post == (Sources {
            requests: post.requests,
            playlist_tracks: post.playlist_tracks,
            ..pre
        })
    })
    &&& (spec_tracks_refetch_step(post) is None)
}

pub fn apply_playlist_tracks_refetch(sources: &mut Sources)
    ensures
        apply_playlist_tracks_refetch_effect(*old(sources), *final(sources)),
{
    let action = playlist_tracks_refetch_action(&PlaylistTracksRefetchInput {
        stale: sources.playlist_tracks.stale,
        playlist_id: sources.playlist_tracks.playlist_id.as_ref(),
        focus: sources.playlist_tracks.focus,
        pending_task: sources.playlist_tracks.pending_task,
    });
    let (id, focus) = match action {
        PlaylistTracksRefetchAction::Noop => return,
        PlaylistTracksRefetchAction::Fire { id, focus } => (id, focus),
    };
    let task_id = sources.requests.alloc_task_id();
    sources.playlist_tracks.pending_task = Some(task_id);
    sources.playlist_tracks.stale = false;
    sources.requests.push(ClientMsg::GetPlaylist { id, focus }, Some(task_id));
}

pub struct SearchRefetchInput<'a> {
    pub stale: bool,
    pub term: &'a String,
    pub search_type: SearchType,
    pub pending_task: Option<TaskId>,
}

pub enum SearchRefetchAction {
    Noop,
    Fire { term: String, search_type: SearchType },
}

/// Re-run an interrupted search: stale, nothing in flight, a term.
pub open spec fn spec_search_refetch(stale: bool, term: Seq<char>, pending_task: Option<TaskId>) -> bool {
    stale && pending_task is None && term.len() > 0
}

pub fn search_refetch_action(input: &SearchRefetchInput) -> (r: SearchRefetchAction)
    ensures
        !spec_search_refetch(input.stale, input.term@, input.pending_task) ==> r is Noop,
        spec_search_refetch(input.stale, input.term@, input.pending_task) ==> (r matches SearchRefetchAction::Fire { term, search_type }
            && term@ == input.term@ && search_type == input.search_type),
{
    if !input.stale || input.pending_task.is_some() {
        return SearchRefetchAction::Noop;
    }
    if input.term.as_str().is_empty() {
        return SearchRefetchAction::Noop;
    }
    SearchRefetchAction::Fire { term: input.term.clone(), search_type: input.search_type }
}

pub open spec fn spec_search_refetch_step(s: Sources) -> bool {
    spec_search_refetch(s.search.stale, s.search.term@, s.search.task_id)
}

/// The results pane follows the re-run task.
pub open spec fn mode_follows(pre: MiddleMode, post: MiddleMode, t: TaskId) -> bool {
    match pre {
        MiddleMode::SearchResults { term, search_type, .. } => post == MiddleMode::SearchResults { term, search_type, task_id: Some(t) },
        _ => post == pre,
    }
}

pub fn apply_search_refetch(sources: &mut Sources)
    ensures
        !spec_search_refetch_step(*old(sources)) ==> *final(sources) == *old(sources),
        spec_search_refetch_step(*old(sources)) ==> {
            let t = next_id(old(sources).requests.last_task);
            let seq = next_id(old(sources).requests.last_seq);
            &&& final(sources).search.task_id == Some(t)
            &&& final(sources).search.term@ == old(sources).search.term@
            &&& final(sources).search.search_type == old(sources).search.search_type
            &&& !final(sources).search.stale
            &&& !final(sources).search.first_page_received
            &&& !final(sources).search.empty_reopen_done
            &&& final(sources).search.songs@.len() == 0
            &&& final(sources).requests.pending@.len() == old(sources).requests.pending@.len() + 1
            &&& final(sources).requests.pending@.drop_last() == old(sources).requests.pending@
            &&& final(sources).requests.pending@.last().seq == seq
            &&& final(sources).requests.pending@.last().task_id == Some(t)
            &&& final(sources).requests.pending@.last().msg matches ClientMsg::Search { term, search_type }
                && term@ == old(sources).search.term@ && search_type == old(sources).search.search_type
            &&& final(sources).requests.last_seq == seq
            &&& final(sources).requests.last_task == t
            &&& mode_follows(old(sources).history.mode, final(sources).history.mode, t)
            &&& final(sources).history == (crate::state::history::UiHistory {
                mode: final(sources).history.mode,
                ..old(sources).history
            })
            &&& *final(sources) == (Sources {
                requests: final(sources).requests,
                search: final(sources).search,
                history: final(sources).history,
                ..*old(sources)
            })
        },
        !spec_search_refetch_step(*final(sources)),
{
    let action = search_refetch_action(&SearchRefetchInput {
        stale: sources.search.stale,
        term: &sources.search.term,
        search_type: sources.search.search_type,
        pending_task: sources.search.task_id,
    });
    let (term, search_type) = match action {
        SearchRefetchAction::Noop => return,
        SearchRefetchAction::Fire { term, search_type } => (term, search_type),
    };
    let task_id = sources.requests.alloc_task_id();
    sources.search.begin(task_id, term.clone(), search_type);
    sources.requests.push(ClientMsg::Search { term, search_type }, Some(task_id));
    let mut mode = MiddleMode::PlaylistSongs;
    std::mem::swap(&mut mode, &mut sources.history.mode);
    sources.history.mode = match mode {
        MiddleMode::SearchResults { term, search_type, .. } => MiddleMode::SearchResults {
            term,
            search_type,
            task_id: Some(task_id),
        },
        other => other,
    };
}

} // verus!
