//! Restart the session when the backend the server reports and the
//! backend our sources were built from disagree. Connect, swap and
//! reconnect are the one rule; a repeated announcement is a non-event.

use vstd::prelude::*;
use crate::execute::ref_view;
use crate::ingest::{reset_for_new_backend, server_derived_cleared};
use crate::proto::ClientMsg;
use crate::state::requests::{hello_only, next_id, PendingRequest};
use crate::state::server::ServerState;
use crate::state::sources::Sources;

verus! {

/// Projection of the server-state source.
pub struct BackendSessionInput<'a> {
    pub backend: Option<&'a String>,
    pub built_from: Option<&'a String>,
}

impl<'a> BackendSessionInput<'a> {
    pub fn new(s: &'a ServerState) -> (r: Self)
        ensures
            ref_view(r.backend) == crate::text::opt_view(s.backend),
            ref_view(r.built_from) == crate::text::opt_view(s.built_from),
    {
        BackendSessionInput { backend: s.backend.as_ref(), built_from: s.built_from.as_ref() }
    }
}

pub enum BackendSessionAction {
    Noop,
    /// The sources do not hold this backend's catalogue: drop what the
    /// previous one produced and ask for this one's world.
    Restart { backend: String },
}

/// Restart exactly when a backend is reported and the sources were not
/// built from it.
pub open spec fn spec_restart_for(backend: Option<Seq<char>>, built_from: Option<Seq<char>>) -> Option<Seq<char>> {
    match backend {
        None => None,
        Some(b) => if built_from == Some(b) { None } else { Some(b) },
    }
}

pub fn backend_session_action(input: &BackendSessionInput) -> (r: BackendSessionAction)
    ensures
        match spec_restart_for(ref_view(input.backend), ref_view(input.built_from)) {
            None => r is Noop,
            Some(b) => r matches BackendSessionAction::Restart { backend } && backend@ == b,
        },
{
    let backend = match input.backend {
        None => return BackendSessionAction::Noop,
        Some(b) => b,
    };
    let same = match input.built_from {
        Some(f) => crate::text::text_eq(f, backend),
        None => false,
    };
    if same {
        return BackendSessionAction::Noop;
    }
    BackendSessionAction::Restart { backend: backend.clone() }
}

/// The restart on `pre` for `backend`, as it lands in `post`:
/// server-derived sources dropped, queued handshakes kept in front of
/// a fresh `GetState` and a tracked `GetPlaylists`, the new backend
/// recorded as built-from, navigation and the restore / save dedup
/// state reset.
pub open spec fn restarted(pre: Sources, post: Sources, backend: Seq<char>) -> bool {
    let s1 = next_id(pre.requests.last_seq);
    let s2 = next_id(s1);
    let t = next_id(pre.requests.last_task);
    &&& server_derived_cleared(pre, post)
    &&& post.requests.pending@ == pre.requests.pending@.filter(hello_only()).push(
        PendingRequest { seq: s1, task_id: None, msg: ClientMsg::GetState },
    ).push(PendingRequest { seq: s2, task_id: Some(t), msg: ClientMsg::GetPlaylists })
    &&& post.requests.last_seq == s2
    &&& post.requests.last_task == t
    &&& post.playlists.pending_request == Some(s2)
    &&& post.playlists.pending_task == Some(t)
    &&& post.server.backend == pre.server.backend
    &&& post.server.built_from matches Some(f) && f@ == backend
    &&& post.server.play == pre.server.play
    &&& post.history.is_reset()
    &&& !post.session.auto_restored_view
    &&& post.session == (crate::state::session::UiSession { auto_restored_view: false, ..pre.session })
    &&& post.persist.last_view_saved_key is None
    &&& post.persist.last_view_load is None
    &&& post.persist == (crate::persist::Persist {
        last_view_saved_key: None,
        last_view_load: None,
        ..pre.persist
    })
    &&& post == (Sources {
        requests: post.requests,
        responses: post.responses,
        queue: post.queue,
        playlists: post.playlists,
        playlist_tracks: post.playlist_tracks,
        search: post.search,
        artist_extras: post.artist_extras,
        activity: post.activity,
        pending_playlists: post.pending_playlists,
        server: post.server,
        history: post.history,
        session: post.session,
        persist: post.persist,
        ..pre
    })
}

pub fn apply_backend_session(sources: &mut Sources)
    ensures
        match spec_restart_for(
            crate::text::opt_view(old(sources).server.backend),
            crate::text::opt_view(old(sources).server.built_from),
        ) {
            None => *final(sources) == *old(sources),
            Some(b) => restarted(*old(sources), *final(sources), b),
        },
        spec_restart_for(
            crate::text::opt_view(final(sources).server.backend),
            crate::text::opt_view(final(sources).server.built_from),
        ) is None,
{
    let action = backend_session_action(&BackendSessionInput::new(&sources.server));
    let backend = match action {
        BackendSessionAction::Noop => return,
        BackendSessionAction::Restart { backend } => backend,
    };
    reset_for_new_backend(sources);
    sources.server.built_from = Some(backend);
    sources.history = crate::state::history::UiHistory::new();
    sources.session.auto_restored_view = false;
    sources.persist.last_view_saved_key = None;
    sources.persist.last_view_load = None;
    sources.requests.push(ClientMsg::GetState, None);
    let task_id = sources.requests.alloc_task_id();
    let seq = sources.requests.push(ClientMsg::GetPlaylists, Some(task_id));
    sources.playlists.pending_request = Some(seq);
    sources.playlists.pending_task = Some(task_id);
}

} // verus!
