//! Every source, bundled so the lifecycle trampolines and the ingest
//! and dispatch handlers can reach the fields they write.

use vstd::prelude::*;
use crate::clipboard::ClipboardState;
use crate::persist::Persist;
use crate::state::credentials::Credentials;
use crate::state::discovery::Discovery;
use crate::state::history::UiHistory;
use crate::state::intent::Intent;
use crate::state::link::Link;
use crate::state::pairing::Pairing;
use crate::state::playlists::{PlaylistTracks, Playlists};
use crate::state::probes::Probes;
use crate::state::requests::RequestQueue;
use crate::state::search::Search;
use crate::state::selection::Selection;
use crate::state::server::{Activity, ArtistExtras, PendingPlaylists, Queue, Responses, ServerState};
use crate::state::session::UiSession;
use crate::state::ui::{Cursor, Screen, UiFilter, UiPicker, UiPreview, UiToast};

verus! {

/// The sources bundle. `now` is the runtime clock, stamped once per
/// tick, in milliseconds.
pub struct Sources {
    pub now: u64,
    pub discovery: Discovery,
    pub link: Link,
    pub pairing: Pairing,
    pub playlists: Playlists,
    pub playlist_tracks: PlaylistTracks,
    pub probes: Probes,
    pub queue: Queue,
    pub responses: Responses,
    pub search: Search,
    pub artist_extras: ArtistExtras,
    pub activity: Activity,
    pub server: ServerState,
    pub persist: Persist,
    pub clipboard: ClipboardState,
    pub intent: Intent,
    pub requests: RequestQueue,
    pub credentials: Credentials,
    pub preview: UiPreview,
    pub toast: UiToast,
    pub cursor: Cursor,
    pub filter: UiFilter,
    pub history: UiHistory,
    pub screen: Screen,
    pub picker: UiPicker,
    pub pending_playlists: PendingPlaylists,
    pub session: UiSession,
    pub selection: Selection,
    /// The active key table.
    pub keybindings: crate::state::keybindings::Keybindings,
}

impl Sources {
    /// Fresh sources at `now`. `pick` starts with auto-connect off, so
    /// the user chooses the server instead of dialing the previous one.
    pub fn new(now: u64, pick: bool) -> (s: Self)
        ensures
            s.now == now,
            s.session.auto_connect == !pick,
            s.session.started_at == now,
            s.session.backend_name is None,
            s.session.lost_server is None,
            s.session.preferred_server is None,
            !s.session.auto_restored_view,
            s.session.view_backend is None,
            s.session.pending_cursor_song_id is None,
            s.session.viewing_playlist is None,
            s.session.viewing_playlist_due is None,
            s.link.phase == crate::state::link::LinkPhase::Idle,
            s.link.kind is None,
            s.link.target is None,
            s.link.retry_at is None,
            s.link.retry_attempts == 0,
            s.intent.target is None,
            s.intent.pair_target is None,
            s.pairing.is_reset(),
            s.discovery.servers@.len() == 0,
            s.discovery.wf(),
            s.probes.by_addr@.len() == 0,
            s.credentials.entries@.len() == 0,
            s.playlists.is_reset(),
            s.playlist_tracks.is_reset(),
            s.requests.pending@.len() == 0,
            s.requests.last_seq == 0,
            s.requests.last_task == 0,
            s.history.is_reset(),
            s.server.is_reset(),
            s.screen is NowPlaying,
            s.cursor.middle == 0 && s.cursor.left == 0 && s.cursor.queue == 0,
            s.picker.pending_create_add is None,
            s.picker.last_add_playlist is None,
            s.persist.last_view_load is None,
            s.persist.last_view_saved_key is None,
            s.persist.last_add_playlist_saved is None,
            s.persist.last_pushed_search_task is None,
            s.clipboard.pending is None,
            s.clipboard.last_outcome is None,
            s.clipboard.last_toasted_seq is None,
            s.search.task_id is None,
            s.search.term@.len() == 0,
            !s.search.stale,
            !s.search.empty_reopen_done,
            !s.search.first_page_received,
            s.responses.by_seq@.len() == 0,
            s.artist_extras.entries@.len() == 0,
            s.pending_playlists.is_reset(),
            s.selection.is_reset(),
            s.selection.wf(),
            s.keybindings.model().len() == 0,
    {
        Sources {
            now,
            discovery: Discovery::new(),
            link: Link::new(),
            pairing: Pairing::new(),
            playlists: Playlists::new(),
            playlist_tracks: PlaylistTracks::new(),
            probes: Probes::new(),
            queue: Queue::new(),
            responses: Responses::new(),
            search: Search::new(),
            artist_extras: ArtistExtras::new(),
            activity: Activity::new(),
            server: ServerState::new(),
            persist: Persist::new(),
            clipboard: ClipboardState::new(),
            intent: Intent::new(),
            requests: RequestQueue::new(),
            credentials: Credentials::new(),
            preview: UiPreview::new(),
            toast: UiToast::new(),
            cursor: Cursor::new(),
            filter: UiFilter::new(),
            history: UiHistory::new(),
            screen: Screen::NowPlaying,
            picker: UiPicker::new(),
            pending_playlists: PendingPlaylists::new(),
            session: UiSession::new(now, !pick),
            selection: Selection::new(),
            keybindings: crate::state::keybindings::Keybindings::new(),
        }
    }
}

} // verus!
