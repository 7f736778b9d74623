//! Session breadcrumbs: which backend is live, which server was lost,
//! the auto-connect and auto-restore guards, and the playlist the
//! server has been told we are viewing.

use vstd::prelude::*;

verus! {

/// The session source. Instants are milliseconds on the runtime clock.
pub struct UiSession {
    /// Server whose catalogue is live, while connected.
    pub backend_name: Option<String>,
    /// Server the retained view belongs to while the link is down.
    pub lost_server: Option<String>,
    /// Server the user prefers (loaded from `last_server`).
    pub preferred_server: Option<String>,
    pub auto_connect: bool,
    pub auto_restored_view: bool,
    /// Server the in-memory view was built against.
    pub view_backend: Option<String>,
    /// Song id the middle cursor should land on once rows arrive.
    pub pending_cursor_song_id: Option<String>,
    /// When the session started.
    pub started_at: u64,
    /// Playlist last announced as being viewed.
    pub viewing_playlist: Option<String>,
    /// When the viewing announcement must be repeated.
    pub viewing_playlist_due: Option<u64>,
}

impl UiSession {
    /// A fresh session started at `now`, auto-connect armed unless the
    /// user asked to pick a server.
    pub fn new(now: u64, auto_connect: bool) -> (s: Self)
        ensures
            s.backend_name is None,
            s.lost_server is None,
            s.preferred_server is None,
            s.auto_connect == auto_connect,
            !s.auto_restored_view,
            s.view_backend is None,
            s.pending_cursor_song_id is None,
            s.started_at == now,
            s.viewing_playlist is None,
            s.viewing_playlist_due is None,
    {
        UiSession {
            backend_name: None,
            lost_server: None,
            preferred_server: None,
            auto_connect,
            auto_restored_view: false,
            view_backend: None,
            pending_cursor_song_id: None,
            started_at: now,
            viewing_playlist: None,
            viewing_playlist_due: None,
        }
    }
}

} // verus!
