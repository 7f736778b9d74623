use mkpclient::lifecycle::backend::{backend_action, BackendAction, BackendNameInput, DesiredBackend};
use mkpclient::lifecycle::backend_session::{
    apply_backend_session, backend_session_action, BackendSessionAction, BackendSessionInput,
};
use mkpclient::lifecycle::clipboard_toast::{apply_clipboard_toast, TOAST_TTL_MS};
use mkpclient::lifecycle::connect::{
    connect_action, desired_connect, ConnectAction, ConnectLinkInput, ConnectSessionInput, DesiredConnect,
};
use mkpclient::lifecycle::cursor_clamp::{cursor_clamp_action, ColumnCursorInput, CursorClampAction};
use mkpclient::lifecycle::cursor_snap::{find_row_in_optional_arc, DesiredCursorSnap};
use mkpclient::lifecycle::link_ack::{ack_action, desired_ack, AckAction, AckLinkInput, AckWantInput};
use mkpclient::lifecycle::lost_modal::{
    desired_lost_modal, lost_modal_action, LinkPhaseInput, LostModalAction, LostServerInput, ScreenKindInput,
};
use mkpclient::lifecycle::playlists_refetch::{
    playlist_tracks_refetch_action, playlists_refetch_action, PlaylistTracksRefetchAction,
    PlaylistTracksRefetchInput, PlaylistsRefetchAction, PlaylistsRefetchInput,
};
use mkpclient::lifecycle::restore::{
    desired_restore, DesiredRestore, RestoreLinkInput, RestorePersistInput, RestorePlaylistsInput,
    RestoreSessionInput,
};
use mkpclient::lifecycle::viewing_playlist::{apply_viewing_playlist, HEARTBEAT_MS};
use mkpclient::persist::LoadSet;
use mkpclient::proto::{ClientMsg, Peer, Playlist, Song};
use mkpclient::state::discovery::ServerAd;
use mkpclient::state::history::MiddleMode;
use mkpclient::state::link::{Link, LinkKind, LinkPhase};
use mkpclient::state::session::UiSession;
use mkpclient::state::sources::Sources;
use mkpclient::state::ui::{Screen, SearchState};

fn ad(name: &str) -> ServerAd {
    ServerAd { name: name.to_string(), host: format!("{name}.local"), ip: 0x7f00_0001, port: 6000 }
}

fn song(id: &str) -> Song {
    Song { id: id.to_string(), title: id.to_string(), artist_name: String::new(), album_title: String::new() }
}

fn playlist(id: &str) -> Playlist {
    Playlist { id: id.to_string(), name: id.to_string(), track_count: 0 }
}

// ── backend ─────────────────────────────────────────────────────────

fn backend_act(desired: DesiredBackend, backend: Option<&str>, lost: Option<&str>) -> BackendAction {
    let backend = backend.map(|s| s.to_string());
    let lost = lost.map(|s| s.to_string());
    backend_action(desired, &BackendNameInput { backend_name: backend.as_ref(), lost_server: lost.as_ref() })
}

#[test]
fn reconnecting_to_the_same_server_keeps_the_retained_view() {
    let a = backend_act(DesiredBackend::Connected { name: "tower".into() }, None, Some("tower"));
    assert!(matches!(a, BackendAction::Adopt { ref name, drop_retained: false } if name == "tower"));
}

#[test]
fn landing_on_a_different_server_discards_the_retained_view() {
    let a = backend_act(DesiredBackend::Connected { name: "laptop".into() }, None, Some("tower"));
    assert!(matches!(a, BackendAction::Adopt { ref name, drop_retained: true } if name == "laptop"));
}

#[test]
fn a_first_connect_has_nothing_to_discard() {
    let a = backend_act(DesiredBackend::Connected { name: "tower".into() }, None, None);
    assert!(matches!(a, BackendAction::Adopt { ref name, drop_retained: false } if name == "tower"));
}

#[test]
fn a_close_clears_the_active_backend() {
    let a = backend_act(DesiredBackend::Disconnected, Some("tower"), None);
    assert!(matches!(a, BackendAction::Clear { ref old } if old == "tower"));
    let b = backend_act(DesiredBackend::Disconnected, None, None);
    assert!(matches!(b, BackendAction::Noop));
}

// ── backend session ─────────────────────────────────────────────────

fn session_action(backend: Option<&str>, built_from: Option<&str>) -> BackendSessionAction {
    let backend = backend.map(|s| s.to_string());
    let built = built_from.map(|s| s.to_string());
    backend_session_action(&BackendSessionInput { backend: backend.as_ref(), built_from: built.as_ref() })
}

#[test]
fn noop_before_the_handshake_reports_a_backend() {
    assert!(matches!(session_action(None, None), BackendSessionAction::Noop));
}

#[test]
fn restarts_when_nothing_is_built_yet() {
    assert!(matches!(session_action(Some("musickit"), None),
        BackendSessionAction::Restart { ref backend } if backend == "musickit"));
}

#[test]
fn restarts_when_the_server_swaps_under_a_live_link() {
    assert!(matches!(session_action(Some("tidal"), Some("musickit")),
        BackendSessionAction::Restart { ref backend } if backend == "tidal"));
}

#[test]
fn noop_once_the_sources_hold_that_backend() {
    assert!(matches!(session_action(Some("tidal"), Some("tidal")), BackendSessionAction::Noop));
}

#[test]
fn a_repeated_announcement_is_not_a_restart() {
    assert!(matches!(session_action(Some("musickit"), Some("musickit")), BackendSessionAction::Noop));
}

#[test]
fn a_restart_keeps_an_unshipped_hello_and_drops_the_rest() {
    let mut s = Sources::new(0, false);
    s.server.backend = Some("musickit".to_string());
    s.requests.push(
        ClientMsg::Hello { peer: Peer { user: "u".into(), host: "h".into() }, version: 1 },
        None,
    );
    s.requests.push(ClientMsg::GetAlbumDetail { id: "album-on-the-outgoing-backend".into() }, None);

    apply_backend_session(&mut s);

    let queued: Vec<&ClientMsg> = s.requests.pending.iter().map(|p| &p.msg).collect();
    assert!(matches!(queued.first(), Some(ClientMsg::Hello { .. })), "the handshake must survive, and stay in front");
    assert!(!queued.iter().any(|m| matches!(m, ClientMsg::GetAlbumDetail { .. })));
    assert!(queued.iter().any(|m| matches!(m, ClientMsg::GetPlaylists)));
    assert_eq!(s.server.built_from.as_deref(), Some("musickit"));
    // The sync intent write makes the next tick a no-op.
    let before = s.requests.pending.len();
    apply_backend_session(&mut s);
    assert_eq!(s.requests.pending.len(), before);
}

// ── connect ─────────────────────────────────────────────────────────

fn lost_session(name: &str) -> UiSession {
    let mut s = UiSession::new(0, true);
    s.lost_server = Some(name.to_string());
    s
}

#[test]
fn a_lost_server_back_in_discovery_is_redialled() {
    let session = lost_session("tower");
    let servers = vec![ad("tower")];
    let d = desired_connect(&ConnectSessionInput::new(&session, 0), &servers);
    assert!(matches!(d, DesiredConnect::TryConnect { ref server, clear_auto_connect: false } if server == "tower"));
}

#[test]
fn a_lost_server_still_missing_waits_rather_than_picking_another() {
    let session = lost_session("tower");
    let servers = vec![ad("someone-else")];
    let d = desired_connect(&ConnectSessionInput::new(&session, 0), &servers);
    assert!(matches!(d, DesiredConnect::Wait));
}

#[test]
fn an_idle_link_past_its_backoff_connects() {
    let t0 = 1_000u64;
    let session = lost_session("tower");
    let servers = vec![ad("tower")];
    let want = || desired_connect(&ConnectSessionInput::new(&session, t0), &servers);
    let mut link = Link::new();
    assert!(matches!(connect_action(want(), &ConnectLinkInput::new(&link, t0)), ConnectAction::Connect { .. }));
    link.schedule_retry(t0);
    assert!(matches!(connect_action(want(), &ConnectLinkInput::new(&link, t0)), ConnectAction::Noop));
    let after = link.retry_at.unwrap();
    assert!(matches!(connect_action(want(), &ConnectLinkInput::new(&link, after)), ConnectAction::Connect { .. }));
}

#[test]
fn a_link_that_is_not_idle_is_left_alone() {
    let session = lost_session("tower");
    let servers = vec![ad("tower")];
    for phase in [LinkPhase::Connecting, LinkPhase::Connected, LinkPhase::Closing, LinkPhase::Closed] {
        let mut link = Link::new();
        link.phase = phase;
        let want = desired_connect(&ConnectSessionInput::new(&session, 0), &servers);
        assert!(matches!(connect_action(want, &ConnectLinkInput::new(&link, 0)), ConnectAction::Noop), "{phase:?}");
    }
}

// ── cursor clamp ────────────────────────────────────────────────────

#[test]
fn noop_when_in_bounds() {
    assert_eq!(cursor_clamp_action(3, ColumnCursorInput { cursor: 1 }), CursorClampAction::Noop);
}

#[test]
fn clamps_to_last_when_past_end() {
    assert_eq!(cursor_clamp_action(3, ColumnCursorInput { cursor: 5 }), CursorClampAction::Snap { row: 2 });
}

#[test]
fn snaps_to_zero_when_list_empty_and_cursor_nonzero() {
    assert_eq!(cursor_clamp_action(0, ColumnCursorInput { cursor: 4 }), CursorClampAction::Snap { row: 0 });
}

#[test]
fn noop_when_list_empty_and_cursor_zero() {
    assert_eq!(cursor_clamp_action(0, ColumnCursorInput { cursor: 0 }), CursorClampAction::Noop);
}

#[test]
fn noop_at_exact_last() {
    assert_eq!(cursor_clamp_action(3, ColumnCursorInput { cursor: 2 }), CursorClampAction::Noop);
}

// ── cursor snap ─────────────────────────────────────────────────────

#[test]
fn playlist_snap_waits_for_the_chunk_that_may_hold_the_target() {
    let mut rows: Vec<Option<Song>> = vec![None, None, None];
    assert_eq!(find_row_in_optional_arc(&rows, &"c".to_string()), DesiredCursorSnap::AwaitRows);
    rows[0] = Some(song("a"));
    assert_eq!(find_row_in_optional_arc(&rows, &"c".to_string()), DesiredCursorSnap::AwaitRows);
    rows[2] = Some(song("c"));
    assert_eq!(find_row_in_optional_arc(&rows, &"c".to_string()), DesiredCursorSnap::Found { row: 2 });
    rows[1] = Some(song("b"));
    assert_eq!(find_row_in_optional_arc(&rows, &"zz".to_string()), DesiredCursorSnap::NotFound);
}

// ── link ack ────────────────────────────────────────────────────────

fn ack(phase: LinkPhase, lost: Option<&str>, target: Option<&str>) -> AckAction {
    let wants = lost.is_some() || target.is_some();
    ack_action(desired_ack(AckLinkInput { closed: phase == LinkPhase::Closed }, AckWantInput { wants_connection: wants }))
}

#[test]
fn only_a_closed_link_is_released() {
    for phase in [LinkPhase::Idle, LinkPhase::Connecting, LinkPhase::Connected, LinkPhase::Closing] {
        assert!(matches!(ack(phase, None, None), AckAction::Noop), "{phase:?}");
    }
    assert!(matches!(ack(LinkPhase::Closed, None, None), AckAction::Ack { arm_backoff: false }));
}

#[test]
fn a_drop_with_a_server_still_wanted_arms_the_backoff() {
    assert!(matches!(ack(LinkPhase::Closed, Some("tower"), None), AckAction::Ack { arm_backoff: true }));
    assert!(matches!(ack(LinkPhase::Closed, None, None), AckAction::Ack { arm_backoff: false }));
    assert!(matches!(ack(LinkPhase::Closed, None, Some("tower")), AckAction::Ack { arm_backoff: true }));
}

#[test]
fn backoff_widens_then_holds_at_the_ceiling() {
    let t0 = 10_000u64;
    let mut link = Link::new();
    for expected in [1_000u64, 2_000, 5_000, 10_000, 30_000] {
        link.schedule_retry(t0);
        assert_eq!(link.retry_at, Some(t0 + expected));
    }
    for _ in 0..5 {
        link.schedule_retry(t0);
        assert_eq!(link.retry_at, Some(t0 + 30_000));
    }
}

#[test]
fn a_pending_backoff_withholds_permission_until_it_lapses() {
    let t0 = 10_000u64;
    let mut link = Link::new();
    assert!(link.retry_allowed(t0), "no backoff means always allowed");
    link.schedule_retry(t0);
    assert!(!link.retry_allowed(t0));
    assert!(!link.retry_allowed(t0 + 1_000 - 1));
    assert!(link.retry_allowed(t0 + 1_000));
    link.clear_retry();
    assert!(link.retry_allowed(t0));
    link.schedule_retry(t0);
    assert_eq!(link.retry_at, Some(t0 + 1_000));
}

// ── lost modal ──────────────────────────────────────────────────────

fn lost(connected: bool, lost_server: Option<&str>, on_modal: bool) -> LostModalAction {
    let l = lost_server.map(|s| s.to_string());
    let d = desired_lost_modal(LinkPhaseInput { connected }, LostServerInput { lost_server: l.as_ref() });
    lost_modal_action(d, ScreenKindInput { on_lost_modal: on_modal })
}

#[test]
fn opens_over_whatever_screen_is_up_when_the_link_drops() {
    let screens = [
        Screen::NowPlaying,
        Screen::SearchInput(SearchState {
            input: "abba".into(),
            last_type: mkpclient::proto::SearchType::Song,
            history: Vec::new(),
            history_selected: None,
        }),
        Screen::HelpOverlay { scroll: 0 },
    ];
    for screen in screens {
        let on_modal = matches!(screen, Screen::ServerLostModal { .. });
        assert!(matches!(lost(false, Some("home"), on_modal), LostModalAction::Open { ref server } if server == "home"));
    }
}

#[test]
fn stays_put_while_already_open_and_closes_on_reconnect() {
    assert!(matches!(lost(false, Some("home"), true), LostModalAction::Noop));
    assert!(matches!(lost(true, Some("home"), true), LostModalAction::Close));
    assert!(matches!(lost(true, Some("home"), false), LostModalAction::Noop));
}

// ── refetch ─────────────────────────────────────────────────────────

#[test]
fn playlists_refetch_fires_when_stale_and_no_pending() {
    let a = playlists_refetch_action(&PlaylistsRefetchInput { stale: true, pending_request: None, pending_task: None });
    assert!(matches!(a, PlaylistsRefetchAction::Fire));
}

#[test]
fn playlists_refetch_noop_when_pending() {
    let a = playlists_refetch_action(&PlaylistsRefetchInput { stale: true, pending_request: Some(7), pending_task: None });
    assert!(matches!(a, PlaylistsRefetchAction::Noop));
}

#[test]
fn playlists_refetch_noop_while_count_stream_is_pending() {
    let a = playlists_refetch_action(&PlaylistsRefetchInput { stale: true, pending_request: None, pending_task: Some(7) });
    assert!(matches!(a, PlaylistsRefetchAction::Noop));
}

#[test]
fn playlists_refetch_noop_when_not_stale() {
    let a = playlists_refetch_action(&PlaylistsRefetchInput { stale: false, pending_request: None, pending_task: None });
    assert!(matches!(a, PlaylistsRefetchAction::Noop));
}

#[test]
fn playlist_tracks_refetch_fires_with_id_and_focus() {
    let id = "p1".to_string();
    let a = playlist_tracks_refetch_action(&PlaylistTracksRefetchInput {
        stale: true,
        playlist_id: Some(&id),
        focus: 4,
        pending_task: None,
    });
    assert!(matches!(a, PlaylistTracksRefetchAction::Fire { ref id, focus: 4 } if id == "p1"));
}

#[test]
fn playlist_tracks_refetch_noop_when_no_loaded_playlist() {
    let a = playlist_tracks_refetch_action(&PlaylistTracksRefetchInput {
        stale: true,
        playlist_id: None,
        focus: 0,
        pending_task: None,
    });
    assert!(matches!(a, PlaylistTracksRefetchAction::Noop));
}

#[test]
fn playlist_tracks_refetch_noop_when_pending_task() {
    let id = "p1".to_string();
    let a = playlist_tracks_refetch_action(&PlaylistTracksRefetchInput {
        stale: true,
        playlist_id: Some(&id),
        focus: 0,
        pending_task: Some(9),
    });
    assert!(matches!(a, PlaylistTracksRefetchAction::Noop));
}

// ── restore ─────────────────────────────────────────────────────────

fn restore_desired(
    backend: &str,
    view_backend: Option<&str>,
    connected: bool,
    loaded: bool,
    auto_restored: bool,
) -> DesiredRestore {
    let b = backend.to_string();
    let vb = view_backend.map(|s| s.to_string());
    let items = vec![playlist("p1"), playlist("p2")];
    let loads = LoadSet::new();
    desired_restore(
        &RestoreSessionInput { auto_restored_view: auto_restored, backend_name: Some(&b), view_backend: vb.as_ref() },
        &RestoreLinkInput { connected },
        &RestorePlaylistsInput { loaded, items: &items },
        &RestorePersistInput { last_view_load: None, loads_in_flight: &loads },
    )
}

#[test]
fn reconnecting_to_the_views_backend_resumes_instead_of_loading() {
    let d = restore_desired("home", Some("home"), true, true, false);
    assert!(matches!(d, DesiredRestore::Resume { ref backend, first_playlist_id: Some(ref p) } if backend == "home" && p == "p1"));
}

#[test]
fn a_different_backend_loads_its_saved_view_from_disk() {
    let d = restore_desired("work", Some("home"), true, true, false);
    assert!(matches!(d, DesiredRestore::Load { ref backend } if backend == "work"));
}

#[test]
fn first_connect_loads_from_disk() {
    let d = restore_desired("home", None, true, true, false);
    assert!(matches!(d, DesiredRestore::Load { ref backend } if backend == "home"));
}

#[test]
fn resume_waits_for_link_and_playlists_and_runs_once() {
    assert!(matches!(restore_desired("home", Some("home"), false, true, false), DesiredRestore::Idle));
    assert!(matches!(restore_desired("home", Some("home"), true, false, false), DesiredRestore::Idle));
    assert!(matches!(restore_desired("home", Some("home"), true, true, true), DesiredRestore::Idle));
}

// ── viewing playlist ────────────────────────────────────────────────

fn connected_sources() -> Sources {
    let mut s = Sources::new(0, false);
    s.link.phase = LinkPhase::Connected;
    s.link.kind = Some(LinkKind::Client);
    s
}

fn sent(s: &mut Sources) -> String {
    match s.requests.pop_front().expect("viewing request").msg {
        ClientMsg::ViewingPlaylist { id } => id,
        _ => panic!("unexpected request"),
    }
}

#[test]
fn navigation_heartbeats_and_leaving_have_distinct_effects() {
    let mut s = connected_sources();
    s.playlist_tracks.playlist_id = Some("a".into());
    apply_viewing_playlist(&mut s);
    assert_eq!(sent(&mut s), "a");
    apply_viewing_playlist(&mut s);
    assert!(s.requests.pending.is_empty());
    s.now += HEARTBEAT_MS;
    apply_viewing_playlist(&mut s);
    assert_eq!(sent(&mut s), "a");
    s.playlist_tracks.playlist_id = Some("b".into());
    apply_viewing_playlist(&mut s);
    assert_eq!(sent(&mut s), "b");
    s.history.mode = MiddleMode::AlbumDetail { album_id: "album".into(), album_title: String::new(), awaiting_seq: None };
    apply_viewing_playlist(&mut s);
    assert_eq!(sent(&mut s), "");
    assert!(s.session.viewing_playlist_due.is_none());
    apply_viewing_playlist(&mut s);
    assert!(s.requests.pending.is_empty());
}

#[test]
fn reconnect_announces_even_the_same_playlist_again() {
    let mut s = connected_sources();
    s.playlist_tracks.playlist_id = Some("a".into());
    apply_viewing_playlist(&mut s);
    assert_eq!(sent(&mut s), "a");
    s.link.phase = LinkPhase::Closed;
    apply_viewing_playlist(&mut s);
    assert!(s.session.viewing_playlist_due.is_none());
    s.link.phase = LinkPhase::Connected;
    s.link.kind = Some(LinkKind::Client);
    apply_viewing_playlist(&mut s);
    assert_eq!(sent(&mut s), "a");
}

// ── clipboard toast ─────────────────────────────────────────────────

#[test]
fn a_successful_copy_toasts_once() {
    let mut s = Sources::new(500, false);
    s.clipboard.enqueue("text".into(), "Copied".into());
    let cmd = s.clipboard.take_write_cmd();
    assert!(cmd.is_some());
    s.clipboard.apply_event(mkpclient::clipboard::ClipboardEvent::WriteOutcome {
        seq: 1,
        success_toast: "Copied".into(),
        ok: true,
    });
    apply_clipboard_toast(&mut s);
    assert_eq!(s.toast.message.as_deref(), Some("Copied"));
    assert_eq!(s.toast.expires_at, Some(500 + TOAST_TTL_MS));
    s.toast.message = None;
    apply_clipboard_toast(&mut s);
    assert!(s.toast.message.is_none(), "the same outcome toasts only once");
}
