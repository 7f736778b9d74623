use mkpclient::action_menu::dispatch_action_choice_inner;
use mkpclient::events::{dispatch_cursor, dispatch_semantic, DriverCmd, SemanticEvent, TuiCursorEvent};
use mkpclient::link_driver::LinkCmd;
use mkpclient::panes::{middle_activate, skip_next, skip_previous};
use mkpclient::persist::PersistCmd;
use mkpclient::proto::{Album, ClientMsg, MediaKind, Playlist, QueuePosition, SearchType, Song};
use mkpclient::selecting::decimal_text;
use mkpclient::queries::{current_server_name, sorted_queue_indices};
use mkpclient::state::discovery::{Endpoint, ServerAd};
use mkpclient::state::probes::ProbeOutcome;
use mkpclient::state::history::MiddleMode;
use mkpclient::state::link::LinkPhase;
use mkpclient::state::selection::SelectionContext;
use mkpclient::state::sources::Sources;
use mkpclient::state::ui::{ActionItem, ActionKind, ActionOrigin, ColumnFocus, FilterTarget, Screen};

fn messages(s: &Sources) -> Vec<&ClientMsg> {
    s.requests.pending.iter().map(|p| &p.msg).collect()
}

fn song(id: &str) -> Song {
    Song { id: id.to_string(), title: format!("t-{id}"), artist_name: "ar".to_string(), album_title: "al".to_string() }
}

fn playlist(id: &str, name: &str) -> Playlist {
    Playlist { id: id.to_string(), name: name.to_string(), track_count: 0 }
}

fn cursor(ev: TuiCursorEvent, s: &mut Sources) -> Vec<DriverCmd> {
    dispatch_cursor(ev, s)
}

#[test]
fn rapid_next_presses_are_all_queued() {
    let mut sources = Sources::new(0, false);
    skip_next(&mut sources);
    skip_next(&mut sources);
    let m = messages(&sources);
    assert!(matches!(m.as_slice(), [ClientMsg::Skip, ClientMsg::Skip]));
}

#[test]
fn rapid_previous_presses_are_all_queued() {
    let mut sources = Sources::new(0, false);
    skip_previous(&mut sources);
    skip_previous(&mut sources);
    let m = messages(&sources);
    assert!(matches!(m.as_slice(), [ClientMsg::Previous, ClientMsg::Previous]));
}

#[test]
fn seek_keys_send_millisecond_offsets() {
    let mut s = Sources::new(0, false);
    dispatch_semantic(SemanticEvent::SeekForward { fine: true }, &mut s);
    dispatch_semantic(SemanticEvent::SeekBackward { fine: false }, &mut s);
    let m = messages(&s);
    assert!(matches!(m[0], ClientMsg::SeekRelative { offset_ms: 1000 }));
    assert!(matches!(m[1], ClientMsg::SeekRelative { offset_ms: -10000 }));
}

#[test]
fn repeat_cycles_off_all_one() {
    let mut s = Sources::new(0, false);
    dispatch_semantic(SemanticEvent::CycleRepeatMode, &mut s);
    assert!(matches!(messages(&s)[0], ClientMsg::SetRepeat { mode: mkpclient::proto::RepeatMode::All }));
}

#[test]
fn play_pause_toggles_against_the_reported_state() {
    let mut s = Sources::new(0, false);
    dispatch_semantic(SemanticEvent::TogglePlayPause, &mut s);
    assert!(matches!(messages(&s)[0], ClientMsg::SetPaused { paused: false }));
    s.server.play = Some(mkpclient::state::server::PlayState { playing: true, repeat: mkpclient::proto::RepeatMode::Off });
    dispatch_semantic(SemanticEvent::TogglePlayPause, &mut s);
    assert!(matches!(messages(&s)[1], ClientMsg::SetPaused { paused: true }));
}

#[test]
fn enter_on_a_song_result_plays_it() {
    let mut s = Sources::new(0, false);
    s.history.mode = MiddleMode::SearchResults { term: "x".to_string(), search_type: SearchType::Song, task_id: None };
    s.search.songs = vec![song("a"), song("b")];
    s.cursor.middle = 1;
    middle_activate(&mut s);
    match messages(&s)[0] {
        ClientMsg::Play { id, kind, position, start_index } => {
            assert_eq!(id, "b");
            assert_eq!(*kind, MediaKind::Song);
            assert_eq!(*position, QueuePosition::Reset);
            assert_eq!(*start_index, None);
        },
        _ => panic!("expected a play request"),
    }
}

#[test]
fn enter_on_an_album_result_drills_into_it() {
    let mut s = Sources::new(0, false);
    s.history.mode = MiddleMode::SearchResults { term: "x".to_string(), search_type: SearchType::Album, task_id: None };
    s.search.albums = vec![Album {
        id: "al1".to_string(),
        name: "Album".to_string(),
        artist_id: "ar1".to_string(),
        artist_name: "Art".to_string(),
    }];
    middle_activate(&mut s);
    assert!(matches!(messages(&s)[0], ClientMsg::GetAlbumDetail { id } if id == "al1"));
    let seq = s.requests.pending[0].seq;
    assert!(matches!(&s.history.mode, MiddleMode::AlbumDetail { album_id, awaiting_seq, .. }
        if album_id == "al1" && *awaiting_seq == Some(seq)));
    assert_eq!(s.history.back.len(), 1);
}

#[test]
fn enter_on_an_empty_pane_does_nothing() {
    let mut s = Sources::new(0, false);
    middle_activate(&mut s);
    assert!(s.requests.pending.is_empty());
}

#[test]
fn go_to_artist_of_a_song_asks_the_server_to_resolve_it() {
    let mut s = Sources::new(0, false);
    let item = ActionItem {
        id: "s1".to_string(),
        kind: ActionKind::Song,
        label: "Song".to_string(),
        album_id: None,
        album_title: Some("Al".to_string()),
        artist_id: None,
        artist_label: None,
        playlist_id: None,
        view_index: None,
        origin: ActionOrigin::OtherMiddle,
    };
    let next = dispatch_action_choice_inner(&mut s, 'q', &item);
    assert!(next.is_none());
    assert!(matches!(messages(&s)[0], ClientMsg::Navigate { song_id, .. } if song_id == "s1"));
    assert!(matches!(&s.history.mode, MiddleMode::ArtistDetail { artist_id, artist_name, .. }
        if artist_id.is_empty() && artist_name == "Artist"));
}

#[test]
fn add_to_playlist_choice_opens_the_picker() {
    let mut s = Sources::new(0, false);
    let item = ActionItem {
        id: "al".to_string(),
        kind: ActionKind::Album,
        label: "Album".to_string(),
        album_id: None,
        album_title: None,
        artist_id: None,
        artist_label: None,
        playlist_id: None,
        view_index: None,
        origin: ActionOrigin::OtherMiddle,
    };
    let next = dispatch_action_choice_inner(&mut s, 'a', &item);
    assert!(matches!(next, Some(Screen::PlaylistPicker { selected: 0, .. })));
    assert!(s.requests.pending.is_empty());
}

#[test]
fn filter_typing_applies_live_and_cancel_clears_it() {
    let mut s = Sources::new(0, false);
    s.cursor.focus = ColumnFocus::Middle;
    cursor(TuiCursorEvent::OpenFilterInputForFocused, &mut s);
    cursor(TuiCursorEvent::FilterInputType('a'), &mut s);
    cursor(TuiCursorEvent::FilterInputType('b'), &mut s);
    assert_eq!(s.filter.middle, "ab");
    cursor(TuiCursorEvent::FilterInputBackspace, &mut s);
    assert_eq!(s.filter.middle, "a");
    assert!(matches!(&s.screen, Screen::FilterInput(st) if st.target == FilterTarget::Middle && st.input == "a"));
    cursor(TuiCursorEvent::FilterInputCancel, &mut s);
    assert_eq!(s.filter.middle, "");
    assert!(matches!(s.screen, Screen::NowPlaying));
}

#[test]
fn search_submit_runs_the_trimmed_query() {
    let mut s = Sources::new(0, false);
    let cmds = cursor(TuiCursorEvent::OpenSearchInput, &mut s);
    assert!(cmds.is_empty(), "no backend, no history load");
    for c in "  lo fi ".chars() {
        cursor(TuiCursorEvent::SearchInputType(c), &mut s);
    }
    cursor(TuiCursorEvent::SearchCycleType { forward: true }, &mut s);
    cursor(TuiCursorEvent::SearchSubmit, &mut s);
    assert!(matches!(s.screen, Screen::NowPlaying));
    assert!(matches!(messages(&s)[0], ClientMsg::Search { term, search_type: SearchType::Album } if term == "lo fi"));
    assert_eq!(s.search.term, "lo fi");
    assert!(matches!(&s.history.mode, MiddleMode::SearchResults { term, .. } if term == "lo fi"));
}

#[test]
fn a_blank_search_only_closes_the_modal() {
    let mut s = Sources::new(0, false);
    cursor(TuiCursorEvent::OpenSearchInput, &mut s);
    cursor(TuiCursorEvent::SearchInputType(' '), &mut s);
    cursor(TuiCursorEvent::SearchSubmit, &mut s);
    assert!(s.requests.pending.is_empty());
    assert!(matches!(s.screen, Screen::NowPlaying));
}

#[test]
fn opening_search_with_a_backend_loads_its_history_once() {
    let mut s = Sources::new(0, false);
    s.session.backend_name = Some("study".to_string());
    let first = cursor(TuiCursorEvent::OpenSearchInput, &mut s);
    assert!(matches!(first.as_slice(), [DriverCmd::Persist(PersistCmd::LoadSearchHistory { backend })] if backend == "study"));
    let second = cursor(TuiCursorEvent::OpenSearchInput, &mut s);
    assert!(second.is_empty(), "load already in flight");
}

#[test]
fn creating_a_playlist_shows_it_pending() {
    let mut s = Sources::new(0, false);
    s.screen = Screen::CreatePlaylist { input: String::new(), add_item: None };
    for c in " Mix ".chars() {
        cursor(TuiCursorEvent::CreatePlaylistType(c), &mut s);
    }
    cursor(TuiCursorEvent::CreatePlaylistSubmit, &mut s);
    assert!(matches!(messages(&s)[0], ClientMsg::CreatePlaylist { name } if name == "Mix"));
    assert_eq!(s.pending_playlists.creating.len(), 1);
    assert_eq!(s.pending_playlists.creating[0].detail, "Mix");
    assert!(matches!(s.screen, Screen::NowPlaying));
}

#[test]
fn typing_for_another_modal_is_ignored() {
    let mut s = Sources::new(0, false);
    s.screen = Screen::CreatePlaylist { input: String::new(), add_item: None };
    cursor(TuiCursorEvent::RenamePlaylistType('x'), &mut s);
    assert!(matches!(&s.screen, Screen::CreatePlaylist { input, .. } if input.is_empty()));
}

#[test]
fn renaming_to_the_same_name_sends_nothing() {
    let mut s = Sources::new(0, false);
    s.screen = Screen::RenamePlaylist { id: "p".to_string(), original: "A".to_string(), input: "A ".to_string() };
    cursor(TuiCursorEvent::RenamePlaylistSubmit, &mut s);
    assert!(s.requests.pending.is_empty());
    s.screen = Screen::RenamePlaylist { id: "p".to_string(), original: "A".to_string(), input: "B".to_string() };
    cursor(TuiCursorEvent::RenamePlaylistSubmit, &mut s);
    assert!(matches!(messages(&s)[0], ClientMsg::RenamePlaylist { id, name } if id == "p" && name == "B"));
    assert_eq!(s.pending_playlists.renaming[0].detail, "B");
}

#[test]
fn delete_needs_confirmation() {
    let mut s = Sources::new(0, false);
    s.screen = Screen::ConfirmDeletePlaylist { id: "p".to_string(), name: "A".to_string(), input: String::new() };
    cursor(TuiCursorEvent::ConfirmDeleteSubmit { confirmed: false }, &mut s);
    assert!(matches!(s.screen, Screen::ConfirmDeletePlaylist { .. }));
    cursor(TuiCursorEvent::ConfirmDeleteSubmit { confirmed: true }, &mut s);
    assert!(matches!(messages(&s)[0], ClientMsg::DeletePlaylist { id } if id == "p"));
    assert_eq!(s.pending_playlists.deleting[0].playlist_id, "p");
}

#[test]
fn playlist_action_leads_to_rename_or_delete() {
    let mut s = Sources::new(0, false);
    s.screen = Screen::PlaylistAction { playlist_id: "p".to_string(), playlist_name: "A".to_string(), selected: 0 };
    cursor(TuiCursorEvent::PlaylistActionCursorDown, &mut s);
    assert!(matches!(s.screen, Screen::PlaylistAction { selected: 1, .. }));
    cursor(TuiCursorEvent::PlaylistActionSubmit, &mut s);
    assert!(matches!(&s.screen, Screen::ConfirmDeletePlaylist { id, name, input } if id == "p" && name == "A" && input.is_empty()));
}

fn song_item(id: &str) -> ActionItem {
    ActionItem {
        id: id.to_string(),
        kind: ActionKind::Song,
        label: "x".to_string(),
        album_id: None,
        album_title: None,
        artist_id: None,
        artist_label: None,
        playlist_id: None,
        view_index: None,
        origin: ActionOrigin::OtherMiddle,
    }
}

#[test]
fn picking_a_playlist_adds_the_row_and_remembers_it() {
    let mut s = Sources::new(0, false);
    s.playlists.items = vec![playlist("p1", "One"), playlist("p2", "Two")];
    s.screen = Screen::PlaylistPicker { item: song_item("s9"), selected: 0 };
    cursor(TuiCursorEvent::PlaylistPickerCursorDown, &mut s);
    cursor(TuiCursorEvent::PlaylistPickerSubmit, &mut s);
    match messages(&s)[0] {
        ClientMsg::AddToPlaylist { playlist_id, song_ids, album_ids } => {
            assert_eq!(playlist_id, "p2");
            assert_eq!(song_ids, &vec!["s9".to_string()]);
            assert!(album_ids.is_empty());
        },
        _ => panic!("expected an add"),
    }
    assert_eq!(s.picker.last_add_playlist.as_deref(), Some("p2"));
    assert_eq!(s.pending_playlists.adding.len(), 1);
}

#[test]
fn the_new_row_of_the_picker_opens_creation_with_the_item() {
    let mut s = Sources::new(0, false);
    s.playlists.items = vec![playlist("p1", "One")];
    s.screen = Screen::PlaylistPicker { item: song_item("s9"), selected: 1 };
    cursor(TuiCursorEvent::PlaylistPickerCursorDown, &mut s);
    assert!(matches!(s.screen, Screen::PlaylistPicker { selected: 1, .. }), "stops at + New");
    cursor(TuiCursorEvent::PlaylistPickerSubmit, &mut s);
    assert!(matches!(&s.screen, Screen::CreatePlaylist { add_item: Some(item), .. } if item.id == "s9"));
}

#[test]
fn remove_confirmation_removes_the_song_at_that_row() {
    let mut s = Sources::new(0, false);
    s.playlist_tracks.songs = vec![Some(song("a")), Some(song("b"))];
    s.screen = Screen::ConfirmRemoveFromPlaylist { playlist_id: "p".to_string(), song_index: 1, song_title: "t".to_string() };
    cursor(TuiCursorEvent::ConfirmRemoveSubmit, &mut s);
    assert!(matches!(messages(&s)[0], ClientMsg::RemoveFromPlaylist { playlist_id, items }
        if playlist_id == "p" && items == &vec![("b".to_string(), 1usize)]));
    assert_eq!(s.pending_playlists.removing[0].detail, "b");
}

fn ad(name: &str) -> ServerAd {
    ServerAd { name: name.to_string(), host: format!("{name}.local"), ip: 0x7f00_0001, port: 4242 }
}

#[test]
fn picker_cursor_wraps_both_ways() {
    let mut s = Sources::new(0, false);
    s.discovery.upsert(ad("a"));
    s.discovery.upsert(ad("b"));
    cursor(TuiCursorEvent::PickerCursorUp, &mut s);
    assert_eq!(s.cursor.server_picker, 1);
    cursor(TuiCursorEvent::PickerCursorDown, &mut s);
    assert_eq!(s.cursor.server_picker, 0);
}

#[test]
fn picker_connect_dials_the_highlighted_server_and_says_so() {
    let mut s = Sources::new(0, false);
    s.discovery.upsert(ad("Study"));
    s.session.lost_server = Some("Old".to_string());
    cursor(TuiCursorEvent::PickerConnect, &mut s);
    assert_eq!(s.intent.target.as_deref(), Some("Study"));
    assert!(s.session.lost_server.is_none());
    assert!(!s.session.auto_connect);
    assert_eq!(s.toast.message.as_deref(), Some("connecting to Study\u{2026}"));
}

#[test]
fn picking_another_server_swaps_and_disconnects_the_live_link() {
    let mut s = Sources::new(0, false);
    s.discovery.upsert(ad("a"));
    s.discovery.upsert(ad("b"));
    s.session.backend_name = Some("a".to_string());
    s.link.phase = LinkPhase::Connected;
    s.screen = Screen::ServerPicker { selected: 0 };
    let same = cursor(TuiCursorEvent::ServerPickerModalSelect, &mut s);
    assert!(same.is_empty());
    assert!(matches!(s.screen, Screen::NowPlaying));
    s.screen = Screen::ServerPicker { selected: 1 };
    let cmds = cursor(TuiCursorEvent::ServerPickerModalSelect, &mut s);
    assert!(matches!(cmds.as_slice(), [DriverCmd::Link(LinkCmd::Disconnect)]));
    assert_eq!(s.intent.target.as_deref(), Some("b"));
    assert_eq!(s.session.preferred_server.as_deref(), Some("b"));
    assert!(s.session.auto_connect);
}

#[test]
fn giving_up_drops_the_retained_view_and_the_target() {
    let mut s = Sources::new(0, false);
    s.session.lost_server = Some("a".to_string());
    s.intent.target = Some("a".to_string());
    s.playlists.items = vec![playlist("p", "P")];
    let cmds = cursor(TuiCursorEvent::ServerLostGiveUp, &mut s);
    assert!(cmds.is_empty(), "the link is idle");
    assert!(s.intent.target.is_none());
    assert!(s.playlists.items.is_empty());
    assert!(s.session.lost_server.is_none());
    assert!(!s.session.auto_connect);
}

#[test]
fn left_enter_on_the_server_row_opens_the_picker_on_the_backend() {
    let mut s = Sources::new(0, false);
    s.discovery.upsert(ad("a"));
    s.discovery.upsert(ad("b"));
    s.session.backend_name = Some("b".to_string());
    cursor(TuiCursorEvent::LeftActivate, &mut s);
    assert!(matches!(s.screen, Screen::ServerPicker { selected: 1 }));
}

#[test]
fn left_enter_on_a_playlist_opens_it() {
    let mut s = Sources::new(0, false);
    s.playlists.items = vec![playlist("p1", "One"), playlist("p2", "Two")];
    s.cursor.left = 2;
    cursor(TuiCursorEvent::LeftActivate, &mut s);
    assert_eq!(s.playlist_tracks.playlist_id.as_deref(), Some("p2"));
    assert!(matches!(messages(&s)[0], ClientMsg::GetPlaylist { id, focus: 0 } if id == "p2"));
    assert!(matches!(s.history.mode, MiddleMode::PlaylistSongs));
    s.cursor.left = 3;
    cursor(TuiCursorEvent::LeftActivate, &mut s);
    assert!(matches!(&s.screen, Screen::CreatePlaylist { input, add_item: None } if input.is_empty()));
}

#[test]
fn bottom_of_the_left_column_is_the_new_row() {
    let mut s = Sources::new(0, false);
    s.playlists.items = vec![playlist("p1", "One")];
    cursor(TuiCursorEvent::JumpBottomFocused, &mut s);
    assert_eq!(s.cursor.left, 2);
    cursor(TuiCursorEvent::LeftCursorDown, &mut s);
    assert_eq!(s.cursor.left, 2);
}

#[test]
fn focus_moving_to_the_queue_lands_on_the_playing_row() {
    let mut s = Sources::new(0, false);
    s.queue.items = vec![song("a"), song("b"), song("c")];
    s.queue.current_index = Some(2);
    s.cursor.focus = ColumnFocus::Middle;
    cursor(TuiCursorEvent::CycleFocusForward, &mut s);
    assert_eq!(s.cursor.focus, ColumnFocus::Queue);
    assert_eq!(s.cursor.queue, 2);
}

#[test]
fn queue_enter_skips_to_the_entry() {
    let mut s = Sources::new(0, false);
    s.queue.queue_id = Some(7);
    s.queue.items = vec![song("a"), song("b")];
    s.queue.entry_ids = vec![70, 71];
    s.cursor.queue = 1;
    cursor(TuiCursorEvent::QueueActivate, &mut s);
    assert!(matches!(messages(&s)[0], ClientMsg::SkipToQueueEntry { queue_id: 7, entry_id: 71 }));
}

#[test]
fn hovering_a_queue_row_previews_it() {
    let mut s = Sources::new(100, false);
    s.queue.items = vec![song("a"), song("b")];
    cursor(TuiCursorEvent::QueueCursorDown, &mut s);
    assert_eq!(s.cursor.queue, 1);
    assert_eq!(s.preview.song.as_ref().map(|x| x.id.as_str()), Some("b"));
    assert_eq!(s.preview.expires_at, Some(3100));
}

#[test]
fn selection_range_follows_the_cursor() {
    let mut s = Sources::new(0, false);
    s.queue.items = vec![song("a"), song("b"), song("c"), song("d")];
    s.cursor.focus = ColumnFocus::Queue;
    cursor(TuiCursorEvent::ToggleSelectionForFocused, &mut s);
    assert_eq!(s.selection.context, Some(SelectionContext::Queue));
    cursor(TuiCursorEvent::SelectionToggleAnchor, &mut s);
    cursor(TuiCursorEvent::SelectionMoveDown, &mut s);
    cursor(TuiCursorEvent::SelectionMoveDown, &mut s);
    assert_eq!(s.selection.selected, vec![0, 1, 2]);
    cursor(TuiCursorEvent::SelectionMoveUp, &mut s);
    assert_eq!(s.selection.selected, vec![0, 1]);
    assert_eq!(s.selection.range_selected, vec![0, 1]);
}

#[test]
fn bulk_play_next_sends_the_selected_songs_in_row_order() {
    let mut s = Sources::new(0, false);
    s.queue.items = vec![song("a"), song("b"), song("c")];
    s.cursor.focus = ColumnFocus::Queue;
    cursor(TuiCursorEvent::ToggleSelectionForFocused, &mut s);
    s.cursor.queue = 2;
    cursor(TuiCursorEvent::SelectionAdd, &mut s);
    s.cursor.queue = 0;
    cursor(TuiCursorEvent::SelectionAdd, &mut s);
    cursor(TuiCursorEvent::SelectionActionApply('n'), &mut s);
    match messages(&s)[0] {
        ClientMsg::PlaySongs { song_ids, position } => {
            assert_eq!(song_ids, &vec!["a".to_string(), "c".to_string()]);
            assert_eq!(*position, QueuePosition::Next);
        },
        _ => panic!("expected a bulk play"),
    }
    assert!(s.selection.context.is_none());
}

#[test]
fn bulk_add_names_the_song_count() {
    let mut s = Sources::new(0, false);
    s.queue.items = vec![song("a"), song("b")];
    s.cursor.focus = ColumnFocus::Queue;
    cursor(TuiCursorEvent::ToggleSelectionForFocused, &mut s);
    cursor(TuiCursorEvent::SelectionAdd, &mut s);
    cursor(TuiCursorEvent::SelectionAdd, &mut s);
    cursor(TuiCursorEvent::SelectionActionApply('a'), &mut s);
    assert!(matches!(&s.screen, Screen::PlaylistPicker { item, selected: 0 } if item.label == "2 songs"));
}

#[test]
fn bulk_delete_in_the_queue_removes_each_entry() {
    let mut s = Sources::new(0, false);
    s.queue.queue_id = Some(3);
    s.queue.items = vec![song("a"), song("b"), song("c")];
    s.queue.entry_ids = vec![30, 31, 32];
    s.cursor.focus = ColumnFocus::Queue;
    cursor(TuiCursorEvent::ToggleSelectionForFocused, &mut s);
    s.cursor.queue = 2;
    cursor(TuiCursorEvent::SelectionAdd, &mut s);
    s.cursor.queue = 0;
    cursor(TuiCursorEvent::SelectionAdd, &mut s);
    cursor(TuiCursorEvent::SelectionActionApply('d'), &mut s);
    let m = messages(&s);
    assert!(matches!(m.as_slice(), [
        ClientMsg::RemoveFromQueue { queue_id: 3, entry_id: 30 },
        ClientMsg::RemoveFromQueue { queue_id: 3, entry_id: 32 },
    ]));
    assert!(s.selection.context.is_none());
}

#[test]
fn bulk_menu_offers_delete_only_where_rows_can_be_removed() {
    let mut s = Sources::new(0, false);
    s.cursor.focus = ColumnFocus::Middle;
    cursor(TuiCursorEvent::ToggleSelectionForFocused, &mut s);
    assert_eq!(mkpclient::selecting::selection_action_menu(&s), vec!['n', 'e', 'a', 'd']);
    s.history.mode = MiddleMode::SearchResults { term: "x".to_string(), search_type: SearchType::Song, task_id: None };
    assert_eq!(mkpclient::selecting::selection_action_menu(&s), vec!['n', 'e', 'a']);
}

#[test]
fn decimal_text_writes_digits() {
    assert_eq!(decimal_text(0), "0");
    assert_eq!(decimal_text(7), "7");
    assert_eq!(decimal_text(120), "120");
}

#[test]
fn help_scroll_stops_at_zero() {
    let mut s = Sources::new(0, false);
    cursor(TuiCursorEvent::OpenHelpOverlay, &mut s);
    cursor(TuiCursorEvent::HelpScroll(5), &mut s);
    cursor(TuiCursorEvent::HelpScroll(-2), &mut s);
    assert!(matches!(s.screen, Screen::HelpOverlay { scroll: 3 }));
    cursor(TuiCursorEvent::HelpScroll(-9), &mut s);
    assert!(matches!(s.screen, Screen::HelpOverlay { scroll: 0 }));
}

#[test]
fn persist_events_become_driver_commands() {
    let mut s = Sources::new(0, false);
    let cmds = dispatch_semantic(SemanticEvent::PersistSaveLastServer { name: "study".to_string() }, &mut s);
    assert!(matches!(cmds.as_slice(), [DriverCmd::Persist(PersistCmd::SaveLastServer { name })] if name == "study"));
    let none = dispatch_semantic(SemanticEvent::PersistSaveCurrentView { backend: "b".to_string() }, &mut s);
    assert!(none.is_empty(), "a playlist view with nothing loaded is not saved");
}

#[test]
fn forget_of_the_target_disconnects_and_deletes() {
    let mut s = Sources::new(0, false);
    s.intent.target = Some("fp".to_string());
    let cmds = dispatch_semantic(SemanticEvent::Forget { fingerprint: "fp".to_string() }, &mut s);
    assert!(matches!(cmds.as_slice(), [DriverCmd::Link(LinkCmd::Disconnect), DriverCmd::Cred(_)]));
    assert!(s.intent.target.is_none());
}

#[test]
fn a_wrapping_step_up_then_down_returns_to_the_row() {
    let mut s = Sources::new(0, false);
    s.discovery.upsert(ad("a"));
    s.discovery.upsert(ad("b"));
    s.discovery.upsert(ad("c"));
    for start in 0..3usize {
        s.cursor.server_picker = start;
        cursor(TuiCursorEvent::PickerCursorUp, &mut s);
        cursor(TuiCursorEvent::PickerCursorDown, &mut s);
        assert_eq!(s.cursor.server_picker, start);
    }
}

#[test]
fn focus_forward_then_back_returns_to_the_column() {
    let mut s = Sources::new(0, false);
    for f in [ColumnFocus::Left, ColumnFocus::Middle, ColumnFocus::Queue] {
        s.cursor.focus = f;
        cursor(TuiCursorEvent::CycleFocusForward, &mut s);
        cursor(TuiCursorEvent::CycleFocusBackward, &mut s);
        assert_eq!(s.cursor.focus, f);
    }
}

#[test]
fn toggling_selection_twice_leaves_none() {
    let mut s = Sources::new(0, false);
    s.cursor.focus = ColumnFocus::Middle;
    cursor(TuiCursorEvent::ToggleSelectionForFocused, &mut s);
    assert!(s.selection.context.is_some());
    cursor(TuiCursorEvent::ToggleSelectionForFocused, &mut s);
    assert!(s.selection.context.is_none());
    assert!(s.selection.selected.is_empty());
}

#[test]
fn an_idle_fresh_tick_asks_nothing_of_the_drivers() {
    let mut s = Sources::new(0, true);
    let cmds = mkpclient::execute::run(&mut s, 0);
    assert!(cmds.link.is_none());
    assert!(cmds.backend.is_empty());
    assert!(cmds.view_load.is_none());
    assert!(cmds.clipboard.is_none());
    assert!(cmds.sends.is_empty());
}

#[test]
fn a_tick_hands_a_pending_copy_to_the_clipboard() {
    let mut s = Sources::new(0, true);
    dispatch_semantic(
        SemanticEvent::ClipboardCopy { text: "hello".to_string(), success_toast: "copied".to_string() },
        &mut s,
    );
    let cmds = mkpclient::execute::run(&mut s, 0);
    assert!(matches!(cmds.clipboard, Some(mkpclient::clipboard::ClipboardCmd::Write { ref text, .. }) if text == "hello"));
    assert!(s.clipboard.pending.is_none());
}

#[test]
fn the_action_menu_highlight_is_kept_on_an_entry() {
    let mut s = Sources::new(0, true);
    s.screen = Screen::ActionModal(mkpclient::state::ui::ActionModalState { item: song_item("x"), selected: 9 });
    mkpclient::lifecycle::cursor_clamp::apply_action_modal_clamp(&mut s, 4);
    assert!(matches!(&s.screen, Screen::ActionModal(st) if st.selected == 3));
}

#[test]
fn current_server_name_matches_the_probed_fingerprint() {
    let mut s = Sources::new(0, false);
    assert_eq!(current_server_name(&s), None);
    s.discovery.servers.push(ServerAd { name: "den".to_string(), host: "den.local".to_string(), ip: 1, port: 7 });
    s.discovery.servers.push(ServerAd { name: "loft".to_string(), host: "loft.local".to_string(), ip: 2, port: 7 });
    s.probes.set(Endpoint { ip: 1, port: 7 }, ProbeOutcome::Fingerprint("aa".to_string()));
    s.probes.set(Endpoint { ip: 2, port: 7 }, ProbeOutcome::Fingerprint("bb".to_string()));
    s.link.target = Some("bb".to_string());
    assert_eq!(current_server_name(&s), Some("loft".to_string()));
    s.link.target = Some("cc".to_string());
    assert_eq!(current_server_name(&s), None);
}

#[test]
fn sorted_queue_indices_lists_the_selection_in_order() {
    let mut s = Sources::new(0, false);
    s.selection.selected = vec![1, 4, 9];
    assert_eq!(sorted_queue_indices(&s), vec![1, 4, 9]);
}

#[test]
fn well_formedness_checks_catch_disorder_and_duplicates() {
    let mut s = Sources::new(0, false);
    assert!(s.selection.is_well_formed());
    s.selection.selected = vec![3, 2];
    assert!(!s.selection.is_well_formed());
    s.selection.selected = vec![2, 3];
    s.selection.range_selected = vec![5, 5];
    assert!(!s.selection.is_well_formed());
    assert!(s.discovery.is_well_formed());
    s.discovery.servers.push(ServerAd { name: "den".to_string(), host: "a".to_string(), ip: 1, port: 7 });
    s.discovery.servers.push(ServerAd { name: "loft".to_string(), host: "b".to_string(), ip: 2, port: 7 });
    assert!(s.discovery.is_well_formed());
    s.discovery.servers.push(ServerAd { name: "den".to_string(), host: "c".to_string(), ip: 3, port: 7 });
    assert!(!s.discovery.is_well_formed());
}
