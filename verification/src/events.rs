//! The event router: every user intent and lifecycle request reaches
//! the sources through here, and what the drivers must do comes back as
//! commands.

use vstd::prelude::*;
use crate::action_menu::{
    action_modal_cursor_down, action_modal_cursor_down_effect, action_modal_cursor_up, action_modal_cursor_up_effect,
    apply_action_choice, apply_action_choice_effect, middle_open_action, middle_open_action_effect,
    open_action_menu_or_cycle, open_action_menu_or_cycle_effect, queue_open_action, queue_open_action_effect,
};
use crate::dispatch::{
    album_restored, artist_restored, begin_pair, build_saved_view, confirm_pair, connect_to, connected_to,
    deferred_add_fired, disconnect, disconnected, fire_deferred_add_to_playlist, first_opened, forget, forgotten,
    history_back, history_forward, load_step, open_first_playlist, pair_begun, pair_confirmed, pair_rejected,
    playlist_opened, playlist_restored, reject_pair, request_load_last_add_playlist, request_load_view,
    restore_saved_album, restore_saved_artist, restore_saved_playlist, restore_saved_search, search_restored,
    snap_middle_cursor_to_song_id, snapped_to_song, spec_saved_view, stepped_back, stepped_forward, view_playlist,
};
use crate::drivers::CredCmd;
use crate::link_driver::LinkCmd;
use crate::modals::{
    NameModal, confirm_delete_submit, confirm_delete_submit_effect, confirm_remove_submit,
    confirm_remove_submit_effect, create_playlist_submit, create_playlist_submit_effect, filter_input_backspace,
    filter_input_backspace_effect, filter_input_cancel, filter_input_cancel_effect, filter_input_submit,
    filter_input_submit_effect, filter_input_type, filter_input_type_effect, help_scroll, help_scroll_effect,
    help_scroll_home, help_scroll_home_effect, name_input_backspace, name_input_backspace_effect, name_input_type,
    name_input_type_effect, open_search_input, open_search_input_effect, playlist_action_cursor_down,
    playlist_action_cursor_down_effect, playlist_action_delete, playlist_action_delete_effect,
    playlist_action_rename, playlist_action_rename_effect, playlist_action_submit, playlist_action_submit_effect,
    playlist_action_cursor_up, playlist_action_cursor_up_effect, playlist_picker_cursor_down,
    playlist_picker_cursor_down_effect, playlist_picker_cursor_up, playlist_picker_cursor_up_effect,
    playlist_picker_submit, playlist_picker_submit_effect, rename_playlist_submit, rename_playlist_submit_effect,
    search_cycle_type, search_cycle_type_effect, search_edit_from_history, search_edit_from_history_effect,
    search_history_down, search_history_down_effect, search_history_up, search_history_up_effect,
    search_input_backspace, search_input_backspace_effect, search_input_type, search_input_type_effect,
    search_submit, search_submit_effect,
};
use crate::panes::{
    JumpTarget, PageStep, clear_focused_filter, clear_focused_filter_effect, current_repeat, cycle_focus_backward,
    cycle_focus_backward_effect, cycle_focus_forward, cycle_focus_forward_effect, cycle_repeat_mode, is_playing,
    jump_focused, jump_focused_effect, left_activate, left_activated, left_cursor_down, left_cursor_down_effect,
    left_cursor_up, left_cursor_up_effect, left_open_action, left_open_action_effect, middle_activate,
    middle_activated, middle_cursor_down, middle_cursor_down_effect, middle_cursor_up, middle_cursor_up_effect,
    open_filter_input_for_focused, open_filter_input_for_focused_effect, page_focused, page_focused_effect,
    queue_activate, queue_activate_effect, queue_cursor_down, queue_cursor_down_effect, queue_cursor_up,
    queue_cursor_up_effect, repeat_next, seek_relative, sent, shuffle_activate_focused,
    shuffle_activate_focused_effect, skip_next, skip_previous, toggle_play_pause, toggle_play_pause_effect,
};
use crate::persist::{LoadKeyModel, PersistCmd, SavedViewModel};
use crate::proto::{ClientMsg, SearchType, TaskId};
use crate::selecting::{
    bulk_applied, selection_action_apply, selection_action_cursor_down, selection_action_cursor_down_effect,
    selection_action_cursor_up, selection_action_cursor_up_effect, selection_add, selection_add_effect,
    selection_move_down, selection_move_down_effect, selection_move_up, selection_move_up_effect,
    selection_play_reset, selection_play_reset_effect, selection_remove, selection_remove_effect,
    selection_toggle_anchor, selection_toggle_anchor_effect, toggle_selection_for_focused,
    toggle_selection_for_focused_effect,
};
use crate::server_picker::{
    picker_connect, picker_connect_effect, picker_cursor_down, picker_cursor_down_effect, picker_cursor_up,
    picker_cursor_up_effect, server_lost_give_up, server_lost_give_up_effect, server_picker_modal_cursor_down,
    server_picker_modal_cursor_down_effect, server_picker_modal_cursor_up, server_picker_modal_cursor_up_effect,
    server_picker_modal_select, server_picker_modal_select_effect,
};
use crate::state::link::sat_add;
use crate::state::requests::queued;
use crate::state::session::UiSession;
use crate::state::sources::Sources;
use crate::state::ui::Screen;

verus! {

/// A command for one of the drivers.
pub enum DriverCmd {
    Link(LinkCmd),
    Cred(CredCmd),
    Persist(PersistCmd),
}

/// Seek step of the seek keys, in milliseconds: fine or coarse.
pub open spec fn seek_step(fine: bool) -> i64 {
    if fine { 1000 } else { 10000 }
}

/// Events that name a server, a song, a persistence operation or a
/// transport command, from any front end or from the lifecycle rules.
/// Times are in milliseconds.
#[allow(inconsistent_fields)]
pub enum SemanticEvent {
    ConnectTo { server_name: String },
    BeginPair { server_name: String },
    ConfirmPair,
    RejectPair,
    Disconnect,
    Forget { fingerprint: String },
    SendRequest { msg: ClientMsg, task_id: Option<TaskId> },
    ViewPlaylist { id: String },
    SkipNext,
    SkipPrevious,
    SeekForward { fine: bool },
    SeekBackward { fine: bool },
    CycleRepeatMode,
    TogglePlayPause,
    SeekTo { position_ms: u64 },
    OpenServerLostModal { server: String },
    OpenErrorModal { message: String },
    TakeResponse { seq: u64 },
    SnapMiddleCursorToSongId { id: String },
    SetBackendName(Option<String>),
    SetLostServer(Option<String>),
    SetAutoConnect(bool),
    SetAutoRestoredView(bool),
    SetPreferredServer(Option<String>),
    SetPendingCursorSongId(Option<String>),
    RestoreSavedPlaylist { playlist_id: String, selected: usize, selected_id: Option<String> },
    RestoreSavedAlbum { album_id: String, album_name: String, selected: usize, selected_id: Option<String> },
    RestoreSavedArtist { artist_id: String, artist_name: String, selected: usize },
    RestoreSavedSearch { query: String, search_type: SearchType, selected: usize, selected_id: Option<String> },
    OpenFirstPlaylist { id: String },
    FireDeferredAddToPlaylist { playlist_id: String },
    Toast { text: String, ttl_ms: u64 },
    ClipboardCopy { text: String, success_toast: String },
    PersistSaveLastServer { name: String },
    PersistSaveLastAddPlaylist { backend: String, playlist_id: String },
    PersistPushSearchHistory { backend: String, query: String, search_type: String },
    PersistSaveCurrentView { backend: String },
    PersistClearView { backend: String },
    PersistRequestLoadView,
    PersistRequestLoadLastAddPlaylist { backend: String },
}

/// The command that saves the current middle-pane location for
/// `backend`, when that location can be saved.
pub fn save_current_view(sources: &Sources, backend: String) -> (cmd: Option<PersistCmd>)
    ensures
        match spec_saved_view(*sources) {
            Some(m) => cmd matches Some(PersistCmd::SaveView { backend: b, view }) && b == backend && view.model() == m,
            None => cmd is None,
        },
{
    match build_saved_view(sources) {
        Some(view) => Some(PersistCmd::SaveView { backend, view }),
        None => None,
    }
}

/// `post` is `pre` with only the session changed to `session`.
pub open spec fn session_set(pre: Sources, post: Sources, session: UiSession) -> bool {
    post == (Sources { session, ..pre })
}

/// The single command `cmds` holds is `c`.
pub open spec fn only_cmd(cmds: Seq<DriverCmd>, c: DriverCmd) -> bool {
    cmds.len() == 1 && cmds[0] == c
}

/// What a semantic event does to the sources and which driver commands
/// it yields.
pub open spec fn semantic_step(pre: Sources, post: Sources, ev: SemanticEvent, cmds: Seq<DriverCmd>) -> bool {
    match ev {
        SemanticEvent::ConnectTo { server_name } => connected_to(pre, post, server_name) && cmds.len() == 0,
        SemanticEvent::BeginPair { server_name } => pair_begun(pre, post, server_name) && cmds.len() == 0,
        SemanticEvent::ConfirmPair => exists|c: Option<LinkCmd>| {
            &&& #[trigger] pair_confirmed(pre, post, c)
            &&& match c {
                Some(l) => only_cmd(cmds, DriverCmd::Link(l)),
                None => cmds.len() == 0,
            }
        },
        SemanticEvent::RejectPair => exists|c: LinkCmd| #[trigger] pair_rejected(pre, post, c) && only_cmd(cmds, DriverCmd::Link(c)),
        SemanticEvent::Disconnect => exists|c: Option<LinkCmd>| {
            &&& #[trigger] disconnected(pre, post, c)
            &&& match c {
                Some(l) => only_cmd(cmds, DriverCmd::Link(l)),
                None => cmds.len() == 0,
            }
        },
        SemanticEvent::Forget { fingerprint } => exists|c: (Option<LinkCmd>, CredCmd)| {
            &&& #[trigger] forgotten(pre, post, fingerprint, c)
            &&& match c.0 {
                Some(l) => cmds.len() == 2 && cmds[0] == DriverCmd::Link(l) && cmds[1] == DriverCmd::Cred(c.1),
                None => only_cmd(cmds, DriverCmd::Cred(c.1)),
            }
        },
        SemanticEvent::SendRequest { msg, task_id } => {
            &&& queued(pre.requests, post.requests, msg, task_id)
            &&& post == (Sources { requests: post.requests, ..pre })
            &&& cmds.len() == 0
        },
        SemanticEvent::ViewPlaylist { id } => {
            &&& playlist_opened(pre, post, id)
            &&& post == (Sources { requests: post.requests, playlist_tracks: post.playlist_tracks, ..pre })
            &&& cmds.len() == 0
        },
        SemanticEvent::SkipNext => sent(pre, post, ClientMsg::Skip) && cmds.len() == 0,
        SemanticEvent::SkipPrevious => sent(pre, post, ClientMsg::Previous) && cmds.len() == 0,
        SemanticEvent::SeekForward { fine } => sent(pre, post, ClientMsg::SeekRelative { offset_ms: seek_step(fine) })
            && cmds.len() == 0,
        SemanticEvent::SeekBackward { fine } => sent(
            pre,
            post,
            ClientMsg::SeekRelative { offset_ms: (0 - seek_step(fine)) as i64 },
        ) && cmds.len() == 0,
        SemanticEvent::CycleRepeatMode => sent(pre, post, ClientMsg::SetRepeat { mode: repeat_next(current_repeat(pre)) })
            && cmds.len() == 0,
        SemanticEvent::TogglePlayPause => sent(pre, post, ClientMsg::SetPaused { paused: is_playing(pre) }) && cmds.len()
            == 0,
        SemanticEvent::SeekTo { position_ms } => sent(pre, post, ClientMsg::Seek { position_ms }) && cmds.len() == 0,
        SemanticEvent::OpenServerLostModal { server } => post == (Sources { screen: Screen::ServerLostModal { server }, ..pre })
            && cmds.len() == 0,
        SemanticEvent::OpenErrorModal { message } => post == (Sources { screen: Screen::ErrorModal { message }, ..pre })
            && cmds.len() == 0,
        SemanticEvent::TakeResponse { seq } => {
            &&& post == (Sources { responses: post.responses, ..pre })
            &&& (exists|i: int| 0 <= i < pre.responses.by_seq@.len() && pre.responses.by_seq@[i].seq == seq) ==> exists|
                i: int,
            |
                0 <= i < pre.responses.by_seq@.len() && pre.responses.by_seq@[i].seq == seq && (forall|j: int|
                    0 <= j < i ==> pre.responses.by_seq@[j].seq != seq) && post.responses.by_seq@
                    == pre.responses.by_seq@.remove(i)
            &&& !(exists|i: int| 0 <= i < pre.responses.by_seq@.len() && pre.responses.by_seq@[i].seq == seq)
                ==> post.responses.by_seq@ == pre.responses.by_seq@
            &&& cmds.len() == 0
        },
        SemanticEvent::SnapMiddleCursorToSongId { id } => snapped_to_song(pre, post, id) && cmds.len() == 0,
        SemanticEvent::SetBackendName(v) => session_set(pre, post, UiSession { backend_name: v, ..pre.session })
            && cmds.len() == 0,
        SemanticEvent::SetLostServer(v) => session_set(pre, post, UiSession { lost_server: v, ..pre.session })
            && cmds.len() == 0,
        SemanticEvent::SetAutoConnect(v) => session_set(pre, post, UiSession { auto_connect: v, ..pre.session })
            && cmds.len() == 0,
        SemanticEvent::SetAutoRestoredView(v) => session_set(pre, post, UiSession { auto_restored_view: v, ..pre.session })
            && cmds.len() == 0,
        SemanticEvent::SetPreferredServer(v) => session_set(pre, post, UiSession { preferred_server: v, ..pre.session })
            && cmds.len() == 0,
        SemanticEvent::SetPendingCursorSongId(v) => session_set(
            pre,
            post,
            UiSession { pending_cursor_song_id: v, ..pre.session },
        ) && cmds.len() == 0,
        SemanticEvent::RestoreSavedPlaylist { playlist_id, selected, selected_id } => playlist_restored(
            pre,
            post,
            playlist_id,
            selected,
            selected_id,
        ) && cmds.len() == 0,
        SemanticEvent::RestoreSavedAlbum { album_id, album_name, selected, selected_id } => album_restored(
            pre,
            post,
            album_id,
            album_name,
            selected,
            selected_id,
        ) && cmds.len() == 0,
        SemanticEvent::RestoreSavedArtist { artist_id, artist_name, selected } => artist_restored(
            pre,
            post,
            artist_id,
            artist_name,
            selected,
        ) && cmds.len() == 0,
        SemanticEvent::RestoreSavedSearch { query, search_type, selected, selected_id } => search_restored(
            pre,
            post,
            query,
            search_type,
            selected,
            selected_id,
        ) && cmds.len() == 0,
        SemanticEvent::OpenFirstPlaylist { id } => first_opened(pre, post, id) && cmds.len() == 0,
        SemanticEvent::FireDeferredAddToPlaylist { playlist_id } => deferred_add_fired(pre, post, playlist_id) && cmds.len()
            == 0,
        SemanticEvent::Toast { text, ttl_ms } => {
            &&& post == (Sources { toast: post.toast, ..pre })
            &&& post.toast.message matches Some(m) && m@ == text@
            &&& post.toast.expires_at == Some(sat_add(pre.now, ttl_ms))
            &&& cmds.len() == 0
        },
        SemanticEvent::ClipboardCopy { text, success_toast } => {
            &&& post == (Sources { clipboard: post.clipboard, ..pre })
            &&& post.clipboard.next_seq == crate::clipboard::next_seq_after(pre.clipboard.next_seq)
            &&& post.clipboard.pending matches Some(p) && p.seq == post.clipboard.next_seq && p.text@ == text@
                && p.success_toast@ == success_toast@
            &&& post.clipboard.last_outcome == pre.clipboard.last_outcome
            &&& post.clipboard.last_toasted_seq == pre.clipboard.last_toasted_seq
            &&& cmds.len() == 0
        },
        SemanticEvent::PersistSaveLastServer { name } => post == pre && only_cmd(
            cmds,
            DriverCmd::Persist(PersistCmd::SaveLastServer { name }),
        ),
        SemanticEvent::PersistSaveLastAddPlaylist { backend, playlist_id } => post == pre && only_cmd(
            cmds,
            DriverCmd::Persist(PersistCmd::SaveLastAddPlaylist { backend, playlist_id }),
        ),
        SemanticEvent::PersistPushSearchHistory { backend, query, search_type } => post == pre && only_cmd(
            cmds,
            DriverCmd::Persist(PersistCmd::PushSearchHistory { backend, query, search_type }),
        ),
        SemanticEvent::PersistSaveCurrentView { backend } => post == pre && match spec_saved_view(pre) {
            Some(m) => cmds.len() == 1 && (cmds[0] matches DriverCmd::Persist(PersistCmd::SaveView { backend: b, view })
                && b == backend && view.model() == m),
            None => cmds.len() == 0,
        },
        SemanticEvent::PersistClearView { backend } => post == pre && only_cmd(
            cmds,
            DriverCmd::Persist(PersistCmd::ClearView { backend }),
        ),
        SemanticEvent::PersistRequestLoadView => match pre.session.backend_name {
            Some(b) => {
                &&& load_step(pre, post, LoadKeyModel::View(b@), cmds.len() == 1)
                &&& cmds.len() <= 1
                &&& cmds.len() == 1 ==> (cmds[0] matches DriverCmd::Persist(PersistCmd::LoadView { backend }) && backend@ == b@)
            },
            None => post == pre && cmds.len() == 0,
        },
        SemanticEvent::PersistRequestLoadLastAddPlaylist { backend } => {
            &&& load_step(pre, post, LoadKeyModel::LastAddPlaylist(backend@), cmds.len() == 1)
            &&& cmds.len() <= 1
            &&& cmds.len() == 1 ==> (cmds[0] matches DriverCmd::Persist(PersistCmd::LoadLastAddPlaylist { backend: b })
                && b@ == backend@)
        },
    }
}

/// The commands `c` stands for.
fn link_cmds(c: Option<LinkCmd>) -> (r: Vec<DriverCmd>)
    ensures
        match c {
            Some(l) => r@ == seq![DriverCmd::Link(l)],
            None => r@.len() == 0,
        },
{
    match c {
        Some(l) => vec![DriverCmd::Link(l)],
        None => Vec::new(),
    }
}

fn persist_cmds(c: Option<PersistCmd>) -> (r: Vec<DriverCmd>)
    ensures
        match c {
            Some(p) => r@ == seq![DriverCmd::Persist(p)],
            None => r@.len() == 0,
        },
{
    match c {
        Some(p) => vec![DriverCmd::Persist(p)],
        None => Vec::new(),
    }
}

/// Route a semantic event to its handler.
pub fn dispatch_semantic(ev: SemanticEvent, sources: &mut Sources) -> (cmds: Vec<DriverCmd>)
    ensures
        semantic_step(*old(sources), *final(sources), ev, cmds@),
        final(sources).selection == old(sources).selection,
{
    match ev {
        SemanticEvent::ConnectTo { server_name } => {
            connect_to(sources, server_name);
            Vec::new()
        },
        SemanticEvent::BeginPair { server_name } => {
            begin_pair(sources, server_name);
            Vec::new()
        },
        SemanticEvent::ConfirmPair => {
            let c = confirm_pair(sources);
            link_cmds(c)
        },
        SemanticEvent::RejectPair => {
            let c = reject_pair(sources);
            vec![DriverCmd::Link(c)]
        },
        SemanticEvent::Disconnect => {
            let c = disconnect(sources);
            link_cmds(c)
        },
        SemanticEvent::Forget { fingerprint } => {
            let (l, c) = forget(sources, fingerprint);
            let ghost gc = (l, c);
            match l {
                Some(l) => vec![DriverCmd::Link(l), DriverCmd::Cred(c)],
                None => vec![DriverCmd::Cred(c)],
            }
        },
        SemanticEvent::SendRequest { msg, task_id } => {
            sources.requests.push(msg, task_id);
            Vec::new()
        },
        SemanticEvent::ViewPlaylist { id } => {
            view_playlist(sources, id);
            Vec::new()
        },
        SemanticEvent::SkipNext => {
            skip_next(sources);
            Vec::new()
        },
        SemanticEvent::SkipPrevious => {
            skip_previous(sources);
            Vec::new()
        },
        SemanticEvent::SeekForward { fine } => {
            seek_relative(sources, if fine { 1000 } else { 10000 });
            Vec::new()
        },
        SemanticEvent::SeekBackward { fine } => {
            seek_relative(sources, if fine { -1000 } else { -10000 });
            Vec::new()
        },
        SemanticEvent::CycleRepeatMode => {
            cycle_repeat_mode(sources);
            Vec::new()
        },
        SemanticEvent::TogglePlayPause => {
            toggle_play_pause(sources);
            Vec::new()
        },
        SemanticEvent::SeekTo { position_ms } => {
            sources.requests.push(ClientMsg::Seek { position_ms }, None);
            Vec::new()
        },
        SemanticEvent::OpenServerLostModal { server } => {
            sources.screen = Screen::ServerLostModal { server };
            Vec::new()
        },
        SemanticEvent::OpenErrorModal { message } => {
            sources.screen = Screen::ErrorModal { message };
            Vec::new()
        },
        SemanticEvent::TakeResponse { seq } => {
            sources.responses.take(seq);
            Vec::new()
        },
        SemanticEvent::SnapMiddleCursorToSongId { id } => {
            snap_middle_cursor_to_song_id(sources, id);
            Vec::new()
        },
        SemanticEvent::SetBackendName(v) => {
            sources.session.backend_name = v;
            Vec::new()
        },
        SemanticEvent::SetLostServer(v) => {
            sources.session.lost_server = v;
            Vec::new()
        },
        SemanticEvent::SetAutoConnect(v) => {
            sources.session.auto_connect = v;
            Vec::new()
        },
        SemanticEvent::SetAutoRestoredView(v) => {
            sources.session.auto_restored_view = v;
            Vec::new()
        },
        SemanticEvent::SetPreferredServer(v) => {
            sources.session.preferred_server = v;
            Vec::new()
        },
        SemanticEvent::SetPendingCursorSongId(v) => {
            sources.session.pending_cursor_song_id = v;
            Vec::new()
        },
        SemanticEvent::RestoreSavedPlaylist { playlist_id, selected, selected_id } => {
            restore_saved_playlist(sources, playlist_id, selected, selected_id);
            Vec::new()
        },
        SemanticEvent::RestoreSavedAlbum { album_id, album_name, selected, selected_id } => {
            restore_saved_album(sources, album_id, album_name, selected, selected_id);
            Vec::new()
        },
        SemanticEvent::RestoreSavedArtist { artist_id, artist_name, selected } => {
            restore_saved_artist(sources, artist_id, artist_name, selected);
            Vec::new()
        },
        SemanticEvent::RestoreSavedSearch { query, search_type, selected, selected_id } => {
            restore_saved_search(sources, query, search_type, selected, selected_id);
            Vec::new()
        },
        SemanticEvent::OpenFirstPlaylist { id } => {
            open_first_playlist(sources, id);
            Vec::new()
        },
        SemanticEvent::FireDeferredAddToPlaylist { playlist_id } => {
            fire_deferred_add_to_playlist(sources, playlist_id);
            Vec::new()
        },
        SemanticEvent::Toast { text, ttl_ms } => {
            let until = sources.now.saturating_add(ttl_ms);
            sources.toast.show(text, until);
            Vec::new()
        },
        SemanticEvent::ClipboardCopy { text, success_toast } => {
            sources.clipboard.enqueue(text, success_toast);
            Vec::new()
        },
        SemanticEvent::PersistSaveLastServer { name } => vec![DriverCmd::Persist(PersistCmd::SaveLastServer { name })],
        SemanticEvent::PersistSaveLastAddPlaylist { backend, playlist_id } => vec![
            DriverCmd::Persist(PersistCmd::SaveLastAddPlaylist { backend, playlist_id }),
        ],
        SemanticEvent::PersistPushSearchHistory { backend, query, search_type } => vec![
            DriverCmd::Persist(PersistCmd::PushSearchHistory { backend, query, search_type }),
        ],
        SemanticEvent::PersistSaveCurrentView { backend } => {
            let c = save_current_view(sources, backend);
            persist_cmds(c)
        },
        SemanticEvent::PersistClearView { backend } => vec![DriverCmd::Persist(PersistCmd::ClearView { backend })],
        SemanticEvent::PersistRequestLoadView => {
            match &sources.session.backend_name {
                Some(b) => {
                    let b = b.clone();
                    let c = request_load_view(sources, b);
                    persist_cmds(c)
                },
                None => Vec::new(),
            }
        },
        SemanticEvent::PersistRequestLoadLastAddPlaylist { backend } => {
            let c = request_load_last_add_playlist(sources, backend);
            persist_cmds(c)
        },
    }
}

/// Key-level events of the terminal front end: cursor moves, modal
/// text entry and focus. Where the outcome depends on what a menu or a
/// confirmation view shows, the event carries that answer: the menu's
/// length, whether it offers the key, whether the typed text confirms.
pub enum TuiCursorEvent {
    CloseModal,
    ActionModalCursorUp { menu_len: usize },
    ActionModalCursorDown { menu_len: usize },
    ApplyActionChoice { choice: char, offered: bool },
    HelpScroll(i32),
    HelpScrollHome,
    FilterInputType(char),
    FilterInputBackspace,
    FilterInputCancel,
    FilterInputSubmit,
    SearchHistoryUp,
    SearchHistoryDown,
    SearchInputType(char),
    SearchInputBackspace,
    SearchCycleType { forward: bool },
    SearchEditFromHistory,
    SearchSubmit,
    CreatePlaylistType(char),
    CreatePlaylistBackspace,
    CreatePlaylistSubmit,
    RenamePlaylistType(char),
    RenamePlaylistBackspace,
    RenamePlaylistSubmit,
    ConfirmDeleteType(char),
    ConfirmDeleteBackspace,
    ConfirmDeleteSubmit { confirmed: bool },
    PlaylistActionCursorUp,
    PlaylistActionCursorDown,
    PlaylistActionSubmit,
    PlaylistActionRename,
    PlaylistActionDelete,
    PlaylistPickerCursorUp,
    PlaylistPickerCursorDown,
    PlaylistPickerSubmit,
    ConfirmRemoveSubmit,
    SelectionActionCursorUp,
    SelectionActionCursorDown,
    SelectionActionApply(char),
    ServerLostGiveUp,
    SelectionAdd,
    SelectionRemove,
    SelectionToggleAnchor,
    SelectionMoveUp,
    SelectionMoveDown,
    SelectionPlayReset,
    SelectionOpenModal,
    SelectionClear,
    PickerCursorUp,
    PickerCursorDown,
    PickerConnect,
    ServerPickerModalCursorUp,
    ServerPickerModalCursorDown,
    ServerPickerModalSelect,
    LeftCursorUp,
    LeftCursorDown,
    LeftActivate,
    LeftOpenAction,
    LeftTogglePlayPause,
    MiddleCursorUp,
    MiddleCursorDown,
    MiddleActivate,
    MiddleOpenAction,
    MiddleOpenActionX,
    MiddleTogglePlayPause,
    QueueCursorUp,
    QueueCursorDown,
    QueueActivate,
    QueueOpenAction,
    QueueOpenActionX,
    QueueTogglePlayPause,
    CycleFocusForward,
    CycleFocusBackward,
    HistoryBack,
    HistoryForward,
    OpenSearchInput,
    OpenHelpOverlay,
    OpenFilterInputForFocused,
    ToggleSelectionForFocused,
    JumpTopFocused,
    JumpBottomFocused,
    PageUpFocused,
    PageDownFocused,
    ShuffleActivateFocused,
    OpenActionMenuOrCycle,
    ClearFocusedFilter,
    OpenKeybindingsEditor,
    CloseKeybindingsEditor,
    KeybindingsEditorType(char),
    /// Pick an action by its id in the editor's right column.
    KeybindingsEditorSelect(u32),
    KeybindingsEditorBind(crate::state::keybindings::KeyChord),
    KeybindingsEditorSave,
}

/// A step that sends no driver command.
pub open spec fn quiet(cmds: Seq<DriverCmd>) -> bool {
    cmds.len() == 0
}

/// What a key-level event does to the sources and which driver
/// commands it yields.
pub open spec fn cursor_step(pre: Sources, post: Sources, ev: TuiCursorEvent, cmds: Seq<DriverCmd>) -> bool {
    match ev {
        TuiCursorEvent::CloseModal => post == (Sources { screen: Screen::NowPlaying, ..pre }) && quiet(cmds),
        TuiCursorEvent::ActionModalCursorUp { menu_len } => action_modal_cursor_up_effect(pre, post, menu_len) && quiet(cmds),
        TuiCursorEvent::ActionModalCursorDown { menu_len } => action_modal_cursor_down_effect(pre, post, menu_len)
            && quiet(cmds),
        TuiCursorEvent::ApplyActionChoice { choice, offered } => apply_action_choice_effect(pre, post, choice, offered)
            && quiet(cmds),
        TuiCursorEvent::HelpScroll(delta) => help_scroll_effect(pre, post, delta) && quiet(cmds),
        TuiCursorEvent::HelpScrollHome => help_scroll_home_effect(pre, post) && quiet(cmds),
        TuiCursorEvent::FilterInputType(c) => filter_input_type_effect(pre, post, c) && quiet(cmds),
        TuiCursorEvent::FilterInputBackspace => filter_input_backspace_effect(pre, post) && quiet(cmds),
        TuiCursorEvent::FilterInputCancel => filter_input_cancel_effect(pre, post) && quiet(cmds),
        TuiCursorEvent::FilterInputSubmit => filter_input_submit_effect(pre, post) && quiet(cmds),
        TuiCursorEvent::SearchHistoryUp => search_history_up_effect(pre, post) && quiet(cmds),
        TuiCursorEvent::SearchHistoryDown => search_history_down_effect(pre, post) && quiet(cmds),
        TuiCursorEvent::SearchInputType(c) => search_input_type_effect(pre, post, c) && quiet(cmds),
        TuiCursorEvent::SearchInputBackspace => search_input_backspace_effect(pre, post) && quiet(cmds),
        TuiCursorEvent::SearchCycleType { forward } => search_cycle_type_effect(pre, post, forward) && quiet(cmds),
        TuiCursorEvent::SearchEditFromHistory => search_edit_from_history_effect(pre, post) && quiet(cmds),
        TuiCursorEvent::SearchSubmit => search_submit_effect(pre, post) && quiet(cmds),
        TuiCursorEvent::CreatePlaylistType(c) => name_input_type_effect(pre, post, NameModal::Create, c) && quiet(cmds),
        TuiCursorEvent::CreatePlaylistBackspace => name_input_backspace_effect(pre, post, NameModal::Create) && quiet(cmds),
        TuiCursorEvent::CreatePlaylistSubmit => create_playlist_submit_effect(pre, post) && quiet(cmds),
        TuiCursorEvent::RenamePlaylistType(c) => name_input_type_effect(pre, post, NameModal::Rename, c) && quiet(cmds),
        TuiCursorEvent::RenamePlaylistBackspace => name_input_backspace_effect(pre, post, NameModal::Rename) && quiet(cmds),
        TuiCursorEvent::RenamePlaylistSubmit => rename_playlist_submit_effect(pre, post) && quiet(cmds),
        TuiCursorEvent::ConfirmDeleteType(c) => name_input_type_effect(pre, post, NameModal::Delete, c) && quiet(cmds),
        TuiCursorEvent::ConfirmDeleteBackspace => name_input_backspace_effect(pre, post, NameModal::Delete) && quiet(cmds),
        TuiCursorEvent::ConfirmDeleteSubmit { confirmed } => confirm_delete_submit_effect(pre, post, confirmed) && quiet(
            cmds,
        ),
        TuiCursorEvent::PlaylistActionCursorUp => playlist_action_cursor_up_effect(pre, post) && quiet(cmds),
        TuiCursorEvent::PlaylistActionCursorDown => playlist_action_cursor_down_effect(pre, post) && quiet(cmds),
        TuiCursorEvent::PlaylistActionSubmit => playlist_action_submit_effect(pre, post) && quiet(cmds),
        TuiCursorEvent::PlaylistActionRename => playlist_action_rename_effect(pre, post) && quiet(cmds),
        TuiCursorEvent::PlaylistActionDelete => playlist_action_delete_effect(pre, post) && quiet(cmds),
        TuiCursorEvent::PlaylistPickerCursorUp => playlist_picker_cursor_up_effect(pre, post) && quiet(cmds),
        TuiCursorEvent::PlaylistPickerCursorDown => playlist_picker_cursor_down_effect(pre, post) && quiet(cmds),
        TuiCursorEvent::PlaylistPickerSubmit => playlist_picker_submit_effect(pre, post) && quiet(cmds),
        TuiCursorEvent::ConfirmRemoveSubmit => confirm_remove_submit_effect(pre, post) && quiet(cmds),
        TuiCursorEvent::SelectionActionCursorUp => selection_action_cursor_up_effect(pre, post) && quiet(cmds),
        TuiCursorEvent::SelectionActionCursorDown => selection_action_cursor_down_effect(pre, post) && quiet(cmds),
        TuiCursorEvent::SelectionActionApply(c) => bulk_applied(pre, post, c) && quiet(cmds),
        TuiCursorEvent::ServerLostGiveUp => exists|c: Option<LinkCmd>| {
            &&& #[trigger] server_lost_give_up_effect(pre, post, c)
            &&& match c {
                Some(l) => only_cmd(cmds, DriverCmd::Link(l)),
                None => quiet(cmds),
            }
        },
        TuiCursorEvent::SelectionAdd => selection_add_effect(pre, post) && quiet(cmds),
        TuiCursorEvent::SelectionRemove => selection_remove_effect(pre, post) && quiet(cmds),
        TuiCursorEvent::SelectionToggleAnchor => selection_toggle_anchor_effect(pre, post) && quiet(cmds),
        TuiCursorEvent::SelectionMoveUp => selection_move_up_effect(pre, post) && quiet(cmds),
        TuiCursorEvent::SelectionMoveDown => selection_move_down_effect(pre, post) && quiet(cmds),
        TuiCursorEvent::SelectionPlayReset => selection_play_reset_effect(pre, post) && quiet(cmds),
        TuiCursorEvent::SelectionOpenModal => post == (Sources { screen: Screen::SelectionActionModal { selected: 0 }, ..pre })
            && quiet(cmds),
        TuiCursorEvent::SelectionClear => post.selection.is_reset() && post.selection.wf() && post == (Sources {
            selection: post.selection,
            ..pre
        }) && quiet(cmds),
        TuiCursorEvent::PickerCursorUp => picker_cursor_up_effect(pre, post) && quiet(cmds),
        TuiCursorEvent::PickerCursorDown => picker_cursor_down_effect(pre, post) && quiet(cmds),
        TuiCursorEvent::PickerConnect => picker_connect_effect(pre, post) && quiet(cmds),
        TuiCursorEvent::ServerPickerModalCursorUp => server_picker_modal_cursor_up_effect(pre, post) && quiet(cmds),
        TuiCursorEvent::ServerPickerModalCursorDown => server_picker_modal_cursor_down_effect(pre, post) && quiet(cmds),
        TuiCursorEvent::ServerPickerModalSelect => exists|c: Option<LinkCmd>| {
            &&& #[trigger] server_picker_modal_select_effect(pre, post, c)
            &&& match c {
                Some(l) => only_cmd(cmds, DriverCmd::Link(l)),
                None => quiet(cmds),
            }
        },
        TuiCursorEvent::LeftCursorUp => left_cursor_up_effect(pre, post) && quiet(cmds),
        TuiCursorEvent::LeftCursorDown => left_cursor_down_effect(pre, post) && quiet(cmds),
        TuiCursorEvent::LeftActivate => left_activated(pre, post) && quiet(cmds),
        TuiCursorEvent::LeftOpenAction => left_open_action_effect(pre, post) && quiet(cmds),
        TuiCursorEvent::LeftTogglePlayPause => toggle_play_pause_effect(pre, post) && quiet(cmds),
        TuiCursorEvent::MiddleCursorUp => middle_cursor_up_effect(pre, post) && quiet(cmds),
        TuiCursorEvent::MiddleCursorDown => middle_cursor_down_effect(pre, post) && quiet(cmds),
        TuiCursorEvent::MiddleActivate => middle_activated(pre, post) && quiet(cmds),
        TuiCursorEvent::MiddleOpenAction => middle_open_action_effect(pre, post) && quiet(cmds),
        TuiCursorEvent::MiddleOpenActionX => middle_open_action_effect(pre, post) && quiet(cmds),
        TuiCursorEvent::MiddleTogglePlayPause => toggle_play_pause_effect(pre, post) && quiet(cmds),
        TuiCursorEvent::QueueCursorUp => queue_cursor_up_effect(pre, post) && quiet(cmds),
        TuiCursorEvent::QueueCursorDown => queue_cursor_down_effect(pre, post) && quiet(cmds),
        TuiCursorEvent::QueueActivate => queue_activate_effect(pre, post) && quiet(cmds),
        TuiCursorEvent::QueueOpenAction => queue_open_action_effect(pre, post) && quiet(cmds),
        TuiCursorEvent::QueueOpenActionX => queue_open_action_effect(pre, post) && quiet(cmds),
        TuiCursorEvent::QueueTogglePlayPause => toggle_play_pause_effect(pre, post) && quiet(cmds),
        TuiCursorEvent::CycleFocusForward => cycle_focus_forward_effect(pre, post) && quiet(cmds),
        TuiCursorEvent::CycleFocusBackward => cycle_focus_backward_effect(pre, post) && quiet(cmds),
        TuiCursorEvent::HistoryBack => quiet(cmds) && if pre.history.back@.len() > 0 {
            stepped_back(pre, post)
        } else {
            post == pre
        },
        TuiCursorEvent::HistoryForward => quiet(cmds) && if pre.history.forward@.len() > 0 {
            stepped_forward(pre, post)
        } else {
            post == pre
        },
        TuiCursorEvent::OpenSearchInput => exists|c: Option<PersistCmd>| {
            &&& #[trigger] open_search_input_effect(pre, post, c)
            &&& match c {
                Some(p) => only_cmd(cmds, DriverCmd::Persist(p)),
                None => quiet(cmds),
            }
        },
        TuiCursorEvent::OpenHelpOverlay => post == (Sources { screen: Screen::HelpOverlay { scroll: 0 }, ..pre }) && quiet(
            cmds,
        ),
        TuiCursorEvent::OpenFilterInputForFocused => open_filter_input_for_focused_effect(pre, post) && quiet(cmds),
        TuiCursorEvent::ToggleSelectionForFocused => toggle_selection_for_focused_effect(pre, post) && quiet(cmds),
        TuiCursorEvent::JumpTopFocused => jump_focused_effect(pre, post, JumpTarget::Top) && quiet(cmds),
        TuiCursorEvent::JumpBottomFocused => jump_focused_effect(pre, post, JumpTarget::Bottom) && quiet(cmds),
        TuiCursorEvent::PageUpFocused => page_focused_effect(pre, post, PageStep::Up) && quiet(cmds),
        TuiCursorEvent::PageDownFocused => page_focused_effect(pre, post, PageStep::Down) && quiet(cmds),
        TuiCursorEvent::ShuffleActivateFocused => shuffle_activate_focused_effect(pre, post) && quiet(cmds),
        TuiCursorEvent::OpenActionMenuOrCycle => open_action_menu_or_cycle_effect(pre, post) && quiet(cmds),
        TuiCursorEvent::ClearFocusedFilter => clear_focused_filter_effect(pre, post) && quiet(cmds),
        TuiCursorEvent::OpenKeybindingsEditor => crate::keybindings_editor::open_keybindings_editor_effect(pre, post)
            && quiet(cmds),
        TuiCursorEvent::CloseKeybindingsEditor => crate::keybindings_editor::close_keybindings_editor_effect(pre, post)
            && quiet(cmds),
        TuiCursorEvent::KeybindingsEditorType(c) => crate::keybindings_editor::in_editor(
            pre,
            post,
            |a: crate::state::keybindings::KeybindingsEditorState, b: crate::state::keybindings::KeybindingsEditorState|
                crate::keybindings_editor::editor_typed(a, b, c),
        ) && quiet(cmds),
        TuiCursorEvent::KeybindingsEditorSelect(action) => crate::keybindings_editor::in_editor(
            pre,
            post,
            |a: crate::state::keybindings::KeybindingsEditorState, b: crate::state::keybindings::KeybindingsEditorState|
                crate::keybindings_editor::editor_selected(a, b, action),
        ) && quiet(cmds),
        TuiCursorEvent::KeybindingsEditorBind(key) => crate::keybindings_editor::in_editor(
            pre,
            post,
            |a: crate::state::keybindings::KeybindingsEditorState, b: crate::state::keybindings::KeybindingsEditorState|
                crate::keybindings_editor::editor_bound(a, b, key),
        ) && quiet(cmds),
        TuiCursorEvent::KeybindingsEditorSave => post == pre && match pre.screen {
            Screen::KeybindingsEditor(st) => {
                &&& cmds.len() == 1
                &&& cmds[0] matches DriverCmd::Persist(PersistCmd::SaveKeybindings { keybindings })
                    && keybindings.model() == st.draft.model()
            },
            _ => quiet(cmds),
        },
    }
}

/// Route a key-level event to its handler.
pub fn dispatch_cursor(ev: TuiCursorEvent, sources: &mut Sources) -> (cmds: Vec<DriverCmd>)
    requires
        old(sources).selection.wf(),
    ensures
        cursor_step(*old(sources), *final(sources), ev, cmds@),
        final(sources).selection.wf(),
{
    match ev {
        TuiCursorEvent::CloseModal => sources.screen = Screen::NowPlaying,
        TuiCursorEvent::ActionModalCursorUp { menu_len } => action_modal_cursor_up(sources, menu_len),
        TuiCursorEvent::ActionModalCursorDown { menu_len } => action_modal_cursor_down(sources, menu_len),
        TuiCursorEvent::ApplyActionChoice { choice, offered } => apply_action_choice(sources, choice, offered),
        TuiCursorEvent::HelpScroll(delta) => help_scroll(sources, delta),
        TuiCursorEvent::HelpScrollHome => help_scroll_home(sources),
        TuiCursorEvent::FilterInputType(c) => filter_input_type(sources, c),
        TuiCursorEvent::FilterInputBackspace => filter_input_backspace(sources),
        TuiCursorEvent::FilterInputCancel => filter_input_cancel(sources),
        TuiCursorEvent::FilterInputSubmit => filter_input_submit(sources),
        TuiCursorEvent::SearchHistoryUp => search_history_up(sources),
        TuiCursorEvent::SearchHistoryDown => search_history_down(sources),
        TuiCursorEvent::SearchInputType(c) => search_input_type(sources, c),
        TuiCursorEvent::SearchInputBackspace => search_input_backspace(sources),
        TuiCursorEvent::SearchCycleType { forward } => search_cycle_type(sources, forward),
        TuiCursorEvent::SearchEditFromHistory => search_edit_from_history(sources),
        TuiCursorEvent::SearchSubmit => search_submit(sources),
        TuiCursorEvent::CreatePlaylistType(c) => name_input_type(sources, NameModal::Create, c),
        TuiCursorEvent::CreatePlaylistBackspace => name_input_backspace(sources, NameModal::Create),
        TuiCursorEvent::CreatePlaylistSubmit => create_playlist_submit(sources),
        TuiCursorEvent::RenamePlaylistType(c) => name_input_type(sources, NameModal::Rename, c),
        TuiCursorEvent::RenamePlaylistBackspace => name_input_backspace(sources, NameModal::Rename),
        TuiCursorEvent::RenamePlaylistSubmit => rename_playlist_submit(sources),
        TuiCursorEvent::ConfirmDeleteType(c) => name_input_type(sources, NameModal::Delete, c),
        TuiCursorEvent::ConfirmDeleteBackspace => name_input_backspace(sources, NameModal::Delete),
        TuiCursorEvent::ConfirmDeleteSubmit { confirmed } => confirm_delete_submit(sources, confirmed),
        TuiCursorEvent::PlaylistActionCursorUp => playlist_action_cursor_up(sources),
        TuiCursorEvent::PlaylistActionCursorDown => playlist_action_cursor_down(sources),
        TuiCursorEvent::PlaylistActionSubmit => playlist_action_submit(sources),
        TuiCursorEvent::PlaylistActionRename => playlist_action_rename(sources),
        TuiCursorEvent::PlaylistActionDelete => playlist_action_delete(sources),
        TuiCursorEvent::PlaylistPickerCursorUp => playlist_picker_cursor_up(sources),
        TuiCursorEvent::PlaylistPickerCursorDown => playlist_picker_cursor_down(sources),
        TuiCursorEvent::PlaylistPickerSubmit => playlist_picker_submit(sources),
        TuiCursorEvent::ConfirmRemoveSubmit => confirm_remove_submit(sources),
        TuiCursorEvent::SelectionActionCursorUp => selection_action_cursor_up(sources),
        TuiCursorEvent::SelectionActionCursorDown => selection_action_cursor_down(sources),
        TuiCursorEvent::SelectionActionApply(c) => selection_action_apply(sources, c),
        TuiCursorEvent::ServerLostGiveUp => {
            let c = server_lost_give_up(sources);
            return link_cmds(c);
        },
        TuiCursorEvent::SelectionAdd => selection_add(sources),
        TuiCursorEvent::SelectionRemove => selection_remove(sources),
        TuiCursorEvent::SelectionToggleAnchor => selection_toggle_anchor(sources),
        TuiCursorEvent::SelectionMoveUp => selection_move_up(sources),
        TuiCursorEvent::SelectionMoveDown => selection_move_down(sources),
        TuiCursorEvent::SelectionPlayReset => selection_play_reset(sources),
        TuiCursorEvent::SelectionOpenModal => sources.screen = Screen::SelectionActionModal { selected: 0 },
        TuiCursorEvent::SelectionClear => sources.selection.clear(),
        TuiCursorEvent::PickerCursorUp => picker_cursor_up(sources),
        TuiCursorEvent::PickerCursorDown => picker_cursor_down(sources),
        TuiCursorEvent::PickerConnect => picker_connect(sources),
        TuiCursorEvent::ServerPickerModalCursorUp => server_picker_modal_cursor_up(sources),
        TuiCursorEvent::ServerPickerModalCursorDown => server_picker_modal_cursor_down(sources),
        TuiCursorEvent::ServerPickerModalSelect => {
            let c = server_picker_modal_select(sources);
            return link_cmds(c);
        },
        TuiCursorEvent::LeftCursorUp => left_cursor_up(sources),
        TuiCursorEvent::LeftCursorDown => left_cursor_down(sources),
        TuiCursorEvent::LeftActivate => left_activate(sources),
        TuiCursorEvent::LeftOpenAction => left_open_action(sources),
        TuiCursorEvent::LeftTogglePlayPause => toggle_play_pause(sources),
        TuiCursorEvent::MiddleCursorUp => middle_cursor_up(sources),
        TuiCursorEvent::MiddleCursorDown => middle_cursor_down(sources),
        TuiCursorEvent::MiddleActivate => middle_activate(sources),
        TuiCursorEvent::MiddleOpenAction => middle_open_action(sources),
        TuiCursorEvent::MiddleOpenActionX => middle_open_action(sources),
        TuiCursorEvent::MiddleTogglePlayPause => toggle_play_pause(sources),
        TuiCursorEvent::QueueCursorUp => queue_cursor_up(sources),
        TuiCursorEvent::QueueCursorDown => queue_cursor_down(sources),
        TuiCursorEvent::QueueActivate => queue_activate(sources),
        TuiCursorEvent::QueueOpenAction => queue_open_action(sources),
        TuiCursorEvent::QueueOpenActionX => queue_open_action(sources),
        TuiCursorEvent::QueueTogglePlayPause => toggle_play_pause(sources),
        TuiCursorEvent::CycleFocusForward => cycle_focus_forward(sources),
        TuiCursorEvent::CycleFocusBackward => cycle_focus_backward(sources),
        TuiCursorEvent::HistoryBack => {
            history_back(sources);
        },
        TuiCursorEvent::HistoryForward => {
            history_forward(sources);
        },
        TuiCursorEvent::OpenSearchInput => {
            let c = open_search_input(sources);
            return persist_cmds(c);
        },
        TuiCursorEvent::OpenHelpOverlay => sources.screen = Screen::HelpOverlay { scroll: 0 },
        TuiCursorEvent::OpenFilterInputForFocused => open_filter_input_for_focused(sources),
        TuiCursorEvent::ToggleSelectionForFocused => toggle_selection_for_focused(sources),
        TuiCursorEvent::JumpTopFocused => jump_focused(sources, JumpTarget::Top),
        TuiCursorEvent::JumpBottomFocused => jump_focused(sources, JumpTarget::Bottom),
        TuiCursorEvent::PageUpFocused => page_focused(sources, PageStep::Up),
        TuiCursorEvent::PageDownFocused => page_focused(sources, PageStep::Down),
        TuiCursorEvent::ShuffleActivateFocused => shuffle_activate_focused(sources),
        TuiCursorEvent::OpenActionMenuOrCycle => open_action_menu_or_cycle(sources),
        TuiCursorEvent::ClearFocusedFilter => clear_focused_filter(sources),
        TuiCursorEvent::OpenKeybindingsEditor => crate::keybindings_editor::open_keybindings_editor(sources),
        TuiCursorEvent::CloseKeybindingsEditor => crate::keybindings_editor::close_keybindings_editor(sources),
        TuiCursorEvent::KeybindingsEditorType(c) => crate::keybindings_editor::keybindings_editor_type(sources, c),
        TuiCursorEvent::KeybindingsEditorSelect(action) => crate::keybindings_editor::keybindings_editor_select(
            sources,
            action,
        ),
        TuiCursorEvent::KeybindingsEditorBind(key) => crate::keybindings_editor::keybindings_editor_bind(sources, key),
        TuiCursorEvent::KeybindingsEditorSave => {
            let c = crate::keybindings_editor::keybindings_editor_save(sources);
            return persist_cmds(c);
        },
    }
    Vec::new()
}

/// Either kind of event.
pub enum DispatchEvent {
    Semantic(SemanticEvent),
    Cursor(TuiCursorEvent),
}

/// Route any event to its handler.
pub fn dispatch(ev: DispatchEvent, sources: &mut Sources) -> (cmds: Vec<DriverCmd>)
    requires
        old(sources).selection.wf(),
    ensures
        match ev {
            DispatchEvent::Semantic(e) => semantic_step(*old(sources), *final(sources), e, cmds@),
            DispatchEvent::Cursor(e) => cursor_step(*old(sources), *final(sources), e, cmds@),
        },
        final(sources).selection.wf(),
{
    match ev {
        DispatchEvent::Semantic(e) => dispatch_semantic(e, sources),
        DispatchEvent::Cursor(e) => dispatch_cursor(e, sources),
    }
}

} // verus!
