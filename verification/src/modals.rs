//! The text and choice modals: help scrolling, the live filter, the
//! search box, playlist create / rename / delete, the add-to-playlist
//! picker and the remove confirmation.

use vstd::prelude::*;
use crate::dispatch::{drilled, history_drill, request_load_search_history, load_step};
use crate::persist::{LoadKeyModel, PersistCmd};
use crate::proto::{search_type_next, search_type_of_text, search_type_prev, ClientMsg, SearchType};
use crate::queries::parse_search_type;
use crate::state::history::MiddleMode;
use crate::state::requests::{next_id, queued};
use crate::state::server::PendingOp;
use crate::state::sources::Sources;
use crate::state::ui::{
    ActionKind, FilterState, FilterTarget, ItemKind, PendingCreateAdd, Screen, SearchState, UiFilter, UiPicker,
};
use crate::text::{pop_char, push_char, text_eq, trim_text, trimmed};

verus! {

/// `s` with the screen replaced.
pub open spec fn on_screen(s: Sources, screen: Screen) -> Sources {
    Sources { screen, ..s }
}

// ---------------------------------------------------------------------
// Help overlay
// ---------------------------------------------------------------------

/// A scroll offset moved by `delta` rows (the magnitude taken modulo
/// 2^16), stopping at both ends.
pub open spec fn scrolled(scroll: u16, delta: i32) -> u16 {
    if delta > 0 {
        let d = delta as u16;
        if scroll + d > u16::MAX { u16::MAX } else { (scroll + d) as u16 }
    } else {
        let d = ((0 - delta) as u32) as u16;
        if scroll >= d { (scroll - d) as u16 } else { 0 }
    }
}

/// What `help_scroll` does to the sources.
pub open spec fn help_scroll_effect(pre: Sources, post: Sources, delta: i32) -> bool {
    &&& (pre.screen matches Screen::HelpOverlay { scroll } ==> post == on_screen(
        pre,
        Screen::HelpOverlay { scroll: scrolled(scroll, delta) },
    ))
    &&& (!(pre.screen is HelpOverlay) ==> post == pre)
}

pub fn help_scroll(sources: &mut Sources, delta: i32)
    ensures
        help_scroll_effect(*old(sources), *final(sources), delta),
{
    if let Screen::HelpOverlay { scroll } = sources.screen {
        let next = if delta > 0 {
            scroll.saturating_add(delta as u16)
        } else {
            let mag = (0i64 - delta as i64) as u32;
            scroll.saturating_sub(mag as u16)
        };
        sources.screen = Screen::HelpOverlay { scroll: next };
    }
}

/// What `help_scroll_home` does to the sources.
pub open spec fn help_scroll_home_effect(pre: Sources, post: Sources) -> bool {
    &&& (pre.screen is HelpOverlay ==> post == on_screen(pre, Screen::HelpOverlay { scroll: 0 }))
    &&& (!(pre.screen is HelpOverlay) ==> post == pre)
}

pub fn help_scroll_home(sources: &mut Sources)
    ensures
        help_scroll_home_effect(*old(sources), *final(sources)),
{
    if let Screen::HelpOverlay { .. } = sources.screen {
        sources.screen = Screen::HelpOverlay { scroll: 0 };
    }
}

// ---------------------------------------------------------------------
// Filter input (applied live)
// ---------------------------------------------------------------------

/// `f` with pane `target`'s filter set to `text`.
pub open spec fn filter_set(f: UiFilter, target: FilterTarget, text: String) -> UiFilter {
    match target {
        FilterTarget::Middle => UiFilter { middle: text, ..f },
        FilterTarget::Queue => UiFilter { queue: text, ..f },
    }
}

pub fn set_pane_filter(sources: &mut Sources, target: FilterTarget, text: String)
    ensures
        *final(sources) == (Sources { filter: filter_set(old(sources).filter, target, text), ..*old(sources) }),
{
    match target {
        FilterTarget::Middle => sources.filter.middle = text,
        FilterTarget::Queue => sources.filter.queue = text,
    }
}

/// The filter modal's text edited to `input`: the modal shows it and
/// the pane's filter follows it.
pub open spec fn filter_edited(pre: Sources, post: Sources, input: Seq<char>) -> bool {
    match pre.screen {
        Screen::FilterInput(st) => {
            &&& post.screen matches Screen::FilterInput(nst) && nst.target == st.target && nst.input@ == input
            &&& post == (Sources {
                screen: post.screen,
                filter: filter_set(pre.filter, st.target, post.screen->FilterInput_0.input),
                ..pre
            })
        },
        _ => post == pre,
    }
}

/// What `filter_input_type` does to the sources.
pub open spec fn filter_input_type_effect(pre: Sources, post: Sources, c: char) -> bool {
    &&& (filter_edited(pre, post, match pre.screen {
        Screen::FilterInput(st) => st.input@.push(c),
        _ => Seq::empty(),
    }))
}

pub fn filter_input_type(sources: &mut Sources, c: char)
    ensures
        filter_input_type_effect(*old(sources), *final(sources), c),
{
    let (target, text) = match &mut sources.screen {
        Screen::FilterInput(st) => {
            push_char(&mut st.input, c);
            (st.target, st.input.clone())
        },
        _ => return,
    };
    set_pane_filter(sources, target, text);
}

/// `s` without its last character (unchanged when empty).
pub open spec fn popped(s: Seq<char>) -> Seq<char> {
    if s.len() > 0 { s.drop_last() } else { s }
}

/// What `filter_input_backspace` does to the sources.
pub open spec fn filter_input_backspace_effect(pre: Sources, post: Sources) -> bool {
    &&& (filter_edited(pre, post, match pre.screen {
        Screen::FilterInput(st) => popped(st.input@),
        _ => Seq::empty(),
    }))
}

pub fn filter_input_backspace(sources: &mut Sources)
    ensures
        filter_input_backspace_effect(*old(sources), *final(sources)),
{
    let (target, text) = match &mut sources.screen {
        Screen::FilterInput(st) => {
            pop_char(&mut st.input);
            (st.target, st.input.clone())
        },
        _ => return,
    };
    set_pane_filter(sources, target, text);
}

/// What `filter_input_cancel` does to the sources.
pub open spec fn filter_input_cancel_effect(pre: Sources, post: Sources) -> bool {
    &&& (pre.screen matches Screen::FilterInput(st) ==> {
        &&& post.screen is NowPlaying
        &&& post.filter == filter_set(pre.filter, st.target, post.filter.middle)
            || post.filter == filter_set(pre.filter, st.target, post.filter.queue)
        &&& st.target == FilterTarget::Middle ==> post.filter.middle@.len() == 0
            && post.filter == filter_set(pre.filter, st.target, post.filter.middle)
        &&& st.target == FilterTarget::Queue ==> post.filter.queue@.len() == 0
            && post.filter == filter_set(pre.filter, st.target, post.filter.queue)
        &&& post == (Sources { screen: post.screen, filter: post.filter, ..pre })
    })
    &&& (!(pre.screen is FilterInput) ==> post == pre)
}

/// Esc: clear the pane's filter and close the modal.
pub fn filter_input_cancel(sources: &mut Sources)
    ensures
        filter_input_cancel_effect(*old(sources), *final(sources)),
{
    let target = match &sources.screen {
        Screen::FilterInput(st) => st.target,
        _ => return,
    };
    set_pane_filter(sources, target, String::new());
    sources.screen = Screen::NowPlaying;
}

/// What `filter_input_submit` does to the sources.
pub open spec fn filter_input_submit_effect(pre: Sources, post: Sources) -> bool {
    &&& (pre.screen matches Screen::FilterInput(st) ==> post == (Sources {
        screen: Screen::NowPlaying,
        filter: filter_set(pre.filter, st.target, st.input),
        ..pre
    }))
    &&& (!(pre.screen is FilterInput) ==> post == pre)
}

/// Enter: keep the typed filter and close the modal.
pub fn filter_input_submit(sources: &mut Sources)
    ensures
        filter_input_submit_effect(*old(sources), *final(sources)),
{
    let (target, text) = match &sources.screen {
        Screen::FilterInput(st) => (st.target, st.input.clone()),
        _ => return,
    };
    set_pane_filter(sources, target, text);
    sources.screen = Screen::NowPlaying;
}

// ---------------------------------------------------------------------
// Search input
// ---------------------------------------------------------------------

/// `s` with the search modal's state replaced by `st`.
pub open spec fn with_search(s: Sources, st: SearchState) -> Sources {
    on_screen(s, Screen::SearchInput(st))
}

/// Up in the recent-search list: from the top row back to the input
/// field.
pub open spec fn history_up(sel: Option<usize>) -> Option<usize> {
    match sel {
        None => None,
        Some(i) => if i == 0 { None } else { Some((i - 1) as usize) },
    }
}

/// Down in a recent-search list of `n` rows: from the input field to
/// the top row, stopping at the last row.
pub open spec fn history_down(sel: Option<usize>, n: int) -> Option<usize> {
    match sel {
        None => Some(0),
        Some(i) => if i + 1 < n { Some((i + 1) as usize) } else { Some(i) },
    }
}

/// What `search_history_up` does to the sources.
pub open spec fn search_history_up_effect(pre: Sources, post: Sources) -> bool {
    &&& (pre.screen matches Screen::SearchInput(st) ==> (st.history@.len() > 0 ==> post == with_search(
        pre,
        SearchState { history_selected: history_up(st.history_selected), ..st },
    )))
    &&& (!(pre.screen matches Screen::SearchInput(st) && st.history@.len() > 0) ==> post
        == pre)
}

pub fn search_history_up(sources: &mut Sources)
    ensures
        search_history_up_effect(*old(sources), *final(sources)),
{
    if let Screen::SearchInput(st) = &mut sources.screen {
        if st.history.len() == 0 {
            return;
        }
        st.history_selected = match st.history_selected {
            None => None,
            Some(i) => if i == 0 { None } else { Some(i - 1) },
        };
    }
}

/// What `search_history_down` does to the sources.
pub open spec fn search_history_down_effect(pre: Sources, post: Sources) -> bool {
    &&& (pre.screen matches Screen::SearchInput(st) ==> (st.history@.len() > 0 ==> post == with_search(
        pre,
        SearchState { history_selected: history_down(st.history_selected, st.history@.len() as int), ..st },
    )))
    &&& (!(pre.screen matches Screen::SearchInput(st) && st.history@.len() > 0) ==> post
        == pre)
}

pub fn search_history_down(sources: &mut Sources)
    ensures
        search_history_down_effect(*old(sources), *final(sources)),
{
    if let Screen::SearchInput(st) = &mut sources.screen {
        let n = st.history.len();
        if n == 0 {
            return;
        }
        st.history_selected = match st.history_selected {
            None => Some(0),
            Some(i) => if i < n - 1 { Some(i + 1) } else { Some(i) },
        };
    }
}

/// The search field edited to `input`; the recent-search highlight
/// goes back to the field.
pub open spec fn search_edited(pre: Sources, post: Sources, input: Seq<char>) -> bool {
    match pre.screen {
        Screen::SearchInput(st) => {
            &&& post.screen matches Screen::SearchInput(nst) && nst.input@ == input && nst.last_type == st.last_type
                && nst.history == st.history && nst.history_selected is None
            &&& post == on_screen(pre, post.screen)
        },
        _ => post == pre,
    }
}

/// What `search_input_type` does to the sources.
pub open spec fn search_input_type_effect(pre: Sources, post: Sources, c: char) -> bool {
    &&& (search_edited(pre, post, match pre.screen {
        Screen::SearchInput(st) => st.input@.push(c),
        _ => Seq::empty(),
    }))
}

pub fn search_input_type(sources: &mut Sources, c: char)
    ensures
        search_input_type_effect(*old(sources), *final(sources), c),
{
    if let Screen::SearchInput(st) = &mut sources.screen {
        push_char(&mut st.input, c);
        st.history_selected = None;
    }
}

/// What `search_input_backspace` does to the sources.
pub open spec fn search_input_backspace_effect(pre: Sources, post: Sources) -> bool {
    &&& (search_edited(pre, post, match pre.screen {
        Screen::SearchInput(st) => popped(st.input@),
        _ => Seq::empty(),
    }))
}

pub fn search_input_backspace(sources: &mut Sources)
    ensures
        search_input_backspace_effect(*old(sources), *final(sources)),
{
    if let Screen::SearchInput(st) = &mut sources.screen {
        pop_char(&mut st.input);
        st.history_selected = None;
    }
}

/// What `search_cycle_type` does to the sources.
pub open spec fn search_cycle_type_effect(pre: Sources, post: Sources, forward: bool) -> bool {
    &&& (pre.screen matches Screen::SearchInput(st) ==> post == with_search(
        pre,
        SearchState {
            last_type: if forward { search_type_next(st.last_type) } else { search_type_prev(st.last_type) },
            ..st
        },
    ))
    &&& (!(pre.screen is SearchInput) ==> post == pre)
}

/// Cycle the search kind forward or back.
pub fn search_cycle_type(sources: &mut Sources, forward: bool)
    ensures
        search_cycle_type_effect(*old(sources), *final(sources), forward),
{
    if let Screen::SearchInput(st) = &mut sources.screen {
        st.last_type = if forward {
            match st.last_type {
                SearchType::Song => SearchType::Album,
                SearchType::Album => SearchType::Artist,
                SearchType::Artist => SearchType::Song,
            }
        } else {
            match st.last_type {
                SearchType::Song => SearchType::Artist,
                SearchType::Album => SearchType::Song,
                SearchType::Artist => SearchType::Album,
            }
        };
    }
}

/// What `search_edit_from_history` does to the sources.
pub open spec fn search_edit_from_history_effect(pre: Sources, post: Sources) -> bool {
    &&& (pre.screen matches Screen::SearchInput(st) ==> post == with_search(
        pre,
        match st.history_selected {
            Some(i) => if (i as int) < st.history@.len() {
                SearchState {
                    input: st.history@[i as int].query,
                    last_type: search_type_of_text(st.history@[i as int].search_type@),
                    history_selected: None,
                    ..st
                }
            } else {
                SearchState { history_selected: None, ..st }
            },
            None => SearchState { history_selected: None, ..st },
        },
    ))
    &&& (!(pre.screen is SearchInput) ==> post == pre)
}

/// `e` on a recent-search row: bring its query and kind into the field
/// for editing; the highlight goes back to the field.
pub fn search_edit_from_history(sources: &mut Sources)
    ensures
        search_edit_from_history_effect(*old(sources), *final(sources)),
{
    if let Screen::SearchInput(st) = &mut sources.screen {
        if let Some(i) = st.history_selected {
            if i < st.history.len() {
                let q = st.history[i].query.clone();
                let t = parse_search_type(st.history[i].search_type.as_str());
                st.input = q;
                st.last_type = t;
            }
        }
        st.history_selected = None;
    }
}

/// The query Enter runs from the search modal: the highlighted recent
/// search as stored, or else the trimmed field with the chosen kind.
pub open spec fn submitted_query(st: SearchState) -> (Seq<char>, SearchType) {
    match st.history_selected {
        Some(i) => if (i as int) < st.history@.len() {
            (st.history@[i as int].query@, search_type_of_text(st.history@[i as int].search_type@))
        } else {
            (trimmed(st.input@), st.last_type)
        },
        None => (trimmed(st.input@), st.last_type),
    }
}

/// What `search_submit` does to the sources.
pub open spec fn search_submit_effect(pre: Sources, post: Sources) -> bool {
    &&& (pre.screen matches Screen::SearchInput(st) ==> {
        let (term, kind) = submitted_query(st);
        let pre = pre;
        let post = post;
        &&& post.screen is NowPlaying
        &&& if term.len() == 0 {
            post == on_screen(pre, Screen::NowPlaying)
        } else {
            let t = next_id(pre.requests.last_task);
            let mid = Sources { requests: post.requests, search: post.search, ..pre };
            &&& post.requests.pending@ == pre.requests.pending@.push(post.requests.pending@.last())
            &&& post.requests.pending@.last().seq == next_id(pre.requests.last_seq)
            &&& post.requests.pending@.last().task_id == Some(t)
            &&& post.requests.pending@.last().msg matches ClientMsg::Search { term: q, search_type }
                && q@ == term && search_type == kind
            &&& post.requests.last_seq == next_id(pre.requests.last_seq)
            &&& post.requests.last_task == t
            &&& post.search.term@ == term && post.search.search_type == kind && post.search.task_id == Some(t)
            &&& post.search.songs@.len() == 0 && post.search.albums@.len() == 0 && post.search.artists@.len() == 0
            &&& !post.search.first_page_received && !post.search.empty_reopen_done && !post.search.stale
            &&& post.history.mode matches MiddleMode::SearchResults { term: q, search_type, task_id }
                && q@ == term && search_type == kind && task_id == Some(t)
            &&& drilled(mid, on_screen(post, pre.screen), post.history.mode)
        }
    })
    &&& (!(pre.screen is SearchInput) ==> post == pre)
}

/// Enter on the search modal: a non-empty query starts a search task,
/// sends it, and drills the middle pane into its results; the modal
/// closes either way.
pub fn search_submit(sources: &mut Sources)
    ensures
        search_submit_effect(*old(sources), *final(sources)),
{
    let (term, kind) = match &sources.screen {
        Screen::SearchInput(st) => {
            let picked = match st.history_selected {
                Some(i) => if i < st.history.len() {
                    Some((st.history[i].query.clone(), parse_search_type(st.history[i].search_type.as_str())))
                } else {
                    None
                },
                None => None,
            };
            match picked {
                Some(p) => p,
                None => (trim_text(st.input.as_str()), st.last_type),
            }
        },
        _ => return,
    };
    if !term.as_str().is_empty() {
        let task_id = sources.requests.alloc_task_id();
        sources.search.begin(task_id, term.clone(), kind);
        sources.requests.push(ClientMsg::Search { term: term.clone(), search_type: kind }, Some(task_id));
        history_drill(sources, MiddleMode::SearchResults { term, search_type: kind, task_id: Some(task_id) });
    }
    sources.screen = Screen::NowPlaying;
}

/// What `open_search_input` does to the sources.
pub open spec fn open_search_input_effect(pre: Sources, post: Sources, cmd: Option<PersistCmd>) -> bool {
    &&& (({
        let pre = pre;
        let post = post;
        &&& post.screen matches Screen::SearchInput(st) && st.input@.len() == 0 && st.last_type == SearchType::Song
            && st.history@.len() == 0 && st.history_selected is None
        &&& match pre.session.backend_name {
            Some(b) => {
                &&& load_step(on_screen(pre, post.screen), post, LoadKeyModel::SearchHistory(b@), cmd is Some)
                &&& cmd matches Some(c) ==> (c matches PersistCmd::LoadSearchHistory { backend } && backend@ == b@)
            },
            None => post == on_screen(pre, post.screen) && cmd is None,
        }
    }))
}

/// `S`: open an empty search modal and, when a backend is live, load
/// its recent searches (unless that load is in flight).
pub fn open_search_input(sources: &mut Sources) -> (cmd: Option<PersistCmd>)
    ensures
        open_search_input_effect(*old(sources), *final(sources), cmd),
{
    sources.screen = Screen::SearchInput(
        SearchState { input: String::new(), last_type: SearchType::Song, history: Vec::new(), history_selected: None },
    );
    match &sources.session.backend_name {
        Some(b) => {
            let b = b.clone();
            request_load_search_history(sources, b)
        },
        None => None,
    }
}

// ---------------------------------------------------------------------
// Create / rename / delete a playlist
// ---------------------------------------------------------------------

/// Which name-entry modal an edit is meant for.
#[derive(PartialEq, Eq, Structural, Clone, Copy, Debug)]
pub enum NameModal {
    Create,
    Rename,
    Delete,
}

/// The name field of modal `which`, when it is the one up, edited by
/// `f`; any other screen is left alone.
pub open spec fn name_edited(pre: Sources, post: Sources, which: NameModal, f: spec_fn(Seq<char>) -> Seq<char>) -> bool {
    match pre.screen {
        Screen::CreatePlaylist { input, add_item } if which == NameModal::Create => post.screen matches Screen::CreatePlaylist {
            input: i2,
            add_item: a2,
        } && i2@ == f(input@) && a2 == add_item && post == on_screen(pre, post.screen),
        Screen::RenamePlaylist { id, original, input } if which == NameModal::Rename => post.screen matches Screen::RenamePlaylist {
            id: d2,
            original: o2,
            input: i2,
        } && i2@ == f(input@) && d2 == id && o2 == original && post == on_screen(pre, post.screen),
        Screen::ConfirmDeletePlaylist { id, name, input } if which == NameModal::Delete => post.screen matches Screen::ConfirmDeletePlaylist {
            id: d2,
            name: n2,
            input: i2,
        } && i2@ == f(input@) && d2 == id && n2 == name && post == on_screen(pre, post.screen),
        _ => post == pre,
    }
}

/// What `name_input_type` does to the sources.
pub open spec fn name_input_type_effect(pre: Sources, post: Sources, which: NameModal, c: char) -> bool {
    &&& (name_edited(pre, post, which, |s: Seq<char>| s.push(c)))
}

/// Type `c` into name modal `which`, when it is up.
pub fn name_input_type(sources: &mut Sources, which: NameModal, c: char)
    ensures
        name_input_type_effect(*old(sources), *final(sources), which, c),
{
    match &mut sources.screen {
        Screen::CreatePlaylist { input, .. } => if which == NameModal::Create { push_char(input, c) },
        Screen::RenamePlaylist { input, .. } => if which == NameModal::Rename { push_char(input, c) },
        Screen::ConfirmDeletePlaylist { input, .. } => if which == NameModal::Delete { push_char(input, c) },
        _ => {},
    }
}

/// What `name_input_backspace` does to the sources.
pub open spec fn name_input_backspace_effect(pre: Sources, post: Sources, which: NameModal) -> bool {
    &&& (name_edited(pre, post, which, |s: Seq<char>| popped(s)))
}

/// Delete the last character of name modal `which`, when it is up.
pub fn name_input_backspace(sources: &mut Sources, which: NameModal)
    ensures
        name_input_backspace_effect(*old(sources), *final(sources), which),
{
    match &mut sources.screen {
        Screen::CreatePlaylist { input, .. } => if which == NameModal::Create { pop_char(input) },
        Screen::RenamePlaylist { input, .. } => if which == NameModal::Rename { pop_char(input) },
        Screen::ConfirmDeletePlaylist { input, .. } => if which == NameModal::Delete { pop_char(input) },
        _ => {},
    }
}

/// The kind a deferred add carries for an action row of kind `k`.
pub open spec fn item_kind_of(k: ActionKind) -> ItemKind {
    match k {
        ActionKind::Song => ItemKind::Song,
        ActionKind::Album => ItemKind::Album,
        ActionKind::Artist => ItemKind::Artist,
    }
}

/// What `create_playlist_submit` does to the sources.
pub open spec fn create_playlist_submit_effect(pre: Sources, post: Sources) -> bool {
    &&& (pre.screen matches Screen::CreatePlaylist { input, add_item } ==> {
        let pre = pre;
        let post = post;
        let name = trimmed(input@);
        &&& post.screen is NowPlaying
        &&& if name.len() == 0 {
            post == on_screen(pre, Screen::NowPlaying)
        } else {
            let seq = next_id(pre.requests.last_seq);
            &&& post.requests.pending@ == pre.requests.pending@.push(post.requests.pending@.last())
            &&& post.requests.pending@.last().seq == seq && post.requests.pending@.last().task_id is None
            &&& post.requests.pending@.last().msg matches ClientMsg::CreatePlaylist { name: n } && n@ == name
            &&& post.requests.last_seq == seq && post.requests.last_task == pre.requests.last_task
            &&& post.pending_playlists.creating@ == pre.pending_playlists.creating@.push(
                post.pending_playlists.creating@.last(),
            )
            &&& post.pending_playlists.creating@.last().seq == seq
            &&& post.pending_playlists.creating@.last().detail@ == name
            &&& post.pending_playlists == (crate::state::server::PendingPlaylists {
                creating: post.pending_playlists.creating,
                ..pre.pending_playlists
            })
            &&& match add_item {
                Some(item) => post.picker.pending_create_add matches Some(p) && p.name@ == name && p.item_id == item.id
                    && p.item_kind == item_kind_of(item.kind) && post.picker.last_add_playlist
                    == pre.picker.last_add_playlist,
                None => post.picker == pre.picker,
            }
            &&& post == (Sources {
                screen: post.screen,
                requests: post.requests,
                pending_playlists: post.pending_playlists,
                picker: post.picker,
                ..pre
            })
        }
    })
    &&& (!(pre.screen is CreatePlaylist) ==> post == pre)
}

/// Enter on the create modal: a non-blank name is created (shown as a
/// pending row until the server answers) and, when the modal carries a
/// row to add, that add waits for the new playlist. The modal closes
/// either way.
pub fn create_playlist_submit(sources: &mut Sources)
    ensures
        create_playlist_submit_effect(*old(sources), *final(sources)),
{
    let (name, add) = match &sources.screen {
        Screen::CreatePlaylist { input, add_item } => {
            let add = match add_item {
                Some(item) => Some((item.id.clone(), item.kind)),
                None => None,
            };
            (trim_text(input.as_str()), add)
        },
        _ => return,
    };
    sources.screen = Screen::NowPlaying;
    if name.as_str().is_empty() {
        return;
    }
    let seq = sources.requests.push(ClientMsg::CreatePlaylist { name: name.clone() }, None);
    sources.pending_playlists.add_creating(seq, name.clone());
    if let Some((item_id, kind)) = add {
        let item_kind = match kind {
            ActionKind::Song => ItemKind::Song,
            ActionKind::Album => ItemKind::Album,
            ActionKind::Artist => ItemKind::Artist,
        };
        sources.picker.pending_create_add = Some(PendingCreateAdd { name, item_id, item_kind });
    }
}

/// What `rename_playlist_submit` does to the sources.
pub open spec fn rename_playlist_submit_effect(pre: Sources, post: Sources) -> bool {
    &&& (pre.screen matches Screen::RenamePlaylist { id, original, input } ==> {
        let pre = pre;
        let post = post;
        let name = trimmed(input@);
        &&& post.screen is NowPlaying
        &&& if name.len() == 0 || name == original@ {
            post == on_screen(pre, Screen::NowPlaying)
        } else {
            let seq = next_id(pre.requests.last_seq);
            &&& post.requests.pending@ == pre.requests.pending@.push(post.requests.pending@.last())
            &&& post.requests.pending@.last().seq == seq && post.requests.pending@.last().task_id is None
            &&& post.requests.pending@.last().msg matches ClientMsg::RenamePlaylist { id: i, name: n } && i == id
                && n@ == name
            &&& post.requests.last_seq == seq && post.requests.last_task == pre.requests.last_task
            &&& post.pending_playlists.renaming@ == pre.pending_playlists.renaming@.push(
                post.pending_playlists.renaming@.last(),
            )
            &&& post.pending_playlists.renaming@.last().seq == seq
            &&& post.pending_playlists.renaming@.last().playlist_id == id
            &&& post.pending_playlists.renaming@.last().detail@ == name
            &&& post.pending_playlists == (crate::state::server::PendingPlaylists {
                renaming: post.pending_playlists.renaming,
                ..pre.pending_playlists
            })
            &&& post == (Sources {
                screen: post.screen,
                requests: post.requests,
                pending_playlists: post.pending_playlists,
                ..pre
            })
        }
    })
    &&& (!(pre.screen is RenamePlaylist) ==> post == pre)
}

/// Enter on the rename modal: a non-blank name other than the current
/// one is sent and shown at once as a pending rename. The modal closes
/// either way.
pub fn rename_playlist_submit(sources: &mut Sources)
    ensures
        rename_playlist_submit_effect(*old(sources), *final(sources)),
{
    let (id, name, changed) = match &sources.screen {
        Screen::RenamePlaylist { id, original, input } => {
            let name = trim_text(input.as_str());
            let changed = !name.as_str().is_empty() && !text_eq(&name, original);
            (id.clone(), name, changed)
        },
        _ => return,
    };
    sources.screen = Screen::NowPlaying;
    if changed {
        let seq = sources.requests.push(ClientMsg::RenamePlaylist { id: id.clone(), name: name.clone() }, None);
        sources.pending_playlists.add_renaming(seq, id, name);
    }
}

/// What `confirm_delete_submit` does to the sources.
pub open spec fn confirm_delete_submit_effect(pre: Sources, post: Sources, confirmed: bool) -> bool {
    &&& ((pre.screen matches Screen::ConfirmDeletePlaylist { id, .. } && confirmed) ==> {
        let pre = pre;
        let post = post;
        let id = pre.screen->ConfirmDeletePlaylist_id;
        let seq = next_id(pre.requests.last_seq);
        &&& post.screen is NowPlaying
        &&& queued(pre.requests, post.requests, ClientMsg::DeletePlaylist { id }, None)
        &&& post.pending_playlists.deleting@ == pre.pending_playlists.deleting@.push(
            post.pending_playlists.deleting@.last(),
        )
        &&& post.pending_playlists.deleting@.last().seq == seq
        &&& post.pending_playlists.deleting@.last().playlist_id == id
        &&& post.pending_playlists == (crate::state::server::PendingPlaylists {
            deleting: post.pending_playlists.deleting,
            ..pre.pending_playlists
        })
        &&& post == (Sources {
            screen: post.screen,
            requests: post.requests,
            pending_playlists: post.pending_playlists,
            ..pre
        })
    })
    &&& (!(pre.screen is ConfirmDeletePlaylist && confirmed) ==> post == pre)
}

/// Enter on the delete confirmation: when the typed text confirms the
/// delete (`confirmed`, as the confirmation view answers), the delete
/// is sent and the playlist hidden at once; otherwise nothing happens
/// and the modal stays up.
pub fn confirm_delete_submit(sources: &mut Sources, confirmed: bool)
    ensures
        confirm_delete_submit_effect(*old(sources), *final(sources), confirmed),
{
    if !confirmed {
        return;
    }
    let id = match &sources.screen {
        Screen::ConfirmDeletePlaylist { id, .. } => id.clone(),
        _ => return,
    };
    sources.screen = Screen::NowPlaying;
    let seq = sources.requests.push(ClientMsg::DeletePlaylist { id: id.clone() }, None);
    sources.pending_playlists.add_deleting(seq, id);
}

// ---------------------------------------------------------------------
// Playlist action (rename / delete choice)
// ---------------------------------------------------------------------

/// What `playlist_action_cursor_up` does to the sources.
pub open spec fn playlist_action_cursor_up_effect(pre: Sources, post: Sources) -> bool {
    &&& (pre.screen matches Screen::PlaylistAction { playlist_id, playlist_name, selected } ==> post
        == on_screen(
        pre,
        Screen::PlaylistAction { playlist_id, playlist_name, selected: if selected == 0 { 1 } else { 0 } },
    ))
    &&& (!(pre.screen is PlaylistAction) ==> post == pre)
}

/// Toggle the highlight between rename and delete.
pub fn playlist_action_cursor_up(sources: &mut Sources)
    ensures
        playlist_action_cursor_up_effect(*old(sources), *final(sources)),
{
    if let Screen::PlaylistAction { selected, .. } = &mut sources.screen {
        *selected = if *selected == 0 { 1 } else { 0 };
    }
}

/// What `playlist_action_cursor_down` does to the sources.
pub open spec fn playlist_action_cursor_down_effect(pre: Sources, post: Sources) -> bool {
    &&& (pre.screen matches Screen::PlaylistAction { playlist_id, playlist_name, selected } ==> post
        == on_screen(pre, Screen::PlaylistAction { playlist_id, playlist_name, selected: ((selected + 1) % 2) as usize }))
    &&& (!(pre.screen is PlaylistAction) ==> post == pre)
}

/// Move the highlight down: rename and delete alternate.
pub fn playlist_action_cursor_down(sources: &mut Sources)
    ensures
        playlist_action_cursor_down_effect(*old(sources), *final(sources)),
{
    if let Screen::PlaylistAction { selected, .. } = &mut sources.screen {
        *selected = if *selected % 2 == 0 { 1 } else { 0 };
    }
}

/// The rename modal for a playlist, seeded with its name.
pub open spec fn rename_screen(id: String, name: String) -> Screen {
    Screen::RenamePlaylist { id, original: name, input: name }
}

/// The delete confirmation for a playlist, with an empty field.
pub open spec fn delete_screen(s: Screen, id: String, name: String) -> bool {
    s matches Screen::ConfirmDeletePlaylist { id: i, name: n, input } && i == id && n == name && input@.len() == 0
}

/// What `playlist_action_submit` does to the sources.
pub open spec fn playlist_action_submit_effect(pre: Sources, post: Sources) -> bool {
    &&& (pre.screen matches Screen::PlaylistAction { playlist_id, playlist_name, selected } ==> {
        &&& post == on_screen(pre, post.screen)
        &&& selected == 0 ==> post.screen == rename_screen(playlist_id, playlist_name)
        &&& selected != 0 ==> delete_screen(post.screen, playlist_id, playlist_name)
    })
    &&& (!(pre.screen is PlaylistAction) ==> post == pre)
}

/// Enter on the choice: the highlighted rename (0) or delete.
pub fn playlist_action_submit(sources: &mut Sources)
    ensures
        playlist_action_submit_effect(*old(sources), *final(sources)),
{
    let (id, name, sel) = match &sources.screen {
        Screen::PlaylistAction { playlist_id, playlist_name, selected } => (
            playlist_id.clone(),
            playlist_name.clone(),
            *selected,
        ),
        _ => return,
    };
    sources.screen = if sel == 0 {
        Screen::RenamePlaylist { id, original: name.clone(), input: name }
    } else {
        Screen::ConfirmDeletePlaylist { id, name, input: String::new() }
    };
}

/// What `playlist_action_rename` does to the sources.
pub open spec fn playlist_action_rename_effect(pre: Sources, post: Sources) -> bool {
    &&& (pre.screen matches Screen::PlaylistAction { playlist_id, playlist_name, .. } ==> post
        == on_screen(pre, rename_screen(playlist_id, playlist_name)))
    &&& (!(pre.screen is PlaylistAction) ==> post == pre)
}

/// `r` on the choice: straight to the rename modal.
pub fn playlist_action_rename(sources: &mut Sources)
    ensures
        playlist_action_rename_effect(*old(sources), *final(sources)),
{
    let (id, name) = match &sources.screen {
        Screen::PlaylistAction { playlist_id, playlist_name, .. } => (playlist_id.clone(), playlist_name.clone()),
        _ => return,
    };
    sources.screen = Screen::RenamePlaylist { id, original: name.clone(), input: name };
}

/// What `playlist_action_delete` does to the sources.
pub open spec fn playlist_action_delete_effect(pre: Sources, post: Sources) -> bool {
    &&& (pre.screen matches Screen::PlaylistAction { playlist_id, playlist_name, .. } ==> {
        &&& post == on_screen(pre, post.screen)
        &&& delete_screen(post.screen, playlist_id, playlist_name)
    })
    &&& (!(pre.screen is PlaylistAction) ==> post == pre)
}

/// `d` on the choice: straight to the delete confirmation.
pub fn playlist_action_delete(sources: &mut Sources)
    ensures
        playlist_action_delete_effect(*old(sources), *final(sources)),
{
    let (id, name) = match &sources.screen {
        Screen::PlaylistAction { playlist_id, playlist_name, .. } => (playlist_id.clone(), playlist_name.clone()),
        _ => return,
    };
    sources.screen = Screen::ConfirmDeletePlaylist { id, name, input: String::new() };
}

// ---------------------------------------------------------------------
// Add-to-playlist picker
// ---------------------------------------------------------------------

/// What `playlist_picker_cursor_up` does to the sources.
pub open spec fn playlist_picker_cursor_up_effect(pre: Sources, post: Sources) -> bool {
    &&& (pre.screen matches Screen::PlaylistPicker { item, selected } ==> post == on_screen(
        pre,
        Screen::PlaylistPicker { item, selected: crate::panes::row_up(selected) },
    ))
    &&& (!(pre.screen is PlaylistPicker) ==> post == pre)
}

pub fn playlist_picker_cursor_up(sources: &mut Sources)
    ensures
        playlist_picker_cursor_up_effect(*old(sources), *final(sources)),
{
    if let Screen::PlaylistPicker { selected, .. } = &mut sources.screen {
        *selected = selected.saturating_sub(1);
    }
}

/// What `playlist_picker_cursor_down` does to the sources.
pub open spec fn playlist_picker_cursor_down_effect(pre: Sources, post: Sources) -> bool {
    &&& (pre.screen matches Screen::PlaylistPicker { item, selected } ==> post == on_screen(
        pre,
        Screen::PlaylistPicker {
            item,
            selected: crate::panes::row_down(selected, pre.playlists.items@.len() + 1 as int),
        },
    ))
    &&& (!(pre.screen is PlaylistPicker) ==> post == pre)
}

/// Down in the picker: its rows are the playlists and "+ New".
pub fn playlist_picker_cursor_down(sources: &mut Sources)
    ensures
        playlist_picker_cursor_down_effect(*old(sources), *final(sources)),
{
    let n = sources.playlists.items.len();
    if let Screen::PlaylistPicker { selected, .. } = &mut sources.screen {
        if *selected < n {
            *selected = *selected + 1;
        }
    }
}

/// What `playlist_picker_submit` does to the sources.
pub open spec fn playlist_picker_submit_effect(pre: Sources, post: Sources) -> bool {
    &&& (pre.screen matches Screen::PlaylistPicker { item, selected } ==> {
        let pre = pre;
        let post = post;
        let n = pre.playlists.items@.len();
        if selected == n {
            post.screen matches Screen::CreatePlaylist { input, add_item } && input@.len() == 0
                && add_item == Some(item) && post == on_screen(pre, post.screen)
        } else if selected > n {
            post == on_screen(pre, Screen::NowPlaying)
        } else {
            let pid = pre.playlists.items@[selected as int].id;
            let seq = next_id(pre.requests.last_seq);
            &&& post.screen is NowPlaying
            &&& post.requests.pending@ == pre.requests.pending@.push(post.requests.pending@.last())
            &&& post.requests.pending@.last().seq == seq && post.requests.pending@.last().task_id is None
            &&& post.requests.pending@.last().msg matches ClientMsg::AddToPlaylist { playlist_id, song_ids, album_ids }
                && playlist_id == pid && match item.kind {
                ActionKind::Song => song_ids@ =~= seq![item.id] && album_ids@.len() == 0,
                ActionKind::Album => song_ids@.len() == 0 && album_ids@ =~= seq![item.id],
                ActionKind::Artist => song_ids@.len() == 0 && album_ids@.len() == 0,
            }
            &&& post.requests.last_seq == seq && post.requests.last_task == pre.requests.last_task
            &&& post.pending_playlists.adding@.drop_last() =~= pre.pending_playlists.adding@
            &&& post.pending_playlists.adding@.len() == pre.pending_playlists.adding@.len() + 1
            &&& post.pending_playlists.adding@.last().seq == seq
            &&& post.pending_playlists.adding@.last().playlist_id@ == pid@
            &&& post.pending_playlists == (crate::state::server::PendingPlaylists {
                adding: post.pending_playlists.adding,
                ..pre.pending_playlists
            })
            &&& post.picker == (UiPicker { last_add_playlist: Some(pid), ..pre.picker })
            &&& post == (Sources {
                screen: post.screen,
                requests: post.requests,
                pending_playlists: post.pending_playlists,
                picker: post.picker,
                ..pre
            })
        }
    })
    &&& (!(pre.screen is PlaylistPicker) ==> post == pre)
}

/// Enter on the picker: "+ New" moves to playlist creation carrying
/// the row; a playlist gets the row added (a song or an album by id;
/// an artist adds nothing), shown as a pending add, and becomes the
/// remembered target; a row that is gone just closes the picker.
pub fn playlist_picker_submit(sources: &mut Sources)
    ensures
        playlist_picker_submit_effect(*old(sources), *final(sources)),
{
    let n = sources.playlists.items.len();
    let (picked, item) = match &sources.screen {
        Screen::PlaylistPicker { item, selected } => (*selected, item.duplicate()),
        _ => return,
    };
    if picked == n {
        sources.screen = Screen::CreatePlaylist { input: String::new(), add_item: Some(item) };
        return;
    }
    if picked > n {
        sources.screen = Screen::NowPlaying;
        return;
    }
    let pid = sources.playlists.items[picked].id.clone();
    let (song_ids, album_ids) = match item.kind {
        ActionKind::Song => (vec![item.id], Vec::new()),
        ActionKind::Album => (Vec::new(), vec![item.id]),
        ActionKind::Artist => (Vec::new(), Vec::new()),
    };
    let seq = sources.requests.push(ClientMsg::AddToPlaylist { playlist_id: pid.clone(), song_ids, album_ids }, None);
    sources.pending_playlists.add_adding(seq, pid.clone());
    sources.picker.last_add_playlist = Some(pid);
    sources.screen = Screen::NowPlaying;
}

// ---------------------------------------------------------------------
// Remove from playlist
// ---------------------------------------------------------------------

/// What `confirm_remove_submit` does to the sources.
pub open spec fn confirm_remove_submit_effect(pre: Sources, post: Sources) -> bool {
    &&& (pre.screen matches Screen::ConfirmRemoveFromPlaylist { playlist_id, song_index, .. } ==> {
        let pre = pre;
        let post = post;
        let slot = if (song_index as int) < pre.playlist_tracks.songs@.len() {
            pre.playlist_tracks.songs@[song_index as int]
        } else {
            None
        };
        &&& post.screen is NowPlaying
        &&& match slot {
            Some(song) => {
                let seq = next_id(pre.requests.last_seq);
                &&& post.requests.pending@ == pre.requests.pending@.push(post.requests.pending@.last())
                &&& post.requests.pending@.last().seq == seq && post.requests.pending@.last().task_id is None
                &&& post.requests.pending@.last().msg matches ClientMsg::RemoveFromPlaylist { playlist_id: p, items }
                    && p == playlist_id && items@ =~= seq![(song.id, song_index)]
                &&& post.requests.last_seq == seq && post.requests.last_task == pre.requests.last_task
                &&& post.pending_playlists.removing@ == pre.pending_playlists.removing@.push(
                    PendingOp { seq, playlist_id, detail: song.id },
                )
                &&& post.pending_playlists == (crate::state::server::PendingPlaylists {
                    removing: post.pending_playlists.removing,
                    ..pre.pending_playlists
                })
                &&& post == (Sources {
                    screen: post.screen,
                    requests: post.requests,
                    pending_playlists: post.pending_playlists,
                    ..pre
                })
            },
            None => post == on_screen(pre, Screen::NowPlaying),
        }
    })
    &&& (!(pre.screen is ConfirmRemoveFromPlaylist) ==> post == pre)
}

/// Enter on the remove confirmation: when the row still holds a song,
/// its removal is sent and the row hidden at once; the modal closes
/// either way.
pub fn confirm_remove_submit(sources: &mut Sources)
    ensures
        confirm_remove_submit_effect(*old(sources), *final(sources)),
{
    let (pid, idx) = match &sources.screen {
        Screen::ConfirmRemoveFromPlaylist { playlist_id, song_index, .. } => (playlist_id.clone(), *song_index),
        _ => return,
    };
    let song_id = if idx < sources.playlist_tracks.songs.len() {
        match &sources.playlist_tracks.songs[idx] {
            Some(s) => Some(s.id.clone()),
            None => None,
        }
    } else {
        None
    };
    if let Some(song_id) = song_id {
        let seq = sources.requests.push(
            ClientMsg::RemoveFromPlaylist { playlist_id: pid.clone(), items: vec![(song_id.clone(), idx)] },
            None,
        );
        let ghost before = sources.pending_playlists.removing@;
        let ghost gpid = pid;
        let ids = vec![song_id];
        assert(ids@.len() == 1);
        let ghost first = ids@[0];
        sources.pending_playlists.add_removing(seq, pid, ids);
        assert(sources.pending_playlists.removing@[before.len() + 0int] == PendingOp { seq, playlist_id: gpid, detail: first });
        assert(sources.pending_playlists.removing@ =~= before.push(PendingOp { seq, playlist_id: gpid, detail: first }));
    }
    sources.screen = Screen::NowPlaying;
}

} // verus!
