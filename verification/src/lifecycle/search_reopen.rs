//! Reopen the search modal, pre-filled, when a search comes back empty
//! while its results pane has focus — once per search.

use vstd::prelude::*;
use crate::dispatch::{load_step, request_load_search_history};
use crate::persist::{LoadKeyModel, PersistCmd};
use crate::proto::SearchType;
use crate::state::history::MiddleMode;
use crate::state::sources::Sources;
use crate::state::ui::{ColumnFocus, Screen, SearchState};
use crate::text::opt_view;

verus! {

pub struct ReopenSearchInput<'a> {
    pub first_page_empty: bool,
    pub empty_reopen_done: bool,
    pub term: &'a String,
    pub search_type: SearchType,
}

pub struct ReopenHistoryInput {
    pub middle_is_search_results: bool,
}

pub struct ReopenCursorInput {
    pub middle_focused: bool,
}

pub struct ReopenScreenInput {
    pub on_now_playing: bool,
}

pub struct ReopenSessionInput<'a> {
    pub backend_name: Option<&'a String>,
}

/// The modal should reopen: the search's first page is empty, it has
/// not reopened yet, and the results pane is shown and focused.
pub open spec fn spec_desired_reopen(
    first_page_empty: bool,
    empty_reopen_done: bool,
    middle_is_search_results: bool,
    middle_focused: bool,
) -> bool {
    !empty_reopen_done && first_page_empty && middle_is_search_results && middle_focused
}

pub fn desired_search_modal_reopen(search: &ReopenSearchInput, history: &ReopenHistoryInput, cursor: &ReopenCursorInput) -> (r: bool)
    ensures
        r == spec_desired_reopen(search.first_page_empty, search.empty_reopen_done, history.middle_is_search_results, cursor.middle_focused),
{
    !search.empty_reopen_done && search.first_page_empty && history.middle_is_search_results && cursor.middle_focused
}

pub enum SearchReopenAction {
    Noop,
    Open { term: String, search_type: SearchType, load_history_for: Option<String> },
}

pub fn search_reopen_action(
    desired_open: bool,
    screen: &ReopenScreenInput,
    search: &ReopenSearchInput,
    session: &ReopenSessionInput,
) -> (r: SearchReopenAction)
    ensures
        !(desired_open && screen.on_now_playing) ==> r is Noop,
        (desired_open && screen.on_now_playing) ==> (r matches SearchReopenAction::Open { term, search_type, load_history_for }
            && term@ == search.term@ && search_type == search.search_type
            && opt_view(load_history_for) == crate::execute::ref_view(session.backend_name)),
{
    if !desired_open || !screen.on_now_playing {
        return SearchReopenAction::Noop;
    }
    SearchReopenAction::Open {
        term: search.term.clone(),
        search_type: search.search_type,
        load_history_for: match session.backend_name {
            Some(b) => Some(b.clone()),
            None => None,
        },
    }
}

/// Whether the step opens the modal on `s`.
pub open spec fn spec_reopen_step(s: Sources) -> bool {
    spec_desired_reopen(
        s.search.spec_first_page_empty(),
        s.search.empty_reopen_done,
        s.history.mode is SearchResults,
        s.cursor.focus == ColumnFocus::Middle,
    ) && s.screen is NowPlaying
}

/// What `apply_search_reopen` does to the sources.
pub open spec fn apply_search_reopen_effect(pre: Sources, post: Sources, cmd: Option<PersistCmd>) -> bool {
    &&& (!spec_reopen_step(pre) ==> cmd is None && post == pre)
    &&& (spec_reopen_step(pre) ==> {
        &&& post.search.empty_reopen_done
        &&& post.screen matches Screen::SearchInput(st) && st.input@ == pre.search.term@
            && st.last_type == pre.search.search_type && st.history@.len() == 0
            && st.history_selected is None
        &&& post.search == (crate::state::search::Search {
            empty_reopen_done: true,
            ..pre.search
        })
        &&& match pre.session.backend_name {
            None => cmd is None && post.persist == pre.persist,
            Some(b) => {
                let mid = Sources {
                    search: post.search,
                    screen: post.screen,
                    ..pre
                };
                load_step(mid, post, LoadKeyModel::SearchHistory(b@), cmd is Some)
                    && (cmd matches Some(c) ==> c matches PersistCmd::LoadSearchHistory { backend } && backend@ == b@)
            },
        }
        &&& post == (Sources {
            search: post.search,
            screen: post.screen,
            persist: post.persist,
            ..pre
        })
    })
    &&& (!spec_reopen_step(post))
}

/// Open the modal with the search's term and kind, mark the reopen
/// done and, for a live backend, load its search history.
pub fn apply_search_reopen(sources: &mut Sources) -> (cmd: Option<PersistCmd>)
    ensures
        apply_search_reopen_effect(*old(sources), *final(sources), cmd),
{
    let action = {
        let search = ReopenSearchInput {
            first_page_empty: sources.search.first_page_empty(),
            empty_reopen_done: sources.search.empty_reopen_done,
            term: &sources.search.term,
            search_type: sources.search.search_type,
        };
        let history = ReopenHistoryInput {
            middle_is_search_results: match sources.history.mode {
                MiddleMode::SearchResults { .. } => true,
                _ => false,
            },
        };
        let cursor = ReopenCursorInput { middle_focused: sources.cursor.focus == ColumnFocus::Middle };
        let desired = desired_search_modal_reopen(&search, &history, &cursor);
        let screen = ReopenScreenInput {
            on_now_playing: match sources.screen {
                Screen::NowPlaying => true,
                _ => false,
            },
        };
        let session = ReopenSessionInput { backend_name: sources.session.backend_name.as_ref() };
        search_reopen_action(desired, &screen, &search, &session)
    };
    let (term, search_type, load_history_for) = match action {
        SearchReopenAction::Noop => return None,
        SearchReopenAction::Open { term, search_type, load_history_for } => (term, search_type, load_history_for),
    };
    sources.search.empty_reopen_done = true;
    sources.screen = Screen::SearchInput(SearchState {
        input: term,
        last_type: search_type,
        history: Vec::new(),
        history_selected: None,
    });
    match load_history_for {
        Some(backend) => request_load_search_history(sources, backend),
        None => None,
    }
}

} // verus!
