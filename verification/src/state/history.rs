//! What the middle pane shows, and the back / forward stacks of
//! earlier middle-pane locations.

use vstd::prelude::*;
use crate::proto::{SearchType, TaskId};

verus! {

/// What the middle pane shows.
pub enum MiddleMode {
    PlaylistSongs,
    SearchResults { term: String, search_type: SearchType, task_id: Option<TaskId> },
    AlbumDetail { album_id: String, album_title: String, awaiting_seq: Option<u64> },
    ArtistDetail { artist_id: String, artist_name: String, awaiting_seq: Option<u64> },
}

impl MiddleMode {
    pub fn duplicate(&self) -> (r: MiddleMode)
        ensures
            r == *self,
    {
        match self {
            MiddleMode::PlaylistSongs => MiddleMode::PlaylistSongs,
            MiddleMode::SearchResults { term, search_type, task_id } => MiddleMode::SearchResults {
                term: term.clone(),
                search_type: *search_type,
                task_id: *task_id,
            },
            MiddleMode::AlbumDetail { album_id, album_title, awaiting_seq } => MiddleMode::AlbumDetail {
                album_id: album_id.clone(),
                album_title: album_title.clone(),
                awaiting_seq: *awaiting_seq,
            },
            MiddleMode::ArtistDetail { artist_id, artist_name, awaiting_seq } => MiddleMode::ArtistDetail {
                artist_id: artist_id.clone(),
                artist_name: artist_name.clone(),
                awaiting_seq: *awaiting_seq,
            },
        }
    }
}

/// One saved middle-pane location: mode, filter text and cursor.
pub struct HistoryFrame {
    pub mode: MiddleMode,
    pub filter: String,
    pub selected: usize,
}

/// The last history move.
#[derive(PartialEq, Eq, Structural, Clone, Copy, Debug)]
pub enum HistoryTransition {
    Drill,
    Back,
    Forward,
}

/// The history source.
pub struct UiHistory {
    pub mode: MiddleMode,
    pub back: Vec<HistoryFrame>,
    pub forward: Vec<HistoryFrame>,
    pub last_transition: Option<HistoryTransition>,
    pub transition_seq: u64,
}

impl UiHistory {
    pub open spec fn is_reset(self) -> bool {
        &&& self.mode == MiddleMode::PlaylistSongs
        &&& self.back@.len() == 0
        &&& self.forward@.len() == 0
        &&& self.last_transition is None
        &&& self.transition_seq == 0
    }

    pub fn new() -> (h: Self)
        ensures
            h.is_reset(),
    {
        UiHistory {
            mode: MiddleMode::PlaylistSongs,
            back: Vec::new(),
            forward: Vec::new(),
            last_transition: None,
            transition_seq: 0,
        }
    }
}

} // verus!
