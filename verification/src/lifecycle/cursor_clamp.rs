//! Keep each pane's cursor on a row that exists: past the end it snaps
//! to the last row; in an empty pane it rests at zero.

use vstd::prelude::*;
use crate::queries::{filtered_playlist_count, middle_row_count, queue_filtered_indices, spec_filtered_playlist_count,
    spec_middle_indices, spec_queue_indices};
use crate::state::sources::Sources;

verus! {

pub struct ColumnCursorInput {
    pub cursor: usize,
}

#[derive(PartialEq, Eq, Structural, Clone, Copy, Debug)]
pub enum CursorClampAction {
    Noop,
    Snap { row: usize },
}

/// The row a cursor must move to in a pane of `row_count` rows, if any.
pub open spec fn spec_clamp(row_count: usize, cursor: usize) -> CursorClampAction {
    if row_count == 0 {
        if cursor == 0 { CursorClampAction::Noop } else { CursorClampAction::Snap { row: 0 } }
    } else if cursor >= row_count {
        CursorClampAction::Snap { row: (row_count - 1) as usize }
    } else {
        CursorClampAction::Noop
    }
}

/// Where the cursor ends up: in range (or zero in an empty pane).
pub open spec fn clamped(row_count: usize, cursor: usize) -> usize {
    match spec_clamp(row_count, cursor) {
        CursorClampAction::Noop => cursor,
        CursorClampAction::Snap { row } => row,
    }
}

pub fn cursor_clamp_action(row_count: usize, input: ColumnCursorInput) -> (r: CursorClampAction)
    ensures
        r == spec_clamp(row_count, input.cursor),
        row_count > 0 ==> clamped(row_count, input.cursor) < row_count,
        row_count == 0 ==> clamped(row_count, input.cursor) == 0,
        input.cursor < row_count ==> r is Noop,
{
    if row_count == 0 {
        if input.cursor == 0 {
            CursorClampAction::Noop
        } else {
            CursorClampAction::Snap { row: 0 }
        }
    } else if input.cursor >= row_count {
        CursorClampAction::Snap { row: row_count - 1 }
    } else {
        CursorClampAction::Noop
    }
}

/// The middle pane's row count as the clamp reads it.
pub open spec fn middle_rows(s: Sources) -> usize {
    spec_middle_indices(s).len() as usize
}

/// What `apply_middle_cursor_clamp` does to the sources.
pub open spec fn apply_middle_cursor_clamp_effect(pre: Sources, post: Sources) -> bool {
    &&& (post == (Sources {
        cursor: crate::state::ui::Cursor {
            middle: clamped(middle_rows(pre), pre.cursor.middle),
            ..pre.cursor
        },
        ..pre
    }))
}

pub fn apply_middle_cursor_clamp(sources: &mut Sources)
    ensures
        apply_middle_cursor_clamp_effect(*old(sources), *final(sources)),
{
    let rows = middle_row_count(sources);
    if let CursorClampAction::Snap { row } = cursor_clamp_action(rows, ColumnCursorInput { cursor: sources.cursor.middle }) {
        sources.cursor.middle = row;
    }
}

/// What `apply_queue_cursor_clamp` does to the sources.
pub open spec fn apply_queue_cursor_clamp_effect(pre: Sources, post: Sources) -> bool {
    &&& (post == (Sources {
        cursor: crate::state::ui::Cursor {
            queue: clamped(spec_queue_indices(pre).len() as usize, pre.cursor.queue),
            ..pre.cursor
        },
        ..pre
    }))
}

pub fn apply_queue_cursor_clamp(sources: &mut Sources)
    ensures
        apply_queue_cursor_clamp_effect(*old(sources), *final(sources)),
{
    let rows = queue_filtered_indices(sources).len();
    if let CursorClampAction::Snap { row } = cursor_clamp_action(rows, ColumnCursorInput { cursor: sources.cursor.queue }) {
        sources.cursor.queue = row;
    }
}

/// The left column's rows: the two fixed entries above the playlists,
/// then the playlists shown under the playlist filter.
pub open spec fn left_rows(s: Sources) -> usize {
    let n = spec_filtered_playlist_count(s, s.filter.playlist@) + 2;
    if n > usize::MAX { usize::MAX } else { n as usize }
}

/// What `apply_left_cursor_clamp` does to the sources.
pub open spec fn apply_left_cursor_clamp_effect(pre: Sources, post: Sources) -> bool {
    &&& (post == (Sources {
        cursor: crate::state::ui::Cursor {
            left: clamped(left_rows(pre), pre.cursor.left),
            ..pre.cursor
        },
        ..pre
    }))
}

pub fn apply_left_cursor_clamp(sources: &mut Sources)
    ensures
        apply_left_cursor_clamp_effect(*old(sources), *final(sources)),
{
    let rows = filtered_playlist_count(sources, &sources.filter.playlist).saturating_add(2);
    if let CursorClampAction::Snap { row } = cursor_clamp_action(rows, ColumnCursorInput { cursor: sources.cursor.left }) {
        sources.cursor.left = row;
    }
}

/// What `apply_action_modal_clamp` does to the sources.
pub open spec fn apply_action_modal_clamp_effect(pre: Sources, post: Sources, menu_len: usize) -> bool {
    &&& (pre.screen matches crate::state::ui::Screen::ActionModal(st) ==> post == (Sources {
        screen: crate::state::ui::Screen::ActionModal(
            crate::state::ui::ActionModalState { selected: clamped(menu_len, st.selected), ..st },
        ),
        ..pre
    }))
    &&& (!(pre.screen is ActionModal) ==> post == pre)
}

/// Keep the action menu's highlight on one of its `menu_len` entries
/// (as the menu's view lays them out).
pub fn apply_action_modal_clamp(sources: &mut Sources, menu_len: usize)
    ensures
        apply_action_modal_clamp_effect(*old(sources), *final(sources), menu_len),
{
    if let crate::state::ui::Screen::ActionModal(st) = &mut sources.screen {
        if let CursorClampAction::Snap { row } = cursor_clamp_action(menu_len, ColumnCursorInput { cursor: st.selected }) {
            st.selected = row;
        }
    }
}

} // verus!
