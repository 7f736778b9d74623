//! Cursor, filter, screen, picker, toast and preview: the user-decision
//! sources of the interface.

use vstd::prelude::*;
use crate::proto::{SearchType, Song};

verus! {

/// Which column has focus.
#[derive(PartialEq, Eq, Structural, Clone, Copy, Debug)]
pub enum ColumnFocus {
    Left,
    Middle,
    Queue,
}

/// Cursor rows of every column.
pub struct Cursor {
    pub left: usize,
    pub middle: usize,
    pub queue: usize,
    pub server_picker: usize,
    pub focus: ColumnFocus,
}

/// The column after `f` in the Left, Middle, Queue cycle.
pub open spec fn focus_after(f: ColumnFocus) -> ColumnFocus {
    match f {
        ColumnFocus::Left => ColumnFocus::Middle,
        ColumnFocus::Middle => ColumnFocus::Queue,
        ColumnFocus::Queue => ColumnFocus::Left,
    }
}

/// The column before `f` in the Left, Middle, Queue cycle.
pub open spec fn focus_before(f: ColumnFocus) -> ColumnFocus {
    match f {
        ColumnFocus::Left => ColumnFocus::Queue,
        ColumnFocus::Middle => ColumnFocus::Left,
        ColumnFocus::Queue => ColumnFocus::Middle,
    }
}

impl Cursor {
    /// Move focus to the next column.
    pub fn cycle_focus_forward(&mut self)
        ensures
            *final(self) == (Cursor { focus: focus_after(old(self).focus), ..*old(self) }),
    {
        self.focus = match self.focus {
            ColumnFocus::Left => ColumnFocus::Middle,
            ColumnFocus::Middle => ColumnFocus::Queue,
            ColumnFocus::Queue => ColumnFocus::Left,
        };
    }

    /// Move focus to the previous column.
    pub fn cycle_focus_backward(&mut self)
        ensures
            *final(self) == (Cursor { focus: focus_before(old(self).focus), ..*old(self) }),
    {
        self.focus = match self.focus {
            ColumnFocus::Left => ColumnFocus::Queue,
            ColumnFocus::Middle => ColumnFocus::Left,
            ColumnFocus::Queue => ColumnFocus::Middle,
        };
    }

    pub fn new() -> (c: Self)
        ensures
            c.left == 0 && c.middle == 0 && c.queue == 0 && c.server_picker == 0,
            c.focus == ColumnFocus::Left,
    {
        Cursor { left: 0, middle: 0, queue: 0, server_picker: 0, focus: ColumnFocus::Left }
    }
}

/// Which pane a filter applies to.
#[derive(PartialEq, Eq, Structural, Clone, Copy, Debug)]
pub enum FilterTarget {
    Middle,
    Queue,
}

/// Filter texts per pane.
pub struct UiFilter {
    pub middle: String,
    pub queue: String,
    pub playlist: String,
}

impl UiFilter {
    pub fn new() -> (f: Self)
        ensures
            f.middle@.len() == 0 && f.queue@.len() == 0 && f.playlist@.len() == 0,
    {
        UiFilter { middle: String::new(), queue: String::new(), playlist: String::new() }
    }
}

/// One entry of the recent-search list shown in the search modal.
pub struct SearchHistoryEntry {
    pub query: String,
    pub search_type: String,
    pub ts: i64,
}

/// The search modal's state.
pub struct SearchState {
    pub input: String,
    pub last_type: SearchType,
    pub history: Vec<SearchHistoryEntry>,
    pub history_selected: Option<usize>,
}

/// The filter-input modal's state.
pub struct FilterState {
    pub target: FilterTarget,
    pub input: String,
}

/// What an action-menu row stands for.
#[derive(PartialEq, Eq, Structural, Clone, Copy, Debug)]
pub enum ActionKind {
    Song,
    Album,
    Artist,
}

/// Which pane an action menu was opened from.
#[derive(PartialEq, Eq, Structural, Clone, Copy, Debug)]
pub enum ActionOrigin {
    /// A row of the loaded playlist's tracks.
    PlaylistSongs,
    /// A row of the play queue.
    Queue,
    /// Any other middle-pane row (search results, album or artist).
    OtherMiddle,
}

/// The row an action menu acts on.
pub struct ActionItem {
    pub id: String,
    pub kind: ActionKind,
    /// Text shown for the row.
    pub label: String,
    pub album_id: Option<String>,
    pub album_title: Option<String>,
    pub artist_id: Option<String>,
    pub artist_label: Option<String>,
    /// Playlist the row belongs to, with its position there.
    pub playlist_id: Option<String>,
    pub view_index: Option<usize>,
    pub origin: ActionOrigin,
}

impl ActionItem {
    pub fn duplicate(&self) -> (r: ActionItem)
        ensures
            r == *self,
    {
        ActionItem {
            id: self.id.clone(),
            kind: self.kind,
            label: self.label.clone(),
            album_id: crate::text::copy_opt_string(&self.album_id),
            album_title: crate::text::copy_opt_string(&self.album_title),
            artist_id: crate::text::copy_opt_string(&self.artist_id),
            artist_label: crate::text::copy_opt_string(&self.artist_label),
            playlist_id: crate::text::copy_opt_string(&self.playlist_id),
            view_index: self.view_index,
            origin: self.origin,
        }
    }
}

/// The action menu's state: the row it acts on and the highlighted
/// entry.
pub struct ActionModalState {
    pub item: ActionItem,
    pub selected: usize,
}

/// Which top-level surface is up.
pub enum Screen {
    NowPlaying,
    ServerLostModal { server: String },
    ErrorModal { message: String },
    SearchInput(SearchState),
    FilterInput(FilterState),
    HelpOverlay { scroll: u16 },
    ServerPicker { selected: usize },
    SelectionActionModal { selected: usize },
    ActionModal(ActionModalState),
    /// Name entry for a new playlist, optionally carrying the row to
    /// add once it exists.
    CreatePlaylist { input: String, add_item: Option<ActionItem> },
    RenamePlaylist { id: String, original: String, input: String },
    /// Type-the-name confirmation of a delete.
    ConfirmDeletePlaylist { id: String, name: String, input: String },
    /// Rename-or-delete choice for a playlist row (0 rename, 1 delete).
    PlaylistAction { playlist_id: String, playlist_name: String, selected: usize },
    /// Add-to-playlist picker; the row past the last playlist is
    /// "+ New playlist".
    PlaylistPicker { item: ActionItem, selected: usize },
    ConfirmRemoveFromPlaylist { playlist_id: String, song_index: usize, song_title: String },
    /// The keybinding editor over a draft of the key table.
    KeybindingsEditor(crate::state::keybindings::KeybindingsEditorState),
}

/// Kind of the item a deferred add carries.
#[derive(PartialEq, Eq, Structural, Clone, Copy, Debug)]
pub enum ItemKind {
    Song,
    Album,
    Artist,
}

/// An add-to-playlist waiting for its playlist to be created.
pub struct PendingCreateAdd {
    /// Name of the playlist being created.
    pub name: String,
    pub item_id: String,
    pub item_kind: ItemKind,
}

/// The playlist picker's user decisions.
pub struct UiPicker {
    pub pending_create_add: Option<PendingCreateAdd>,
    pub last_add_playlist: Option<String>,
}

impl UiPicker {
    pub fn new() -> (p: Self)
        ensures
            p.pending_create_add is None,
            p.last_add_playlist is None,
    {
        UiPicker { pending_create_add: None, last_add_playlist: None }
    }
}

/// A transient message with an expiry instant.
pub struct UiToast {
    pub message: Option<String>,
    pub expires_at: Option<u64>,
}

impl UiToast {
    pub fn new() -> (t: Self)
        ensures
            t.message is None,
            t.expires_at is None,
    {
        UiToast { message: None, expires_at: None }
    }

    /// Show `text` until `expires_at`.
    pub fn show(&mut self, text: String, expires_at: u64)
        ensures
            final(self).message matches Some(m) && m@ == text@,
            final(self).expires_at == Some(expires_at),
    {
        self.message = Some(text);
        self.expires_at = Some(expires_at);
    }

    /// Drop the message once `now` has reached its expiry.
    pub fn drop_if_expired(&mut self, now: u64)
        ensures
            (old(self).expires_at matches Some(t) && now >= t) ==> final(self).message is None
                && final(self).expires_at is None,
            !(old(self).expires_at matches Some(t) && now >= t) ==> *final(self) == *old(self),
    {
        if let Some(t) = self.expires_at {
            if now >= t {
                self.message = None;
                self.expires_at = None;
            }
        }
    }
}

/// The song the bar shows while hovering, with an expiry instant.
pub struct UiPreview {
    pub song: Option<Song>,
    pub expires_at: Option<u64>,
}

impl UiPreview {
    pub fn new() -> (p: Self)
        ensures
            p.song is None,
            p.expires_at is None,
    {
        UiPreview { song: None, expires_at: None }
    }

    /// Show `song` until `expires_at`.
    pub fn set(&mut self, song: Song, expires_at: u64)
        ensures
            final(self).song == Some(song),
            final(self).expires_at == Some(expires_at),
    {
        self.song = Some(song);
        self.expires_at = Some(expires_at);
    }

    /// Drop the preview once `now` has reached its expiry.
    pub fn drop_if_expired(&mut self, now: u64)
        ensures
            (old(self).expires_at matches Some(t) && now >= t) ==> final(self).song is None
                && final(self).expires_at is None,
            !(old(self).expires_at matches Some(t) && now >= t) ==> *final(self) == *old(self),
    {
        if let Some(t) = self.expires_at {
            if now >= t {
                self.song = None;
                self.expires_at = None;
            }
        }
    }
}

} // verus!
