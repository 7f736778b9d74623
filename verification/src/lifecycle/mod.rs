//! The lifecycle rules: for each flow a desired-state function, an
//! action that diffs it against the live sources, and a trampoline
//! that writes the intent synchronously so the next tick is a no-op.

pub mod connect;
pub mod cursor_clamp;
pub mod cursor_snap;
pub mod backend;
pub mod backend_session;
pub mod clipboard_toast;
pub mod last_add_persist;
pub mod link_ack;
pub mod lost_modal;
pub mod pending_add;
pub mod playlists_refetch;
pub mod restore;
pub mod search_history_push;
pub mod search_reopen;
pub mod server_errors;
pub mod view_persist;
pub mod viewing_playlist;
