//! Platform-neutral core of the Make Play client: the driver state
//! machines, the desired-state / action lifecycle rules and the pure
//! helpers they rely on, each with its contract proved by Verus.

pub mod action_menu;
pub mod bridge;
pub mod clipboard;
pub mod discovery_folder;
pub mod dispatch;
pub mod ingest;
pub mod keybindings_editor;
pub mod drivers;
pub mod events;
pub mod execute;
pub mod laws;
pub mod lifecycle;
pub mod modals;
pub mod link_driver;
pub mod paint;
pub mod panes;
pub mod persist;
pub mod persist_store;
pub mod proto;
pub mod queries;
pub mod runtime;
pub mod selecting;
pub mod seqs;
pub mod server_picker;
pub mod state;
pub mod text;
pub mod tls;
pub mod ui_bridge;
