//! The client's sources: every piece of state the lifecycle rules
//! read and the trampolines write.

pub mod discovery;
pub mod link;
pub mod probes;
pub mod credentials;
pub mod intent;
pub mod pairing;
pub mod playlists;
pub mod session;
pub mod history;
pub mod keybindings;
pub mod search;
pub mod selection;
pub mod ui;
pub mod requests;
pub mod server;
pub mod sources;
