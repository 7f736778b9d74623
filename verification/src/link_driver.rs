//! The link driver's ABI: the commands the runtime ships to the TLS
//! worker and the events it posts back, plus the server frames those
//! events carry.

use vstd::prelude::*;
use crate::proto::{Album, Artist, ClientMsg, Playlist, QueueDelta, QueueEntry, SearchResults, Song, TaskId};
use crate::state::server::PlayState;
use crate::state::discovery::Endpoint;
use crate::state::link::LinkKind;

verus! {

/// Commands the runtime ships to the worker.
pub enum LinkCmd {
    /// Open an authenticated client link pinned to the stored server
    /// certificate.
    ConnectClient {
        addr: Endpoint,
        server_cert_pem: String,
        client_cert_pem: String,
        client_key_pem: String,
        fingerprint: String,
    },
    /// Open a trust-on-first-use pairing link.
    ConnectPair { addr: Endpoint, server_name: String },
    /// Connect once to learn the server certificate's fingerprint.
    ProbeFingerprint { addr: Endpoint },
    Disconnect,
    /// Ship one request on a client link.
    Send { seq: u64, task_id: Option<TaskId>, msg: ClientMsg },
    ConfirmPair,
    RejectPair,
}

/// Target of a streamed list.
pub enum ListTarget {
    Playlist { id: String },
    Queue { queue_id: u64, version: u64 },
}

/// Change to one playlist announced by the server.
pub enum PlaylistMutation {
    Deleted,
    Renamed { new_name: String },
    SongAdded { songs: Vec<Song> },
    SongRemoved { song_id: String, index: usize },
    Modified,
}

/// Server messages the client folds into its sources.
pub enum ServerMsg {
    StateUpdate(PlayState),
    BackendChanged { backend: String },
    Playlists { playlists: Vec<Playlist> },
    PlaylistCreated { playlist: Playlist },
    PlaylistTrackCount { playlist_id: String, track_count: u32 },
    PlaylistMutated { playlist_id: String, mutation: PlaylistMutation },
    ListBegin { target: ListTarget, total: usize, focus: usize },
    ListChunk { target: ListTarget, offset: usize, songs: Vec<Song> },
    /// Queue rows from `offset` on, with their entry ids.
    QueueChunk { queue_id: u64, offset: usize, entries: Vec<QueueEntry> },
    /// One change to the queue, producing `version`.
    QueueDelta { queue_id: u64, version: u64, delta: QueueDelta },
    /// The changes missed while away, each with the version it produces.
    QueueCatchUp { queue_id: u64, deltas: Vec<(u64, QueueDelta)> },
    AlbumDetail { album_id: String, songs: Vec<Song> },
    ArtistDetail { artist_id: String, top_songs: Vec<Song>, top_albums: Vec<Album>, latest_albums: Vec<Album> },
    SimilarArtists { artist_id: String, artists: Vec<Artist> },
    ArtistAlbumsChunk { artist_id: String, albums: Vec<Album> },
    Search(SearchResults),
    SearchMore(SearchResults),
    /// Peer `peer` started task `task_id`, doing `activity`.
    TaskStarted { task_id: TaskId, peer: String, activity: String },
    TaskCompleted { task_id: TaskId },
    TaskFailed { task_id: TaskId },
    Error { message: String },
    ServerShutdown,
    Other,
}

/// A decoded frame: `seq` zero for broadcasts.
pub struct Response {
    pub seq: u64,
    pub task_id: Option<TaskId>,
    pub msg: ServerMsg,
}

/// Events the worker posts back.
pub enum LinkEvent {
    Connected { kind: LinkKind },
    Frame(Response),
    PairingReady {
        server_cert_pem: String,
        client_cert_pem: String,
        client_key_pem: String,
        fingerprint: String,
        code: String,
    },
    PairFailed { message: String },
    Closed { error: Option<String> },
    ProbeResult { addr: Endpoint, result: Result<String, String> },
}

/// Hooks a front end implements to watch the link driver. Each does
/// nothing unless overridden.
pub trait Trace {
    fn link_connect(&self, addr: Endpoint, kind: LinkKind) {
    }

    fn link_connected(&self, kind: LinkKind) {
    }

    fn link_send(&self, seq: u64) {
    }

    fn link_recv(&self, seq: u64) {
    }

    fn link_closed(&self, error: Option<&str>) {
    }

    fn pairing_ready(&self, fingerprint: &str, code: &str) {
    }

    fn pair_failed(&self, message: &str) {
    }

    fn probe(&self, addr: Endpoint) {
    }

    fn probe_result(&self, addr: Endpoint, result: &Result<String, String>) {
    }
}

/// Trace sink that records nothing.
pub struct NoopTrace;

impl Trace for NoopTrace {
}

} // verus!
