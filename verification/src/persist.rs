//! The persist driver's core: saved-view shapes, search history, the
//! command / event ABI, and the in-flight source that dedups loads and
//! remembers what was last saved.

use vstd::prelude::*;
use crate::text::text_eq;

verus! {

/// The middle-pane location saved per backend.
pub enum SavedView {
    Search { query: String, search_type: String, selected: usize, offset: usize, selected_id: String },
    AlbumDetail { album_id: String, album_name: String, selected: usize, offset: usize, selected_id: String },
    ArtistDetail { artist_id: String, artist_name: String, selected: usize, offset: usize },
    Playlist { playlist_id: String, selected: usize, offset: usize, selected_id: String },
}

/// The text-level content of a saved view.
pub enum SavedViewModel {
    Search { query: Seq<char>, search_type: Seq<char>, selected: usize, offset: usize, selected_id: Seq<char> },
    AlbumDetail { album_id: Seq<char>, album_name: Seq<char>, selected: usize, offset: usize, selected_id: Seq<char> },
    ArtistDetail { artist_id: Seq<char>, artist_name: Seq<char>, selected: usize, offset: usize },
    Playlist { playlist_id: Seq<char>, selected: usize, offset: usize, selected_id: Seq<char> },
}

impl SavedView {
    pub open spec fn model(self) -> SavedViewModel {
        match self {
            SavedView::Search { query, search_type, selected, offset, selected_id } =>
                SavedViewModel::Search { query: query@, search_type: search_type@, selected, offset, selected_id: selected_id@ },
            SavedView::AlbumDetail { album_id, album_name, selected, offset, selected_id } =>
                SavedViewModel::AlbumDetail { album_id: album_id@, album_name: album_name@, selected, offset, selected_id: selected_id@ },
            SavedView::ArtistDetail { artist_id, artist_name, selected, offset } =>
                SavedViewModel::ArtistDetail { artist_id: artist_id@, artist_name: artist_name@, selected, offset },
            SavedView::Playlist { playlist_id, selected, offset, selected_id } =>
                SavedViewModel::Playlist { playlist_id: playlist_id@, selected, offset, selected_id: selected_id@ },
        }
    }
}

/// Identity of a saved view without cursor, offset or song id.
pub enum SavedViewKey {
    Search { query: String, search_type: String },
    AlbumDetail { album_id: String },
    ArtistDetail { artist_id: String },
    Playlist { playlist_id: String },
}

/// The text-level content of a view key.
pub enum ViewKeyModel {
    Search { query: Seq<char>, search_type: Seq<char> },
    AlbumDetail { album_id: Seq<char> },
    ArtistDetail { artist_id: Seq<char> },
    Playlist { playlist_id: Seq<char> },
}

impl SavedViewKey {
    pub open spec fn model(self) -> ViewKeyModel {
        match self {
            SavedViewKey::Search { query, search_type } => ViewKeyModel::Search { query: query@, search_type: search_type@ },
            SavedViewKey::AlbumDetail { album_id } => ViewKeyModel::AlbumDetail { album_id: album_id@ },
            SavedViewKey::ArtistDetail { artist_id } => ViewKeyModel::ArtistDetail { artist_id: artist_id@ },
            SavedViewKey::Playlist { playlist_id } => ViewKeyModel::Playlist { playlist_id: playlist_id@ },
        }
    }

    /// Whether two keys name the same view.
    pub fn same(&self, other: &SavedViewKey) -> (r: bool)
        ensures
            r == (self.model() == other.model()),
    {
        match (self, other) {
            (SavedViewKey::Search { query: a, search_type: b }, SavedViewKey::Search { query: c, search_type: d }) =>
                text_eq(a, c) && text_eq(b, d),
            (SavedViewKey::AlbumDetail { album_id: a }, SavedViewKey::AlbumDetail { album_id: b }) => text_eq(a, b),
            (SavedViewKey::ArtistDetail { artist_id: a }, SavedViewKey::ArtistDetail { artist_id: b }) => text_eq(a, b),
            (SavedViewKey::Playlist { playlist_id: a }, SavedViewKey::Playlist { playlist_id: b }) => text_eq(a, b),
            _ => false,
        }
    }
}

impl SavedView {
    /// The identity of a saved view.
    pub open spec fn key_model(self) -> ViewKeyModel {
        match self {
            SavedView::Search { query, search_type, .. } => ViewKeyModel::Search { query: query@, search_type: search_type@ },
            SavedView::AlbumDetail { album_id, .. } => ViewKeyModel::AlbumDetail { album_id: album_id@ },
            SavedView::ArtistDetail { artist_id, .. } => ViewKeyModel::ArtistDetail { artist_id: artist_id@ },
            SavedView::Playlist { playlist_id, .. } => ViewKeyModel::Playlist { playlist_id: playlist_id@ },
        }
    }

    /// The view's identity: which view, not where the cursor is in it.
    pub fn key(&self) -> (k: SavedViewKey)
        ensures
            k.model() == self.key_model(),
    {
        match self {
            SavedView::Search { query, search_type, .. } => SavedViewKey::Search {
                query: query.clone(),
                search_type: search_type.clone(),
            },
            SavedView::AlbumDetail { album_id, .. } => SavedViewKey::AlbumDetail { album_id: album_id.clone() },
            SavedView::ArtistDetail { artist_id, .. } => SavedViewKey::ArtistDetail { artist_id: artist_id.clone() },
            SavedView::Playlist { playlist_id, .. } => SavedViewKey::Playlist { playlist_id: playlist_id.clone() },
        }
    }
}

/// One remembered search.
pub struct SearchHistoryItem {
    pub query: String,
    pub search_type: String,
    pub ts: i64,
}

/// The per-backend search history, newest first.
pub struct SearchHistory {
    pub items: Vec<SearchHistoryItem>,
}

/// How many searches the history keeps.
pub const SEARCH_HISTORY_LIMIT: usize = 10;

/// Which load a request is for.
pub enum LoadKey {
    Keybindings,
    LastServer,
    View(String),
    SearchHistory(String),
    LastAddPlaylist(String),
}

/// The text-level content of a load key.
pub enum LoadKeyModel {
    Keybindings,
    LastServer,
    View(Seq<char>),
    SearchHistory(Seq<char>),
    LastAddPlaylist(Seq<char>),
}

impl LoadKey {
    pub open spec fn model(self) -> LoadKeyModel {
        match self {
            LoadKey::Keybindings => LoadKeyModel::Keybindings,
            LoadKey::LastServer => LoadKeyModel::LastServer,
            LoadKey::View(b) => LoadKeyModel::View(b@),
            LoadKey::SearchHistory(b) => LoadKeyModel::SearchHistory(b@),
            LoadKey::LastAddPlaylist(b) => LoadKeyModel::LastAddPlaylist(b@),
        }
    }

    pub fn same(&self, other: &LoadKey) -> (r: bool)
        ensures
            r == (self.model() == other.model()),
    {
        match (self, other) {
            (LoadKey::Keybindings, LoadKey::Keybindings) => true,
            (LoadKey::LastServer, LoadKey::LastServer) => true,
            (LoadKey::View(a), LoadKey::View(b)) => text_eq(a, b),
            (LoadKey::SearchHistory(a), LoadKey::SearchHistory(b)) => text_eq(a, b),
            (LoadKey::LastAddPlaylist(a), LoadKey::LastAddPlaylist(b)) => text_eq(a, b),
            _ => false,
        }
    }
}

/// The set of loads issued but not yet answered.
pub struct LoadSet {
    pub keys: Vec<LoadKey>,
}

/// Whether some key of `s` has model `x`.
pub open spec fn holds(s: Seq<LoadKey>, x: LoadKeyModel) -> bool {
    exists|i: int| 0 <= i < s.len() && s[i].model() == x
}

/// Pushing `e` adds exactly `e`'s model.
pub proof fn lemma_holds_push(s: Seq<LoadKey>, e: LoadKey)
    ensures
        forall|x: LoadKeyModel| #[trigger] holds(s.push(e), x) <==> (holds(s, x) || e.model() == x),
{
    assert forall|x: LoadKeyModel| #[trigger] holds(s.push(e), x) <==> (holds(s, x) || e.model() == x) by {
        let t = s.push(e);
        if holds(t, x) {
            let i = choose|i: int| 0 <= i < t.len() && t[i].model() == x;
            if i < s.len() {
                assert(s[i] == t[i]);
            }
        }
        if holds(s, x) {
            let i = choose|i: int| 0 <= i < s.len() && s[i].model() == x;
            assert(t[i] == s[i]);
        }
        if e.model() == x {
            assert(t[s.len() as int] == e);
        }
    }
}

impl LoadSet {
    /// The loads in flight, as text-level keys.
    pub open spec fn contents(self) -> Set<LoadKeyModel> {
        Set::new(|m: LoadKeyModel| holds(self.keys@, m))
    }

    pub fn new() -> (s: Self)
        ensures
            s.contents() == Set::<LoadKeyModel>::empty(),
            s.keys@.len() == 0,
    {
        let s = LoadSet { keys: Vec::new() };
        assert(s.contents() =~= Set::<LoadKeyModel>::empty());
        s
    }

    pub fn contains(&self, k: &LoadKey) -> (r: bool)
        ensures
            r == self.contents().contains(k.model()),
    {
        let mut i: usize = 0;
        while i < self.keys.len()
            invariant
                i <= self.keys@.len(),
                forall|j: int| 0 <= j < i ==> self.keys@[j].model() != k.model(),
            decreases self.keys@.len() - i,
        {
            if self.keys[i].same(k) {
                return true;
            }
            i = i + 1;
        }
        false
    }

    pub fn insert(&mut self, k: LoadKey)
        ensures
            final(self).contents() == old(self).contents().insert(k.model()),
    {
        proof {
            lemma_holds_push(self.keys@, k);
        }
        self.keys.push(k);
        assert(self.contents() =~= old(self).contents().insert(k.model()));
    }

    pub fn remove(&mut self, k: &LoadKey)
        ensures
            final(self).contents() == old(self).contents().remove(k.model()),
    {
        let ghost m = k.model();
        let ghost orig = self.keys@;
        let mut kept: Vec<LoadKey> = Vec::new();
        let mut rest: Vec<LoadKey> = Vec::new();
        std::mem::swap(&mut rest, &mut self.keys);
        while rest.len() > 0
            invariant
                m == k.model(),
                forall|x: LoadKeyModel|
                    #![trigger holds(kept@, x)]
                    #![trigger holds(rest@, x)]
                    #![trigger holds(orig, x)]
                    (holds(kept@, x) || holds(rest@, x) || x == m) <==> (holds(orig, x) || x == m),
                forall|x: LoadKeyModel| #[trigger] holds(kept@, x) ==> x != m,
            decreases rest@.len(),
        {
            let ghost before_rest = rest@;
            let e = rest.pop().unwrap();
            proof {
                assert(before_rest =~= rest@.push(e));
                lemma_holds_push(rest@, e);
                lemma_holds_push(kept@, e);
            }
            if !e.same(k) {
                kept.push(e);
            }
        }
        self.keys = kept;
        assert(self.contents() =~= old(self).contents().remove(m));
    }
}


/// The most recent answer to a view load.
pub struct ViewLoadResult {
    pub backend: String,
    pub view: Option<SavedView>,
}

/// The persist driver's in-flight source.
pub struct Persist {
    /// Loads issued and not yet answered.
    pub loads_in_flight: LoadSet,
    /// Saves sent and not yet drained.
    pub writes_pending: usize,
    /// Most recent view-load answer, until the restore applies it.
    pub last_view_load: Option<ViewLoadResult>,
    /// Identity of the last view saved for the active backend.
    pub last_view_saved_key: Option<SavedViewKey>,
    /// Playlist id last saved as the add target for the active backend.
    pub last_add_playlist_saved: Option<String>,
    /// Task of the last search pushed to history.
    pub last_pushed_search_task: Option<u64>,
}

impl Persist {
    pub fn new() -> (p: Self)
        ensures
            p.loads_in_flight.contents() == Set::<LoadKeyModel>::empty(),
            p.loads_in_flight.keys@.len() == 0,
            p.writes_pending == 0,
            p.last_view_load is None,
            p.last_view_saved_key is None,
            p.last_add_playlist_saved is None,
            p.last_pushed_search_task is None,
    {
        Persist {
            loads_in_flight: LoadSet::new(),
            writes_pending: 0,
            last_view_load: None,
            last_view_saved_key: None,
            last_add_playlist_saved: None,
            last_pushed_search_task: None,
        }
    }

    /// Whether the load `key` has been issued and not yet answered.
    pub fn is_loading(&self, key: &LoadKey) -> (r: bool)
        ensures
            r == self.loads_in_flight.contents().contains(key.model()),
    {
        self.loads_in_flight.contains(key)
    }
}

/// Commands the runtime ships to the persist worker.
pub enum PersistCmd {
    LoadKeybindings,
    SaveKeybindings { keybindings: crate::state::keybindings::Keybindings },
    LoadLastServer,
    SaveLastServer { name: String },
    LoadView { backend: String },
    SaveView { backend: String, view: SavedView },
    ClearView { backend: String },
    LoadSearchHistory { backend: String },
    PushSearchHistory { backend: String, query: String, search_type: String },
    LoadLastAddPlaylist { backend: String },
    SaveLastAddPlaylist { backend: String, playlist_id: String },
}

/// Events the persist worker posts back.
pub enum PersistEvent {
    KeybindingsLoaded { keybindings: crate::state::keybindings::Keybindings },
    KeybindingsSaved { keybindings: crate::state::keybindings::Keybindings },
    LastServerLoaded { name: Option<String> },
    ViewLoaded { backend: String, view: Option<SavedView> },
    SearchHistoryLoaded { backend: String, history: SearchHistory },
    LastAddPlaylistLoaded { backend: String, id: Option<String> },
    SaveFailed { op: String, err: String },
}

/// Hooks a front end implements to watch the persist driver. Each does
/// nothing unless overridden.
pub trait Trace {
    fn persist_load(&self, key: &LoadKey) {
    }

    fn persist_loaded(&self, key: &LoadKey) {
    }

    fn persist_save(&self, op: &str) {
    }

    fn persist_error(&self, op: &str, err: &str) {
    }
}

/// Trace sink that records nothing.
pub struct NoopTrace;

impl Trace for NoopTrace {
}

} // verus!
