//! Keep the stored view of the active backend in step with the middle
//! pane. The identity of the pane (not the cursor) decides when a save
//! is due; the dedup key written with the save makes the next tick a
//! no-op.

use vstd::prelude::*;
use crate::dispatch::{build_saved_view, spec_saved_view};
use crate::execute::ref_view;
use crate::persist::{PersistCmd, SavedViewKey, SavedViewModel, ViewKeyModel};
use crate::proto::search_type_text;
use crate::queries::search_type_str;
use crate::state::history::MiddleMode;
use crate::state::sources::Sources;
use crate::text::opt_view;

verus! {

/// Which view the middle pane shows, without cursor or payload.
pub enum ModeIdentity {
    PlaylistSongs,
    Search { query: String, search_type: String },
    AlbumDetail { album_id: String },
    ArtistDetail { artist_id: String },
}

/// The text-level identity of a middle-pane mode.
pub enum ModeIdentityModel {
    PlaylistSongs,
    Search(Seq<char>, Seq<char>),
    AlbumDetail(Seq<char>),
    ArtistDetail(Seq<char>),
}

impl ModeIdentity {
    pub open spec fn model(self) -> ModeIdentityModel {
        match self {
            ModeIdentity::PlaylistSongs => ModeIdentityModel::PlaylistSongs,
            ModeIdentity::Search { query, search_type } => ModeIdentityModel::Search(query@, search_type@),
            ModeIdentity::AlbumDetail { album_id } => ModeIdentityModel::AlbumDetail(album_id@),
            ModeIdentity::ArtistDetail { artist_id } => ModeIdentityModel::ArtistDetail(artist_id@),
        }
    }

    pub open spec fn of_mode(m: MiddleMode) -> ModeIdentityModel {
        match m {
            MiddleMode::PlaylistSongs => ModeIdentityModel::PlaylistSongs,
            MiddleMode::SearchResults { term, search_type, .. } => ModeIdentityModel::Search(term@, search_type_text(search_type)),
            MiddleMode::AlbumDetail { album_id, .. } => ModeIdentityModel::AlbumDetail(album_id@),
            MiddleMode::ArtistDetail { artist_id, .. } => ModeIdentityModel::ArtistDetail(artist_id@),
        }
    }

    pub fn new(m: &MiddleMode) -> (r: Self)
        ensures
            r.model() == Self::of_mode(*m),
    {
        match m {
            MiddleMode::PlaylistSongs => ModeIdentity::PlaylistSongs,
            MiddleMode::SearchResults { term, search_type, .. } => ModeIdentity::Search {
                query: term.clone(),
                search_type: search_type_str(*search_type).to_owned(),
            },
            MiddleMode::AlbumDetail { album_id, .. } => ModeIdentity::AlbumDetail { album_id: album_id.clone() },
            MiddleMode::ArtistDetail { artist_id, .. } => ModeIdentity::ArtistDetail { artist_id: artist_id.clone() },
        }
    }
}

pub struct ViewModeInput {
    pub mode: ModeIdentity,
}

pub struct ViewPlaylistInput<'a> {
    pub playlist_id: Option<&'a String>,
}

pub struct ViewSessionInput<'a> {
    pub backend_name: Option<&'a String>,
    pub auto_restored_view: bool,
}

pub struct ViewLastSavedInput<'a> {
    pub last: Option<&'a SavedViewKey>,
}

/// The key of the view the pane shows: the open playlist in the
/// playlist pane (none while no playlist is open), else the mode's own
/// identity.
pub open spec fn spec_desired_view_key(mode: ModeIdentityModel, playlist_id: Option<Seq<char>>) -> Option<ViewKeyModel> {
    match mode {
        ModeIdentityModel::PlaylistSongs => match playlist_id {
            Some(id) => Some(ViewKeyModel::Playlist { playlist_id: id }),
            None => None,
        },
        ModeIdentityModel::Search(q, t) => Some(ViewKeyModel::Search { query: q, search_type: t }),
        ModeIdentityModel::AlbumDetail(a) => Some(ViewKeyModel::AlbumDetail { album_id: a }),
        ModeIdentityModel::ArtistDetail(a) => Some(ViewKeyModel::ArtistDetail { artist_id: a }),
    }
}

pub open spec fn opt_key_model(k: Option<SavedViewKey>) -> Option<ViewKeyModel> {
    match k {
        Some(x) => Some(x.model()),
        None => None,
    }
}

pub fn desired_view_key(mode: ViewModeInput, playlist: &ViewPlaylistInput) -> (r: Option<SavedViewKey>)
    ensures
        opt_key_model(r) == spec_desired_view_key(mode.mode.model(), ref_view(playlist.playlist_id)),
{
    match mode.mode {
        ModeIdentity::PlaylistSongs => match playlist.playlist_id {
            Some(id) => Some(SavedViewKey::Playlist { playlist_id: id.clone() }),
            None => None,
        },
        ModeIdentity::Search { query, search_type } => Some(SavedViewKey::Search { query, search_type }),
        ModeIdentity::AlbumDetail { album_id } => Some(SavedViewKey::AlbumDetail { album_id }),
        ModeIdentity::ArtistDetail { artist_id } => Some(SavedViewKey::ArtistDetail { artist_id }),
    }
}

pub enum ViewSaveAction {
    Noop,
    Save,
}

/// Save once the session's view was restored, while a backend is
/// live, when the pane shows a view other than the one last saved.
pub open spec fn spec_view_save(
    desired: Option<ViewKeyModel>,
    backend: Option<Seq<char>>,
    auto_restored_view: bool,
    last: Option<ViewKeyModel>,
) -> bool {
    &&& backend is Some
    &&& auto_restored_view
    &&& desired is Some
    &&& last != desired
}

pub fn view_save_action(desired: &Option<SavedViewKey>, session: &ViewSessionInput, last: &ViewLastSavedInput) -> (r: ViewSaveAction)
    ensures
        r is Save <==> spec_view_save(opt_key_model(*desired), ref_view(session.backend_name), session.auto_restored_view, match last.last {
            Some(k) => Some(k.model()),
            None => None,
        }),
{
    if session.backend_name.is_none() || !session.auto_restored_view {
        return ViewSaveAction::Noop;
    }
    let d = match desired {
        None => return ViewSaveAction::Noop,
        Some(d) => d,
    };
    match last.last {
        Some(l) => if l.same(d) { ViewSaveAction::Noop } else { ViewSaveAction::Save },
        None => ViewSaveAction::Save,
    }
}

/// The key the pane's view has on `s`.
pub open spec fn desired_key_of(s: Sources) -> Option<ViewKeyModel> {
    spec_desired_view_key(ModeIdentity::of_mode(s.history.mode), opt_view(s.playlist_tracks.playlist_id))
}

/// Whether the step saves on `s`.
pub open spec fn spec_view_persist_step(s: Sources) -> bool {
    spec_view_save(
        desired_key_of(s),
        opt_view(s.session.backend_name),
        s.session.auto_restored_view,
        opt_key_model(s.persist.last_view_saved_key),
    )
}

/// The identity of a saved view's content.
pub open spec fn key_of_model(v: SavedViewModel) -> ViewKeyModel {
    match v {
        SavedViewModel::Search { query, search_type, .. } => ViewKeyModel::Search { query, search_type },
        SavedViewModel::AlbumDetail { album_id, .. } => ViewKeyModel::AlbumDetail { album_id },
        SavedViewModel::ArtistDetail { artist_id, .. } => ViewKeyModel::ArtistDetail { artist_id },
        SavedViewModel::Playlist { playlist_id, .. } => ViewKeyModel::Playlist { playlist_id },
    }
}

/// The view built for saving has exactly the identity that decided the
/// save.
pub proof fn lemma_saved_view_has_desired_key(s: Sources)
    ensures
        match spec_saved_view(s) {
            Some(v) => desired_key_of(s) == Some(key_of_model(v)),
            None => desired_key_of(s) is None,
        },
{
}

/// What `apply_view_persist` does to the sources.
pub open spec fn apply_view_persist_effect(pre: Sources, post: Sources, cmd: Option<PersistCmd>) -> bool {
    &&& (!spec_view_persist_step(pre) ==> cmd is None && post == pre)
    &&& (spec_view_persist_step(pre) ==> {
        &&& cmd matches Some(PersistCmd::SaveView { backend, view })
            && opt_view(pre.session.backend_name) == Some(backend@)
            && spec_saved_view(pre) == Some(view.model())
        &&& opt_key_model(post.persist.last_view_saved_key) == desired_key_of(pre)
        &&& post.persist == (crate::persist::Persist {
            last_view_saved_key: post.persist.last_view_saved_key,
            ..pre.persist
        })
        &&& post == (Sources { persist: post.persist, ..pre })
    })
    &&& (!spec_view_persist_step(post))
}

/// Save the pane's view for the live backend when due: record its key
/// and return the command that stores it.
pub fn apply_view_persist(sources: &mut Sources) -> (cmd: Option<PersistCmd>)
    ensures
        apply_view_persist_effect(*old(sources), *final(sources), cmd),
{
    let action = {
        let desired = desired_view_key(
            ViewModeInput { mode: ModeIdentity::new(&sources.history.mode) },
            &ViewPlaylistInput { playlist_id: sources.playlist_tracks.playlist_id.as_ref() },
        );
        let session = ViewSessionInput {
            backend_name: sources.session.backend_name.as_ref(),
            auto_restored_view: sources.session.auto_restored_view,
        };
        let last = ViewLastSavedInput { last: sources.persist.last_view_saved_key.as_ref() };
        view_save_action(&desired, &session, &last)
    };
    match action {
        ViewSaveAction::Noop => return None,
        ViewSaveAction::Save => {},
    }
    proof {
        lemma_saved_view_has_desired_key(*sources);
    }
    let view = match build_saved_view(sources) {
        None => return None,
        Some(v) => v,
    };
    let backend = match &sources.session.backend_name {
        None => return None,
        Some(b) => b.clone(),
    };
    sources.persist.last_view_saved_key = Some(view.key());
    Some(PersistCmd::SaveView { backend, view })
}

} // verus!
