//! Restore the middle-pane view once per session: resume the in-memory
//! view when reconnecting to the backend it belongs to, else load the
//! backend's saved view and apply it (or open the first playlist when
//! nothing was saved).

use vstd::prelude::*;
use crate::dispatch::{
    apply_saved_view, build_saved_view, first_opened, load_step, open_first_playlist, saved_view_applied,
    spec_saved_view,
};
use crate::execute::ref_view;
use crate::persist::{LoadKey, LoadKeyModel, LoadSet, PersistCmd, SavedView, SavedViewModel, ViewLoadResult};
use crate::proto::Playlist;
use crate::state::link::LinkPhase;
use crate::state::sources::Sources;
use crate::text::opt_view;

verus! {

pub struct RestoreSessionInput<'a> {
    pub auto_restored_view: bool,
    pub backend_name: Option<&'a String>,
    pub view_backend: Option<&'a String>,
}

pub struct RestoreLinkInput {
    pub connected: bool,
}

pub struct RestorePlaylistsInput<'a> {
    pub loaded: bool,
    pub items: &'a Vec<Playlist>,
}

pub struct RestorePersistInput<'a> {
    pub last_view_load: Option<&'a ViewLoadResult>,
    pub loads_in_flight: &'a LoadSet,
}

pub enum DesiredRestore {
    Idle,
    Resume { backend: String, first_playlist_id: Option<String> },
    Load { backend: String },
    Apply { backend: String, view: SavedView },
    OpenFirst { backend: String, first_playlist_id: Option<String> },
}

pub enum RestoreAction {
    Noop,
    Resume { backend: String, first_playlist_id: Option<String> },
    Load { backend: String },
    Apply { backend: String, view: SavedView },
    OpenFirst { backend: String, first_playlist_id: Option<String> },
}

pub enum RestoreModel {
    Idle,
    Resume(Seq<char>, Option<Seq<char>>),
    Load(Seq<char>),
    Apply(Seq<char>, SavedViewModel),
    OpenFirst(Seq<char>, Option<Seq<char>>),
}

impl DesiredRestore {
    pub open spec fn model(self) -> RestoreModel {
        match self {
            DesiredRestore::Idle => RestoreModel::Idle,
            DesiredRestore::Resume { backend, first_playlist_id } => RestoreModel::Resume(backend@, opt_view(first_playlist_id)),
            DesiredRestore::Load { backend } => RestoreModel::Load(backend@),
            DesiredRestore::Apply { backend, view } => RestoreModel::Apply(backend@, view.model()),
            DesiredRestore::OpenFirst { backend, first_playlist_id } => RestoreModel::OpenFirst(backend@, opt_view(first_playlist_id)),
        }
    }
}

impl RestoreAction {
    pub open spec fn model(self) -> RestoreModel {
        match self {
            RestoreAction::Noop => RestoreModel::Idle,
            RestoreAction::Resume { backend, first_playlist_id } => RestoreModel::Resume(backend@, opt_view(first_playlist_id)),
            RestoreAction::Load { backend } => RestoreModel::Load(backend@),
            RestoreAction::Apply { backend, view } => RestoreModel::Apply(backend@, view.model()),
            RestoreAction::OpenFirst { backend, first_playlist_id } => RestoreModel::OpenFirst(backend@, opt_view(first_playlist_id)),
        }
    }
}

/// The id of the first listed playlist.
pub open spec fn first_id(items: Seq<Playlist>) -> Option<Seq<char>> {
    if items.len() > 0 { Some(items[0].id@) } else { None }
}

/// The restore the sources call for: nothing once restored or until a
/// backend is connected with its playlists loaded; resume the view in
/// memory when it belongs to this backend; apply (or open the first
/// playlist for) a loaded answer for this backend; otherwise load.
pub open spec fn spec_desired_restore(
    auto_restored_view: bool,
    backend_name: Option<Seq<char>>,
    view_backend: Option<Seq<char>>,
    connected: bool,
    loaded: bool,
    items: Seq<Playlist>,
    last_view_load: Option<ViewLoadResult>,
) -> RestoreModel {
    if auto_restored_view || !connected || !loaded {
        RestoreModel::Idle
    } else {
        match backend_name {
            None => RestoreModel::Idle,
            Some(b) => if view_backend == Some(b) {
                RestoreModel::Resume(b, first_id(items))
            } else {
                match last_view_load {
                    Some(l) => if l.backend@ == b {
                        match l.view {
                            Some(v) => RestoreModel::Apply(b, v.model()),
                            None => RestoreModel::OpenFirst(b, first_id(items)),
                        }
                    } else {
                        RestoreModel::Load(b)
                    },
                    None => RestoreModel::Load(b),
                }
            },
        }
    }
}

fn first_playlist_id(items: &Vec<Playlist>) -> (r: Option<String>)
    ensures
        opt_view(r) == first_id(items@),
{
    if items.len() > 0 { Some(items[0].id.clone()) } else { None }
}

fn copy_saved_view(v: &SavedView) -> (r: SavedView)
    ensures
        r == *v,
{
    match v {
        SavedView::Search { query, search_type, selected, offset, selected_id } => SavedView::Search {
            query: query.clone(),
            search_type: search_type.clone(),
            selected: *selected,
            offset: *offset,
            selected_id: selected_id.clone(),
        },
        SavedView::AlbumDetail { album_id, album_name, selected, offset, selected_id } => SavedView::AlbumDetail {
            album_id: album_id.clone(),
            album_name: album_name.clone(),
            selected: *selected,
            offset: *offset,
            selected_id: selected_id.clone(),
        },
        SavedView::ArtistDetail { artist_id, artist_name, selected, offset } => SavedView::ArtistDetail {
            artist_id: artist_id.clone(),
            artist_name: artist_name.clone(),
            selected: *selected,
            offset: *offset,
        },
        SavedView::Playlist { playlist_id, selected, offset, selected_id } => SavedView::Playlist {
            playlist_id: playlist_id.clone(),
            selected: *selected,
            offset: *offset,
            selected_id: selected_id.clone(),
        },
    }
}

pub fn desired_restore(
    session: &RestoreSessionInput,
    link: &RestoreLinkInput,
    playlists: &RestorePlaylistsInput,
    persist: &RestorePersistInput,
) -> (r: DesiredRestore)
    ensures
        r.model() == spec_desired_restore(
            session.auto_restored_view,
            ref_view(session.backend_name),
            ref_view(session.view_backend),
            link.connected,
            playlists.loaded,
            playlists.items@,
            match persist.last_view_load {
                Some(l) => Some(*l),
                None => None,
            },
        ),
{
    if session.auto_restored_view || !link.connected || !playlists.loaded {
        return DesiredRestore::Idle;
    }
    let backend = match session.backend_name {
        None => return DesiredRestore::Idle,
        Some(b) => b,
    };
    let resume = match session.view_backend {
        Some(v) => crate::text::text_eq(v, backend),
        None => false,
    };
    if resume {
        return DesiredRestore::Resume { backend: backend.clone(), first_playlist_id: first_playlist_id(playlists.items) };
    }
    if let Some(load) = persist.last_view_load {
        if crate::text::text_eq(&load.backend, backend) {
            return match &load.view {
                Some(view) => DesiredRestore::Apply { backend: backend.clone(), view: copy_saved_view(view) },
                None => DesiredRestore::OpenFirst {
                    backend: backend.clone(),
                    first_playlist_id: first_playlist_id(playlists.items),
                },
            };
        }
    }
    DesiredRestore::Load { backend: backend.clone() }
}

/// A load already in flight for the backend turns `Load` into nothing;
/// every other desired restore is the action.
pub open spec fn spec_restore_action(desired: RestoreModel, in_flight: Set<LoadKeyModel>) -> RestoreModel {
    match desired {
        RestoreModel::Load(b) => if in_flight.contains(LoadKeyModel::View(b)) { RestoreModel::Idle } else { desired },
        _ => desired,
    }
}

pub fn restore_action(desired: DesiredRestore, persist: &RestorePersistInput) -> (r: RestoreAction)
    ensures
        r.model() == spec_restore_action(desired.model(), persist.loads_in_flight.contents()),
{
    match desired {
        DesiredRestore::Idle => RestoreAction::Noop,
        DesiredRestore::Resume { backend, first_playlist_id } => RestoreAction::Resume { backend, first_playlist_id },
        DesiredRestore::Load { backend } => {
            if persist.loads_in_flight.contains(&LoadKey::View(backend.clone())) {
                RestoreAction::Noop
            } else {
                RestoreAction::Load { backend }
            }
        },
        DesiredRestore::Apply { backend, view } => RestoreAction::Apply { backend, view },
        DesiredRestore::OpenFirst { backend, first_playlist_id } => RestoreAction::OpenFirst { backend, first_playlist_id },
    }
}

/// The restore step's action on `s`.
pub open spec fn spec_restore_step(s: Sources) -> RestoreModel {
    spec_restore_action(
        spec_desired_restore(
            s.session.auto_restored_view,
            opt_view(s.session.backend_name),
            opt_view(s.session.view_backend),
            s.link.phase == LinkPhase::Connected,
            s.playlists.loaded,
            s.playlists.items@,
            s.persist.last_view_load,
        ),
        s.persist.loads_in_flight.contents(),
    )
}

/// The sources once the session is marked restored for its backend and
/// the loaded answer is dropped.
pub open spec fn restored_mid(pre: Sources) -> Sources {
    Sources {
        session: crate::state::session::UiSession {
            auto_restored_view: true,
            view_backend: pre.session.backend_name,
            ..pre.session
        },
        persist: crate::persist::Persist { last_view_load: None, ..pre.persist },
        ..pre
    }
}

/// Opening the first playlist when there is one; nothing otherwise.
pub open spec fn first_opened_if_any(mid: Sources, post: Sources) -> bool {
    if mid.playlists.items@.len() > 0 {
        first_opened(mid, post, mid.playlists.items@[0].id)
    } else {
        post == mid
    }
}

/// The in-memory view is re-applied, or the first playlist opened when
/// the pane holds no view.
pub open spec fn resumed(mid: Sources, post: Sources) -> bool {
    match spec_saved_view(mid) {
        Some(vm) => exists|v: SavedView| v.model() == vm && #[trigger] saved_view_applied(mid, post, v),
        None => first_opened_if_any(mid, post),
    }
}

fn mark_restored(sources: &mut Sources)
    ensures
        *final(sources) == restored_mid(*old(sources)),
{
    sources.session.auto_restored_view = true;
    sources.session.view_backend = match &sources.session.backend_name {
        Some(b) => Some(b.clone()),
        None => None,
    };
    sources.persist.last_view_load = None;
}

fn open_first_if_any(sources: &mut Sources)
    ensures
        first_opened_if_any(*old(sources), *final(sources)),
{
    if sources.playlists.items.len() > 0 {
        let first = sources.playlists.items[0].id.clone();
        open_first_playlist(sources, first);
    }
}

/// What `apply_restore` does to the sources.
pub open spec fn apply_restore_effect(pre: Sources, post: Sources, cmd: Option<PersistCmd>) -> bool {
    &&& (match spec_restore_step(pre) {
        RestoreModel::Idle => cmd is None && post == pre,
        RestoreModel::Load(b) => load_step(pre, post, LoadKeyModel::View(b), true)
            && (cmd matches Some(PersistCmd::LoadView { backend }) && backend@ == b),
        RestoreModel::Resume(_, _) => cmd is None && resumed(restored_mid(pre), post),
        RestoreModel::Apply(_, _) => cmd is None && saved_view_applied(
            restored_mid(pre),
            post,
            pre.persist.last_view_load->0.view->0,
        ),
        RestoreModel::OpenFirst(_, _) => cmd is None && first_opened_if_any(restored_mid(pre), post),
    })
    &&& (spec_restore_step(post) is Idle)
}

/// Run the restore the sources call for. Resume, apply and open-first
/// mark the session restored for its backend first; a load is issued
/// at most once and its command returned.
pub fn apply_restore(sources: &mut Sources) -> (cmd: Option<PersistCmd>)
    ensures
        apply_restore_effect(*old(sources), *final(sources), cmd),
{
    let action = {
        let session = RestoreSessionInput {
            auto_restored_view: sources.session.auto_restored_view,
            backend_name: sources.session.backend_name.as_ref(),
            view_backend: sources.session.view_backend.as_ref(),
        };
        let link = RestoreLinkInput { connected: sources.link.phase == LinkPhase::Connected };
        let playlists = RestorePlaylistsInput { loaded: sources.playlists.loaded, items: &sources.playlists.items };
        let persist = RestorePersistInput {
            last_view_load: sources.persist.last_view_load.as_ref(),
            loads_in_flight: &sources.persist.loads_in_flight,
        };
        let desired = desired_restore(&session, &link, &playlists, &persist);
        restore_action(desired, &persist)
    };
    match action {
        RestoreAction::Noop => None,
        RestoreAction::Load { backend } => {
            sources.persist.loads_in_flight.insert(LoadKey::View(backend.clone()));
            Some(PersistCmd::LoadView { backend })
        },
        RestoreAction::Resume { .. } => {
            mark_restored(sources);
            let ghost mid = *sources;
            match build_saved_view(sources) {
                Some(view) => {
                    let ghost v = view;
                    apply_saved_view(sources, view);
                    assert(saved_view_applied(mid, *sources, v));
                },
                None => open_first_if_any(sources),
            }
            None
        },
        RestoreAction::Apply { .. } => {
            let view = match &sources.persist.last_view_load {
                Some(ViewLoadResult { view: Some(v), .. }) => copy_saved_view(v),
                _ => return None,
            };
            mark_restored(sources);
            apply_saved_view(sources, view);
            None
        },
        RestoreAction::OpenFirst { .. } => {
            mark_restored(sources);
            open_first_if_any(sources);
            None
        },
    }
}

} // verus!
