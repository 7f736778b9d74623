//! Keep the stored last add-to-playlist target in step with the
//! picker's, per backend, whatever path changed it.

use vstd::prelude::*;
use crate::execute::ref_view;
use crate::persist::PersistCmd;
use crate::state::sources::Sources;
use crate::text::opt_view;

verus! {

pub struct LastAddPickerInput<'a> {
    pub last_add: Option<&'a String>,
}

pub struct LastAddSessionInput<'a> {
    pub backend_name: Option<&'a String>,
}

pub struct LastAddSavedInput<'a> {
    pub saved: Option<&'a String>,
}

pub enum LastAddSaveAction {
    Noop,
    Save { playlist_id: String },
}

/// Save the picker's target while a backend is live and it differs
/// from what was last saved.
pub open spec fn spec_last_add_save(
    backend: Option<Seq<char>>,
    current: Option<Seq<char>>,
    saved: Option<Seq<char>>,
) -> Option<Seq<char>> {
    if backend is None {
        None
    } else {
        match current {
            None => None,
            Some(c) => if saved == Some(c) { None } else { Some(c) },
        }
    }
}

pub fn last_add_save_action(
    picker: &LastAddPickerInput,
    session: &LastAddSessionInput,
    saved: &LastAddSavedInput,
) -> (r: LastAddSaveAction)
    ensures
        match spec_last_add_save(ref_view(session.backend_name), ref_view(picker.last_add), ref_view(saved.saved)) {
            None => r is Noop,
            Some(id) => r matches LastAddSaveAction::Save { playlist_id } && playlist_id@ == id,
        },
{
    if session.backend_name.is_none() {
        return LastAddSaveAction::Noop;
    }
    let current = match picker.last_add {
        None => return LastAddSaveAction::Noop,
        Some(c) => c,
    };
    let same = match saved.saved {
        Some(s) => crate::text::text_eq(s, current),
        None => false,
    };
    if same {
        LastAddSaveAction::Noop
    } else {
        LastAddSaveAction::Save { playlist_id: current.clone() }
    }
}

/// The step on `s`: the id to save, if any.
pub open spec fn spec_last_add_step(s: Sources) -> Option<Seq<char>> {
    spec_last_add_save(
        opt_view(s.session.backend_name),
        opt_view(s.picker.last_add_playlist),
        opt_view(s.persist.last_add_playlist_saved),
    )
}

/// What `apply_last_add_persist` does to the sources.
pub open spec fn apply_last_add_persist_effect(pre: Sources, post: Sources, cmd: Option<PersistCmd>) -> bool {
    &&& (spec_last_add_step(pre) is None ==> cmd is None && post == pre)
    &&& (spec_last_add_step(pre) matches Some(id) ==> {
        &&& cmd matches Some(PersistCmd::SaveLastAddPlaylist { backend, playlist_id })
            && opt_view(pre.session.backend_name) == Some(backend@) && playlist_id@ == id
        &&& opt_view(post.persist.last_add_playlist_saved) == Some(id)
        &&& post.persist == (crate::persist::Persist {
            last_add_playlist_saved: post.persist.last_add_playlist_saved,
            ..pre.persist
        })
        &&& post == (Sources { persist: post.persist, ..pre })
    })
    &&& (spec_last_add_step(post) is None)
}

/// Record the save and return the command that performs it.
pub fn apply_last_add_persist(sources: &mut Sources) -> (cmd: Option<PersistCmd>)
    ensures
        apply_last_add_persist_effect(*old(sources), *final(sources), cmd),
{
    let action = {
        let picker = LastAddPickerInput { last_add: sources.picker.last_add_playlist.as_ref() };
        let session = LastAddSessionInput { backend_name: sources.session.backend_name.as_ref() };
        let saved = LastAddSavedInput { saved: sources.persist.last_add_playlist_saved.as_ref() };
        last_add_save_action(&picker, &session, &saved)
    };
    let playlist_id = match action {
        LastAddSaveAction::Noop => return None,
        LastAddSaveAction::Save { playlist_id } => playlist_id,
    };
    let backend = match &sources.session.backend_name {
        None => return None,
        Some(b) => b.clone(),
    };
    sources.persist.last_add_playlist_saved = Some(playlist_id.clone());
    Some(PersistCmd::SaveLastAddPlaylist { backend, playlist_id })
}

} // verus!
