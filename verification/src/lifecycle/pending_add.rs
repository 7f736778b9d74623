//! Fire a deferred add-to-playlist once the playlist it waited for
//! appears in the list. The breadcrumb is its own in-flight marker:
//! taking it makes the next tick idle.

use vstd::prelude::*;
use crate::dispatch::fire_deferred_add_to_playlist;
use crate::execute::ref_view;
use crate::proto::Playlist;
use crate::seqs::first_index;
use crate::state::playlists::{find_playlist_named, playlist_named};
use crate::state::sources::Sources;

verus! {

pub struct PendingAddInput<'a> {
    pub pending_name: Option<&'a String>,
}

pub enum DesiredPendingAdd {
    /// No breadcrumb, or its playlist has not landed yet.
    Idle,
    /// The playlist exists: the deferred add goes to this id.
    Ready { playlist_id: String },
}

pub enum PendingAddAction {
    Noop,
    Fire { playlist_id: String },
}

/// The id of the first listed playlist named like the breadcrumb.
pub open spec fn spec_pending_target(pending_name: Option<Seq<char>>, items: Seq<Playlist>) -> Option<Seq<char>> {
    match pending_name {
        None => None,
        Some(name) => match first_index(items, playlist_named(name)) {
            Some(i) => Some(items[i].id@),
            None => None,
        },
    }
}

pub fn desired_pending_add(pending: &PendingAddInput, items: &Vec<Playlist>) -> (r: DesiredPendingAdd)
    ensures
        match spec_pending_target(ref_view(pending.pending_name), items@) {
            None => r is Idle,
            Some(id) => r matches DesiredPendingAdd::Ready { playlist_id } && playlist_id@ == id,
        },
{
    let name = match pending.pending_name {
        None => return DesiredPendingAdd::Idle,
        Some(n) => n,
    };
    match find_playlist_named(items, name) {
        None => DesiredPendingAdd::Idle,
        Some(i) => DesiredPendingAdd::Ready { playlist_id: items[i].id.clone() },
    }
}

pub fn pending_add_action(desired: DesiredPendingAdd) -> (r: PendingAddAction)
    ensures
        desired is Idle ==> r is Noop,
        desired matches DesiredPendingAdd::Ready { playlist_id } ==> r matches PendingAddAction::Fire { playlist_id: p } && p@ == playlist_id@,
{
    match desired {
        DesiredPendingAdd::Idle => PendingAddAction::Noop,
        DesiredPendingAdd::Ready { playlist_id } => PendingAddAction::Fire { playlist_id },
    }
}

/// The breadcrumb's name, if one is set.
pub open spec fn pending_name_of(s: Sources) -> Option<Seq<char>> {
    match s.picker.pending_create_add {
        Some(p) => Some(p.name@),
        None => None,
    }
}

/// The step on `s`: the playlist id the deferred add fires to, if any.
pub open spec fn spec_pending_add_step(s: Sources) -> Option<Seq<char>> {
    spec_pending_target(pending_name_of(s), s.playlists.items@)
}

/// What `apply_pending_add` does to the sources.
pub open spec fn apply_pending_add_effect(pre: Sources, post: Sources) -> bool {
    &&& (spec_pending_add_step(pre) is None ==> post == pre)
    &&& (spec_pending_add_step(pre) matches Some(id) ==> {
        &&& post.picker.pending_create_add is None
        &&& post.picker.last_add_playlist matches Some(l) && l@ == id
        &&& post.requests.pending@.len() == pre.requests.pending@.len() + 1
        &&& post.pending_playlists.adding@.len() == pre.pending_playlists.adding@.len() + 1
    })
    &&& (spec_pending_add_step(post) is None)
}

pub fn apply_pending_add(sources: &mut Sources)
    ensures
        apply_pending_add_effect(*old(sources), *final(sources)),
{
    let desired = {
        let input = PendingAddInput {
            pending_name: match &sources.picker.pending_create_add {
                Some(p) => Some(&p.name),
                None => None,
            },
        };
        desired_pending_add(&input, &sources.playlists.items)
    };
    match pending_add_action(desired) {
        PendingAddAction::Noop => {},
        PendingAddAction::Fire { playlist_id } => {
            fire_deferred_add_to_playlist(sources, playlist_id);
        },
    }
}

} // verus!
