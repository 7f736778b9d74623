//! Remember each search the user runs in the backend's search history,
//! once per search task.

use vstd::prelude::*;
use crate::persist::PersistCmd;
use crate::proto::{search_type_text, SearchType, TaskId};
use crate::queries::search_type_str;
use crate::state::sources::Sources;
use crate::text::opt_view;

verus! {

/// The search kind, as the push decision reads it.
#[derive(PartialEq, Eq, Structural, Clone, Copy, Debug)]
pub enum SearchTypeProj {
    Song,
    Album,
    Artist,
}

impl SearchTypeProj {
    pub open spec fn of(t: SearchType) -> SearchTypeProj {
        match t {
            SearchType::Song => SearchTypeProj::Song,
            SearchType::Album => SearchTypeProj::Album,
            SearchType::Artist => SearchTypeProj::Artist,
        }
    }

    pub open spec fn kind(self) -> SearchType {
        match self {
            SearchTypeProj::Song => SearchType::Song,
            SearchTypeProj::Album => SearchType::Album,
            SearchTypeProj::Artist => SearchType::Artist,
        }
    }

    pub fn from_type(t: SearchType) -> (r: SearchTypeProj)
        ensures
            r == Self::of(t),
            r.kind() == t,
    {
        match t {
            SearchType::Song => SearchTypeProj::Song,
            SearchType::Album => SearchTypeProj::Album,
            SearchType::Artist => SearchTypeProj::Artist,
        }
    }

    pub fn to_type(self) -> (r: SearchType)
        ensures
            r == self.kind(),
            Self::of(r) == self,
    {
        match self {
            SearchTypeProj::Song => SearchType::Song,
            SearchTypeProj::Album => SearchType::Album,
            SearchTypeProj::Artist => SearchType::Artist,
        }
    }
}

pub struct PushSearchInput<'a> {
    pub task_id: Option<TaskId>,
    pub term: &'a String,
    pub search_type: SearchTypeProj,
}

pub struct PushSessionInput<'a> {
    pub backend_name: Option<&'a String>,
}

pub struct PushPersistInput {
    pub last_pushed_task: Option<TaskId>,
}

pub enum PushAction {
    Noop,
    Push { task_id: TaskId, query: String, search_type: String },
}

/// The task to push: the running search's, while a backend is live,
/// when it was not pushed yet and its term is not empty.
pub open spec fn spec_push_task(
    backend_live: bool,
    task_id: Option<TaskId>,
    last_pushed: Option<TaskId>,
    term: Seq<char>,
) -> Option<TaskId> {
    if !backend_live {
        None
    } else {
        match task_id {
            None => None,
            Some(t) => if last_pushed == Some(t) || term.len() == 0 { None } else { Some(t) },
        }
    }
}

pub fn push_action(search: &PushSearchInput, session: &PushSessionInput, persist: &PushPersistInput) -> (r: PushAction)
    ensures
        match spec_push_task(session.backend_name is Some, search.task_id, persist.last_pushed_task, search.term@) {
            None => r is Noop,
            Some(t) => r matches PushAction::Push { task_id, query, search_type } && task_id == t
                && query@ == search.term@ && search_type@ == search_type_text(search.search_type.kind()),
        },
{
    if session.backend_name.is_none() {
        return PushAction::Noop;
    }
    let task_id = match search.task_id {
        None => return PushAction::Noop,
        Some(t) => t,
    };
    if persist.last_pushed_task == Some(task_id) {
        return PushAction::Noop;
    }
    if search.term.as_str().is_empty() {
        return PushAction::Noop;
    }
    PushAction::Push {
        task_id,
        query: search.term.clone(),
        search_type: search_type_str(search.search_type.to_type()).to_owned(),
    }
}

/// The task the step pushes on `s`, if any.
pub open spec fn spec_search_push_step(s: Sources) -> Option<TaskId> {
    spec_push_task(s.session.backend_name is Some, s.search.task_id, s.persist.last_pushed_search_task, s.search.term@)
}

/// What `apply_search_history_push` does to the sources.
pub open spec fn apply_search_history_push_effect(pre: Sources, post: Sources, cmd: Option<PersistCmd>) -> bool {
    &&& (spec_search_push_step(pre) is None ==> cmd is None && post == pre)
    &&& (spec_search_push_step(pre) matches Some(t) ==> {
        &&& cmd matches Some(PersistCmd::PushSearchHistory { backend, query, search_type })
            && opt_view(pre.session.backend_name) == Some(backend@)
            && query@ == pre.search.term@
            && search_type@ == search_type_text(pre.search.search_type)
        &&& post.persist.last_pushed_search_task == Some(t)
        &&& post.persist == (crate::persist::Persist {
            last_pushed_search_task: Some(t),
            ..pre.persist
        })
        &&& post == (Sources { persist: post.persist, ..pre })
    })
    &&& (spec_search_push_step(post) is None)
}

/// Record the push and return the command that performs it.
pub fn apply_search_history_push(sources: &mut Sources) -> (cmd: Option<PersistCmd>)
    ensures
        apply_search_history_push_effect(*old(sources), *final(sources), cmd),
{
    let action = {
        let search = PushSearchInput {
            task_id: sources.search.task_id,
            term: &sources.search.term,
            search_type: SearchTypeProj::from_type(sources.search.search_type),
        };
        let session = PushSessionInput { backend_name: sources.session.backend_name.as_ref() };
        let persist = PushPersistInput { last_pushed_task: sources.persist.last_pushed_search_task };
        push_action(&search, &session, &persist)
    };
    let (task_id, query, search_type) = match action {
        PushAction::Noop => return None,
        PushAction::Push { task_id, query, search_type } => (task_id, query, search_type),
    };
    let backend = match &sources.session.backend_name {
        None => return None,
        Some(b) => b.clone(),
    };
    sources.persist.last_pushed_search_task = Some(task_id);
    Some(PersistCmd::PushSearchHistory { backend, query, search_type })
}

} // verus!
