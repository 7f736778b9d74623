//! The running (or last) search and its streamed result pages.

use vstd::prelude::*;
use crate::proto::{Album, Artist, SearchResults, SearchType, Song, TaskId};

verus! {

/// The search source.
pub struct Search {
    pub term: String,
    pub search_type: SearchType,
    /// Task of the search in flight.
    pub task_id: Option<TaskId>,
    pub songs: Vec<Song>,
    pub albums: Vec<Album>,
    pub artists: Vec<Artist>,
    pub first_page_received: bool,
    /// The empty-result reopen has already fired for this search.
    pub empty_reopen_done: bool,
    /// A search was interrupted before it completed.
    pub stale: bool,
}

impl Search {
    pub fn new() -> (s: Self)
        ensures
            s.term@.len() == 0,
            s.search_type == SearchType::Song,
            s.task_id is None,
            s.songs@.len() == 0 && s.albums@.len() == 0 && s.artists@.len() == 0,
            !s.first_page_received,
            !s.empty_reopen_done,
            !s.stale,
    {
        Search {
            term: String::new(),
            search_type: SearchType::Song,
            task_id: None,
            songs: Vec::new(),
            albums: Vec::new(),
            artists: Vec::new(),
            first_page_received: false,
            empty_reopen_done: false,
            stale: false,
        }
    }

    /// Start a fresh search under `task_id`: results, first-page flag,
    /// reopen gate and staleness all reset.
    pub fn begin(&mut self, task_id: TaskId, term: String, search_type: SearchType)
        ensures
            final(self).term@ == term@,
            final(self).search_type == search_type,
            final(self).task_id == Some(task_id),
            final(self).songs@.len() == 0 && final(self).albums@.len() == 0 && final(self).artists@.len() == 0,
            !final(self).first_page_received,
            !final(self).empty_reopen_done,
            !final(self).stale,
    {
        self.term = term;
        self.search_type = search_type;
        self.task_id = Some(task_id);
        self.songs = Vec::new();
        self.albums = Vec::new();
        self.artists = Vec::new();
        self.first_page_received = false;
        self.empty_reopen_done = false;
        self.stale = false;
    }

    /// Drop the results and the task handle. A search that was still
    /// running keeps its term and kind and is marked stale, so it is
    /// issued again once the server is back.
    pub fn clear(&mut self)
        ensures
            final(self).task_id is None,
            final(self).songs@.len() == 0 && final(self).albums@.len() == 0 && final(self).artists@.len() == 0,
            !final(self).first_page_received,
            final(self).stale == (old(self).task_id is Some || old(self).stale),
            final(self).term@ == old(self).term@,
            final(self).search_type == old(self).search_type,
            final(self).empty_reopen_done == old(self).empty_reopen_done,
    {
        let interrupted = self.task_id.is_some();
        self.task_id = None;
        self.songs = Vec::new();
        self.albums = Vec::new();
        self.artists = Vec::new();
        self.first_page_received = false;
        self.stale = interrupted || self.stale;
    }

    /// The first page of task `task_id` arrived: when it is the running
    /// search, the page becomes its results.
    pub fn set_first_page(&mut self, task_id: TaskId, page: SearchResults)
        ensures
            old(self).task_id == Some(task_id) ==> {
                &&& final(self).songs@ == page.songs@
                &&& final(self).albums@ == page.albums@
                &&& final(self).artists@ == page.artists@
                &&& final(self).first_page_received
                &&& *final(self) == (Search {
                    songs: final(self).songs,
                    albums: final(self).albums,
                    artists: final(self).artists,
                    first_page_received: true,
                    ..*old(self)
                })
            },
            old(self).task_id != Some(task_id) ==> *final(self) == *old(self),
    {
        if self.task_id == Some(task_id) {
            self.songs = page.songs;
            self.albums = page.albums;
            self.artists = page.artists;
            self.first_page_received = true;
        }
    }

    /// A further page of task `task_id` arrived: when it is the running
    /// search, its rows are appended.
    pub fn append(&mut self, task_id: TaskId, page: SearchResults)
        ensures
            old(self).task_id == Some(task_id) ==> {
                &&& final(self).songs@ == old(self).songs@ + page.songs@
                &&& final(self).albums@ == old(self).albums@ + page.albums@
                &&& final(self).artists@ == old(self).artists@ + page.artists@
                &&& *final(self) == (Search {
                    songs: final(self).songs,
                    albums: final(self).albums,
                    artists: final(self).artists,
                    ..*old(self)
                })
            },
            old(self).task_id != Some(task_id) ==> *final(self) == *old(self),
    {
        if self.task_id == Some(task_id) {
            let mut page = page;
            self.songs.append(&mut page.songs);
            self.albums.append(&mut page.albums);
            self.artists.append(&mut page.artists);
        }
    }

    /// The first page has arrived and it holds nothing.
    pub open spec fn spec_first_page_empty(self) -> bool {
        &&& self.first_page_received
        &&& self.songs@.len() == 0
        &&& self.albums@.len() == 0
        &&& self.artists@.len() == 0
    }

    pub fn first_page_empty(&self) -> (r: bool)
        ensures
            r == self.spec_first_page_empty(),
    {
        self.first_page_received && self.songs.len() == 0 && self.albums.len() == 0 && self.artists.len() == 0
    }

    /// The task `tid` finished: it no longer holds the search open.
    pub fn mark_completed(&mut self, tid: TaskId)
        ensures
            *final(self) == (Search {
                task_id: if old(self).task_id == Some(tid) { None } else { old(self).task_id },
                ..*old(self)
            }),
    {
        if self.task_id == Some(tid) {
            self.task_id = None;
        }
    }
}

} // verus!
