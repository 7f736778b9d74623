//! Connection-scoped playlist interest: navigation announces a new
//! playlist at once; a heartbeat keeps the interest alive without
//! fetching the playlist again.

use vstd::prelude::*;
use crate::execute::ref_view;
use crate::proto::ClientMsg;
use crate::state::history::MiddleMode;
use crate::state::link::{sat_add, LinkKind, LinkPhase};
use crate::state::requests::{next_id, PendingRequest};
use crate::state::sources::Sources;
use crate::text::opt_view;

verus! {

/// How often the interest is repeated, in milliseconds.
pub const HEARTBEAT_MS: u64 = 60_000;

pub struct ViewingPlaylistInput<'a> {
    pub connected: bool,
    pub visible: bool,
    pub selected: Option<&'a String>,
}

/// The open playlist, while a client link is up and the playlist is on
/// screen.
pub open spec fn spec_desired_viewing(connected: bool, visible: bool, selected: Option<Seq<char>>) -> Option<Seq<char>> {
    if connected && visible { selected } else { None }
}

pub fn desired_viewing_playlist(input: &ViewingPlaylistInput) -> (r: Option<String>)
    ensures
        opt_view(r) == spec_desired_viewing(input.connected, input.visible, ref_view(input.selected)),
{
    if input.connected && input.visible {
        match input.selected {
            Some(s) => Some(s.clone()),
            None => None,
        }
    } else {
        None
    }
}

pub struct ViewingPlaylistActionInput<'a> {
    pub connected: bool,
    pub desired: Option<&'a String>,
    pub announced: Option<&'a String>,
    pub heartbeat_due: bool,
}

pub enum ViewingPlaylistAction {
    Clear,
    Send(Option<String>),
    Noop,
}

pub enum ViewingActionModel {
    Clear,
    Send(Option<Seq<char>>),
    Noop,
}

impl ViewingPlaylistAction {
    pub open spec fn model(self) -> ViewingActionModel {
        match self {
            ViewingPlaylistAction::Clear => ViewingActionModel::Clear,
            ViewingPlaylistAction::Send(id) => ViewingActionModel::Send(opt_view(id)),
            ViewingPlaylistAction::Noop => ViewingActionModel::Noop,
        }
    }
}

/// Off the link the announcement is forgotten; otherwise announce
/// whenever the desired playlist differs from the announced one or the
/// heartbeat is due.
pub open spec fn spec_viewing_action(
    connected: bool,
    desired: Option<Seq<char>>,
    announced: Option<Seq<char>>,
    heartbeat_due: bool,
) -> ViewingActionModel {
    if !connected {
        ViewingActionModel::Clear
    } else if desired != announced || heartbeat_due {
        ViewingActionModel::Send(desired)
    } else {
        ViewingActionModel::Noop
    }
}

pub fn viewing_playlist_action(input: &ViewingPlaylistActionInput) -> (r: ViewingPlaylistAction)
    ensures
        r.model() == spec_viewing_action(
            input.connected,
            ref_view(input.desired),
            ref_view(input.announced),
            input.heartbeat_due,
        ),
{
    if !input.connected {
        return ViewingPlaylistAction::Clear;
    }
    let same = match (input.desired, input.announced) {
        (None, None) => true,
        (Some(a), Some(b)) => crate::text::text_eq(a, b),
        _ => false,
    };
    if !same || input.heartbeat_due {
        ViewingPlaylistAction::Send(match input.desired {
            Some(d) => Some(d.clone()),
            None => None,
        })
    } else {
        ViewingPlaylistAction::Noop
    }
}

/// A client link is up.
pub open spec fn client_connected(s: Sources) -> bool {
    s.link.phase == LinkPhase::Connected && s.link.kind == Some(LinkKind::Client)
}

/// The playlist the sources want announced.
pub open spec fn desired_of(s: Sources) -> Option<Seq<char>> {
    spec_desired_viewing(client_connected(s), s.history.mode is PlaylistSongs, opt_view(s.playlist_tracks.playlist_id))
}

/// The heartbeat deadline has been reached.
pub open spec fn heartbeat_due(s: Sources) -> bool {
    s.session.viewing_playlist_due matches Some(d) && d <= s.now
}

/// The step's action on `s`.
pub open spec fn spec_viewing_step(s: Sources) -> ViewingActionModel {
    spec_viewing_action(client_connected(s), desired_of(s), opt_view(s.session.viewing_playlist), heartbeat_due(s))
}

pub fn apply_viewing_playlist(sources: &mut Sources)
    ensures
        old(sources).now < u64::MAX - HEARTBEAT_MS ==> match spec_viewing_step(*final(sources)) {
            ViewingActionModel::Noop => true,
            ViewingActionModel::Clear => final(sources).session.viewing_playlist is None
                && final(sources).session.viewing_playlist_due is None,
            ViewingActionModel::Send(_) => false,
        },
        match spec_viewing_step(*old(sources)) {
            ViewingActionModel::Noop => *final(sources) == *old(sources),
            ViewingActionModel::Clear => {
                &&& final(sources).session.viewing_playlist is None
                &&& final(sources).session.viewing_playlist_due is None
                &&& *final(sources) == (Sources { session: final(sources).session, ..*old(sources) })
                &&& final(sources).session == (crate::state::session::UiSession {
                    viewing_playlist: None,
                    viewing_playlist_due: None,
                    ..old(sources).session
                })
            },
            ViewingActionModel::Send(id) => {
                &&& final(sources).requests.pending@.len() == old(sources).requests.pending@.len() + 1
                &&& final(sources).requests.pending@.drop_last() == old(sources).requests.pending@
                &&& final(sources).requests.pending@.last().seq == next_id(old(sources).requests.last_seq)
                &&& final(sources).requests.pending@.last().task_id is None
                &&& final(sources).requests.pending@.last().msg matches ClientMsg::ViewingPlaylist { id: sent }
                    && sent@ == (match id { Some(x) => x, None => Seq::empty() })
                &&& final(sources).requests.last_seq == next_id(old(sources).requests.last_seq)
                &&& final(sources).requests.last_task == old(sources).requests.last_task
                &&& opt_view(final(sources).session.viewing_playlist) == id
                &&& final(sources).session.viewing_playlist_due == (match id {
                    Some(_) => Some(sat_add(old(sources).now, HEARTBEAT_MS)),
                    None => None,
                })
                &&& final(sources).session == (crate::state::session::UiSession {
                    viewing_playlist: final(sources).session.viewing_playlist,
                    viewing_playlist_due: final(sources).session.viewing_playlist_due,
                    ..old(sources).session
                })
                &&& *final(sources) == (Sources {
                    requests: final(sources).requests,
                    session: final(sources).session,
                    ..*old(sources)
                })
            },
        },
{
    let connected = sources.link.phase == LinkPhase::Connected && sources.link.kind == Some(LinkKind::Client);
    let desired = desired_viewing_playlist(&ViewingPlaylistInput {
        connected,
        visible: match sources.history.mode {
            MiddleMode::PlaylistSongs => true,
            _ => false,
        },
        selected: sources.playlist_tracks.playlist_id.as_ref(),
    });
    let due = match sources.session.viewing_playlist_due {
        Some(d) => d <= sources.now,
        None => false,
    };
    let action = viewing_playlist_action(&ViewingPlaylistActionInput {
        connected,
        desired: desired.as_ref(),
        announced: sources.session.viewing_playlist.as_ref(),
        heartbeat_due: due,
    });
    match action {
        ViewingPlaylistAction::Clear => {
            sources.session.viewing_playlist = None;
            sources.session.viewing_playlist_due = None;
        },
        ViewingPlaylistAction::Send(id) => {
            let text = match &id {
                Some(x) => x.clone(),
                None => String::new(),
            };
            sources.requests.push(ClientMsg::ViewingPlaylist { id: text }, None);
            sources.session.viewing_playlist_due = match &id {
                Some(_) => Some(sources.now.saturating_add(HEARTBEAT_MS)),
                None => None,
            };
            sources.session.viewing_playlist = id;
        },
        ViewingPlaylistAction::Noop => {},
    }
}

} // verus!
