//! Auto-connect: dial the preferred server, the server we lost, or
//! the only server on the network on first run.
//!
//! The preferred server gets a grace period to appear in mDNS before
//! the lost-server and single-server rules take over.

use vstd::prelude::*;
use crate::execute::ref_view;
use crate::state::discovery::{find_server, has_server_named, ServerAd};
use crate::state::link::{Link, LinkPhase};
use crate::state::session::UiSession;
use crate::state::sources::Sources;

verus! {

/// How long the preferred server may take to show up, in milliseconds.
pub const GRACE_MS: u64 = 30000;

/// Projection of the session.
pub struct ConnectSessionInput<'a> {
    pub auto_connect: bool,
    pub preferred_server: Option<&'a String>,
    pub lost_server: Option<&'a String>,
    /// The grace for the preferred server has lapsed.
    pub grace_expired: bool,
}

/// Whether the grace period that started at `started_at` has lapsed at `now`.
pub open spec fn grace_lapsed(started_at: u64, now: u64) -> bool {
    now >= started_at && now - started_at >= GRACE_MS
}

impl<'a> ConnectSessionInput<'a> {
    pub fn new(s: &'a UiSession, now: u64) -> (r: Self)
        ensures
            r.auto_connect == s.auto_connect,
            ref_view(r.preferred_server) == crate::text::opt_view(s.preferred_server),
            ref_view(r.lost_server) == crate::text::opt_view(s.lost_server),
            r.grace_expired == grace_lapsed(s.started_at, now),
    {
        ConnectSessionInput {
            auto_connect: s.auto_connect,
            preferred_server: s.preferred_server.as_ref(),
            lost_server: s.lost_server.as_ref(),
            grace_expired: now >= s.started_at && now - s.started_at >= GRACE_MS,
        }
    }
}

/// Projection of the link.
pub struct ConnectLinkInput {
    pub idle: bool,
    /// The reconnect backoff has lapsed.
    pub retry_allowed: bool,
}

impl ConnectLinkInput {
    pub fn new(l: &Link, now: u64) -> (r: Self)
        ensures
            r.idle == (l.phase == LinkPhase::Idle),
            r.retry_allowed == l.spec_retry_allowed(now),
    {
        ConnectLinkInput { idle: l.phase == LinkPhase::Idle, retry_allowed: l.retry_allowed(now) }
    }
}

/// Whom we should be dialing.
pub enum DesiredConnect {
    Idle,
    Wait,
    TryConnect { server: String, clear_auto_connect: bool },
}

pub enum ConnectModel {
    Idle,
    Wait,
    Try(Seq<char>, bool),
}

impl DesiredConnect {
    pub open spec fn model(self) -> ConnectModel {
        match self {
            DesiredConnect::Idle => ConnectModel::Idle,
            DesiredConnect::Wait => ConnectModel::Wait,
            DesiredConnect::TryConnect { server, clear_auto_connect } => ConnectModel::Try(server@, clear_auto_connect),
        }
    }
}

/// The diff against the link.
pub enum ConnectAction {
    Noop,
    Connect { server: String, clear_auto_connect: bool },
}

/// The auto-connect rule.
pub open spec fn spec_desired_connect(
    auto_connect: bool,
    preferred: Option<Seq<char>>,
    lost: Option<Seq<char>>,
    grace_expired: bool,
    servers: Seq<ServerAd>,
) -> ConnectModel {
    if !auto_connect {
        ConnectModel::Idle
    } else if preferred is Some && has_server_named(servers, preferred->0) {
        ConnectModel::Try(preferred->0, true)
    } else if preferred is Some && !grace_expired {
        ConnectModel::Wait
    } else if lost is Some {
        if has_server_named(servers, lost->0) {
            ConnectModel::Try(lost->0, false)
        } else {
            ConnectModel::Wait
        }
    } else if preferred is None && servers.len() == 1 {
        ConnectModel::Try(servers[0].name@, true)
    } else {
        ConnectModel::Idle
    }
}

pub fn desired_connect(session: &ConnectSessionInput, servers: &Vec<ServerAd>) -> (r: DesiredConnect)
    ensures
        r.model() == spec_desired_connect(
            session.auto_connect,
            ref_view(session.preferred_server),
            ref_view(session.lost_server),
            session.grace_expired,
            servers@,
        ),
{
    if !session.auto_connect {
        return DesiredConnect::Idle;
    }
    if let Some(name) = session.preferred_server {
        if find_server(servers, name).is_some() {
            return DesiredConnect::TryConnect { server: name.clone(), clear_auto_connect: true };
        }
        if !session.grace_expired {
            return DesiredConnect::Wait;
        }
    }
    if let Some(name) = session.lost_server {
        if find_server(servers, name).is_some() {
            return DesiredConnect::TryConnect { server: name.clone(), clear_auto_connect: false };
        }
        return DesiredConnect::Wait;
    }
    if session.preferred_server.is_none() && servers.len() == 1 {
        return DesiredConnect::TryConnect { server: servers[0].name.clone(), clear_auto_connect: true };
    }
    DesiredConnect::Idle
}

/// Connect only from an idle link whose backoff has lapsed.
pub fn connect_action(desired: DesiredConnect, link: &ConnectLinkInput) -> (r: ConnectAction)
    ensures
        (!link.idle || !link.retry_allowed) ==> r is Noop,
        (link.idle && link.retry_allowed) ==> match desired {
            DesiredConnect::TryConnect { server, clear_auto_connect } => r matches ConnectAction::Connect { server: s, clear_auto_connect: c }
                && s@ == server@ && c == clear_auto_connect,
            _ => r is Noop,
        },
{
    if !link.idle || !link.retry_allowed {
        return ConnectAction::Noop;
    }
    match desired {
        DesiredConnect::TryConnect { server, clear_auto_connect } => ConnectAction::Connect { server, clear_auto_connect },
        _ => ConnectAction::Noop,
    }
}

/// The connect step's action on `s`.
pub open spec fn spec_connect_step(s: Sources) -> Option<(Seq<char>, bool)> {
    if !(s.link.phase == LinkPhase::Idle && s.link.spec_retry_allowed(s.now)) {
        None
    } else {
        match spec_desired_connect(
            s.session.auto_connect,
            crate::text::opt_view(s.session.preferred_server),
            crate::text::opt_view(s.session.lost_server),
            grace_lapsed(s.session.started_at, s.now),
            s.discovery.servers@,
        ) {
            ConnectModel::Try(n, c) => Some((n, c)),
            _ => None,
        }
    }
}

/// What `apply_connect` does to the sources.
pub open spec fn apply_connect_effect(pre: Sources, post: Sources) -> bool {
    &&& (match spec_connect_step(pre) {
        None => post == pre,
        Some((n, c)) => {
            &&& crate::text::opt_view(post.intent.target) == Some(n)
            &&& post.intent.pair_target is None
            &&& post.session.auto_connect == (pre.session.auto_connect && !c)
            &&& post == Sources {
                intent: post.intent,
                session: crate::state::session::UiSession { auto_connect: post.session.auto_connect, ..pre.session },
                ..pre
            }
        },
    })
}

/// Write the auto-connect target into the intent.
pub fn apply_connect(sources: &mut Sources)
    ensures
        apply_connect_effect(*old(sources), *final(sources)),
{
    let action = {
        let si = ConnectSessionInput::new(&sources.session, sources.now);
        let desired = desired_connect(&si, &sources.discovery.servers);
        connect_action(desired, &ConnectLinkInput::new(&sources.link, sources.now))
    };
    match action {
        ConnectAction::Noop => {},
        ConnectAction::Connect { server, clear_auto_connect } => {
            sources.intent.target = Some(server);
            sources.intent.pair_target = None;
            if clear_auto_connect {
                sources.session.auto_connect = false;
            }
        },
    }
}

} // verus!
