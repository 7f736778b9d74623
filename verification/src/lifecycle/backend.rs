//! Keep `session.backend_name` in step with the link: set it when a
//! probe identifies the connected server, clear it (remembering the
//! lost server) when the link closes.

use vstd::prelude::*;
use crate::execute::ref_view;
use crate::persist::PersistCmd;
use crate::seqs::{first_index, lemma_is_first_index, lemma_none_index};
use crate::state::discovery::ServerAd;
use crate::state::link::{Link, LinkPhase};
use crate::state::probes::{fingerprint_of, ProbeEntry, ProbeOutcome, Probes};
use crate::state::sources::Sources;

verus! {

/// Projection of the link.
pub struct LinkConnectedInput<'a> {
    pub closed: bool,
    pub connected: bool,
    pub target_fp: Option<&'a String>,
}

impl<'a> LinkConnectedInput<'a> {
    pub fn new(l: &'a Link) -> (r: Self)
        ensures
            r.closed == (l.phase == LinkPhase::Closed),
            r.connected == (l.phase == LinkPhase::Connected),
            ref_view(r.target_fp) == crate::text::opt_view(l.target),
    {
        LinkConnectedInput {
            closed: l.phase == LinkPhase::Closed,
            connected: l.phase == LinkPhase::Connected,
            target_fp: l.target.as_ref(),
        }
    }
}

/// Projection of the session.
pub struct BackendNameInput<'a> {
    pub backend_name: Option<&'a String>,
    /// Server the retained view belongs to while the link is down.
    pub lost_server: Option<&'a String>,
}

/// What `backend_name` should be.
pub enum DesiredBackend {
    Connected { name: String },
    Disconnected,
    Unknown,
}

pub enum DesiredBackendModel {
    Connected(Seq<char>),
    Disconnected,
    Unknown,
}

impl DesiredBackend {
    pub open spec fn model(self) -> DesiredBackendModel {
        match self {
            DesiredBackend::Connected { name } => DesiredBackendModel::Connected(name@),
            DesiredBackend::Disconnected => DesiredBackendModel::Disconnected,
            DesiredBackend::Unknown => DesiredBackendModel::Unknown,
        }
    }
}

/// The diff against the session.
pub enum BackendAction {
    Noop,
    /// A backend connected; `drop_retained` discards the view kept
    /// across a drop when it belongs to another server.
    Adopt { name: String, drop_retained: bool },
    /// The link closed while `old` was live.
    Clear { old: String },
}

pub enum BackendActionModel {
    Noop,
    Adopt(Seq<char>, bool),
    Clear(Seq<char>),
}

impl BackendAction {
    pub open spec fn model(self) -> BackendActionModel {
        match self {
            BackendAction::Noop => BackendActionModel::Noop,
            BackendAction::Adopt { name, drop_retained } => BackendActionModel::Adopt(name@, drop_retained),
            BackendAction::Clear { old } => BackendActionModel::Clear(old@),
        }
    }
}

/// Whether a discovered server's address probed to fingerprint `fp`.
pub open spec fn probed_as(probes: Seq<ProbeEntry>, fp: Seq<char>) -> spec_fn(ServerAd) -> bool {
    |s: ServerAd| fingerprint_of(probes, s.spec_endpoint()) == Some(fp)
}

/// Which server the link is talking to, named by the first discovered
/// server whose probe produced the link's fingerprint.
pub open spec fn spec_desired_backend(
    closed: bool,
    connected: bool,
    target: Option<Seq<char>>,
    servers: Seq<ServerAd>,
    probes: Seq<ProbeEntry>,
) -> DesiredBackendModel {
    if closed {
        DesiredBackendModel::Disconnected
    } else if !connected {
        DesiredBackendModel::Unknown
    } else {
        match target {
            None => DesiredBackendModel::Unknown,
            Some(fp) => match first_index(servers, probed_as(probes, fp)) {
                Some(i) => DesiredBackendModel::Connected(servers[i].name@),
                None => DesiredBackendModel::Unknown,
            },
        }
    }
}

pub fn desired_backend(link: &LinkConnectedInput, servers: &Vec<ServerAd>, probes: &Probes) -> (r: DesiredBackend)
    ensures
        r.model() == spec_desired_backend(link.closed, link.connected, ref_view(link.target_fp), servers@, probes.by_addr@),
{
    if link.closed {
        return DesiredBackend::Disconnected;
    }
    if !link.connected {
        return DesiredBackend::Unknown;
    }
    let fp = match link.target_fp {
        None => return DesiredBackend::Unknown,
        Some(fp) => fp,
    };
    let mut i: usize = 0;
    while i < servers.len()
        invariant
            i <= servers@.len(),
            !link.closed,
            link.connected,
            ref_view(link.target_fp) == Some(fp@),
            forall|j: int| 0 <= j < i ==> !probed_as(probes.by_addr@, fp@)(servers@[j]),
        decreases servers@.len() - i,
    {
        let hit = match probes.get(servers[i].endpoint()) {
            Some(ProbeOutcome::Fingerprint(o)) => crate::text::text_eq(o, fp),
            _ => false,
        };
        if hit {
            proof {
                assert(probed_as(probes.by_addr@, fp@)(servers@[i as int]));
                lemma_is_first_index(servers@, probed_as(probes.by_addr@, fp@), i as int);
            }
            let name = crate::text::copy_string(&servers[i].name);
            return DesiredBackend::Connected { name };
        }
        i = i + 1;
    }
    proof {
        lemma_none_index(servers@, probed_as(probes.by_addr@, fp@));
    }
    DesiredBackend::Unknown
}

/// The backend rule: a new backend is set, a closed link clears the
/// live one.
pub open spec fn spec_backend_action(
    desired: DesiredBackendModel,
    backend_name: Option<Seq<char>>,
    lost_server: Option<Seq<char>>,
) -> BackendActionModel {
    match desired {
        DesiredBackendModel::Connected(name) => match backend_name {
            None => BackendActionModel::Adopt(name, lost_server is Some && lost_server->0 != name),
            Some(cur) => if cur != name {
                BackendActionModel::Adopt(name, true)
            } else {
                BackendActionModel::Noop
            },
        },
        DesiredBackendModel::Disconnected => match backend_name {
            Some(cur) => BackendActionModel::Clear(cur),
            None => BackendActionModel::Noop,
        },
        DesiredBackendModel::Unknown => BackendActionModel::Noop,
    }
}

pub fn backend_action(desired: DesiredBackend, current: &BackendNameInput) -> (r: BackendAction)
    ensures
        r.model() == spec_backend_action(desired.model(), ref_view(current.backend_name), ref_view(current.lost_server)),
{
    match desired {
        DesiredBackend::Connected { name } => match current.backend_name {
            None => {
                let drop_retained = match current.lost_server {
                    Some(lost) => !crate::text::text_eq(lost, &name),
                    None => false,
                };
                BackendAction::Adopt { name, drop_retained }
            },
            Some(cur) => {
                if !crate::text::text_eq(cur, &name) {
                    BackendAction::Adopt { name, drop_retained: true }
                } else {
                    BackendAction::Noop
                }
            },
        },
        DesiredBackend::Disconnected => match current.backend_name {
            Some(cur) => BackendAction::Clear { old: cur.clone() },
            None => BackendAction::Noop,
        },
        DesiredBackend::Unknown => BackendAction::Noop,
    }
}

/// The backend step's action on `s`.
pub open spec fn spec_backend_step(s: Sources) -> BackendActionModel {
    spec_backend_action(
        spec_desired_backend(
            s.link.phase == LinkPhase::Closed,
            s.link.phase == LinkPhase::Connected,
            crate::text::opt_view(s.link.target),
            s.discovery.servers@,
            s.probes.by_addr@,
        ),
        crate::text::opt_view(s.session.backend_name),
        crate::text::opt_view(s.session.lost_server),
    )
}

/// What `apply_backend` does to the sources.
pub open spec fn apply_backend_effect(pre: Sources, post: Sources, cmds: Vec<PersistCmd>) -> bool {
    &&& (match spec_backend_step(pre) {
        BackendActionModel::Noop => cmds@.len() == 0 && post == pre,
        BackendActionModel::Adopt(name, drop_retained) => {
            &&& crate::text::opt_view(post.session.backend_name) == Some(name)
            &&& post.session.lost_server is None
            &&& !post.session.auto_restored_view
            &&& post.persist.last_view_saved_key is None
            &&& post.persist.last_add_playlist_saved is None
            &&& post.persist.last_pushed_search_task is None
            &&& cmds@.len() >= 1
            &&& (cmds@[0] matches PersistCmd::SaveLastServer { name: n } && n@ == name)
            &&& drop_retained ==> post.playlists.is_reset() && post.playlist_tracks.is_reset()
                && post.server.is_reset() && post.queue.items@.len() == 0
            &&& !drop_retained ==> post.playlists == pre.playlists
                && post.playlist_tracks == pre.playlist_tracks
                && post.server == pre.server
            &&& post.link == pre.link
            &&& post.discovery == pre.discovery
            &&& post.probes == pre.probes
            &&& post.screen == pre.screen
            &&& post.intent == pre.intent
        },
        BackendActionModel::Clear(old_name) => {
            &&& cmds@.len() == 0
            &&& crate::text::opt_view(post.session.lost_server) == Some(old_name)
            &&& post.session.backend_name is None
            &&& post.session.auto_connect
            &&& !post.session.auto_restored_view
            &&& post.persist.last_view_saved_key is None
            &&& post.persist.last_add_playlist_saved is None
            &&& post.persist.last_pushed_search_task is None
            &&& post.link == pre.link
            &&& post.discovery == pre.discovery
            &&& post.probes == pre.probes
            &&& post.playlists == pre.playlists
            &&& post.screen == pre.screen
            &&& post.intent == pre.intent
        },
    })
}

/// Apply the backend action: on `Adopt` write the new backend, drop a
/// foreign retained view, reset the per-backend save guards and return
/// the persist commands (save the last server, load the add target);
/// on `Clear` remember the lost server and re-arm auto-connect.
pub fn apply_backend(sources: &mut Sources) -> (cmds: Vec<PersistCmd>)
    ensures
        apply_backend_effect(*old(sources), *final(sources), cmds),
{
    let action = {
        let desired = desired_backend(
            &LinkConnectedInput::new(&sources.link),
            &sources.discovery.servers,
            &sources.probes,
        );
        backend_action(
            desired,
            &BackendNameInput {
                backend_name: sources.session.backend_name.as_ref(),
                lost_server: sources.session.lost_server.as_ref(),
            },
        )
    };
    let mut cmds: Vec<PersistCmd> = Vec::new();
    match action {
        BackendAction::Noop => {},
        BackendAction::Adopt { name, drop_retained } => {
            if drop_retained {
                sources.server = crate::state::server::ServerState::new();
                sources.queue = crate::state::server::Queue::new();
                sources.playlists = crate::state::playlists::Playlists::new();
                sources.playlist_tracks.clear();
                sources.search.clear();
            }
            sources.session.backend_name = Some(name.clone());
            sources.session.lost_server = None;
            sources.session.auto_restored_view = false;
            sources.persist.last_view_saved_key = None;
            sources.persist.last_add_playlist_saved = None;
            sources.persist.last_pushed_search_task = None;
            cmds.push(PersistCmd::SaveLastServer { name: name.clone() });
            if let Some(c) = crate::dispatch::request_load_last_add_playlist(sources, name) {
                cmds.push(c);
            }
        },
        BackendAction::Clear { old } => {
            sources.session.lost_server = Some(old);
            sources.session.backend_name = None;
            sources.session.auto_connect = true;
            sources.session.auto_restored_view = false;
            sources.persist.last_view_saved_key = None;
            sources.persist.last_add_playlist_saved = None;
            sources.persist.last_pushed_search_task = None;
        },
    }
    cmds
}

} // verus!
