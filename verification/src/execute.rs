//! The link's "what should be true / what to do" pair: `desired_link`
//! reads the user's intent, `link_action` diffs it against the live
//! link, discovery, probes and stored credentials, and `apply_link`
//! writes the intent synchronously and hands back the command to ship.

use vstd::prelude::*;
use crate::link_driver::LinkCmd;
use crate::state::credentials::{cred_of, Credentials, PairingEntry};
use crate::state::discovery::{find_first_name, find_server, lemma_find_is_first, lemma_first_is_find, lemma_none_is_find, Endpoint, ServerAd};
use crate::state::link::{LinkKind, LinkPhase};
use crate::state::pairing::PairingPhase;
use crate::state::probes::{probe_of, ProbeOutcome, Probes};
use crate::state::sources::Sources;

verus! {

/// What the user (and the pairing-survival rule) want the link to be.
pub enum DesiredLink {
    Closed,
    Client { server_name: String },
    Pairing { server_name: String },
}

/// The text-level content of a desired link.
pub enum DesiredLinkModel {
    Closed,
    Client(Seq<char>),
    Pairing(Seq<char>),
}

impl DesiredLink {
    pub open spec fn model(self) -> DesiredLinkModel {
        match self {
            DesiredLink::Closed => DesiredLinkModel::Closed,
            DesiredLink::Client { server_name } => DesiredLinkModel::Client(server_name@),
            DesiredLink::Pairing { server_name } => DesiredLinkModel::Pairing(server_name@),
        }
    }
}

/// The diff against the live link.
pub enum LinkAction {
    Noop,
    Probe { addr: Endpoint },
    ConnectClient {
        addr: Endpoint,
        server_cert_pem: String,
        client_cert_pem: String,
        client_key_pem: String,
        fingerprint: String,
    },
    ConnectPair { addr: Endpoint, server_name: String },
    Disconnect,
}

/// The text-level content of a link action.
pub enum LinkActionModel {
    Noop,
    Probe(Endpoint),
    ConnectClient { addr: Endpoint, entry: PairingEntry, fingerprint: Seq<char> },
    ConnectPair { addr: Endpoint, server_name: Seq<char> },
    Disconnect,
}

impl LinkAction {
    pub open spec fn model(self) -> LinkActionModel {
        match self {
            LinkAction::Noop => LinkActionModel::Noop,
            LinkAction::Probe { addr } => LinkActionModel::Probe(addr),
            LinkAction::ConnectClient { addr, server_cert_pem, client_cert_pem, client_key_pem, fingerprint } =>
                LinkActionModel::ConnectClient {
                addr,
                entry: PairingEntry {
                    fingerprint: arbitrary(),
                    host: arbitrary(),
                    server_cert_pem,
                    client_cert_pem,
                    client_key_pem,
                },
                fingerprint: fingerprint@,
            },
            LinkAction::ConnectPair { addr, server_name } => LinkActionModel::ConnectPair {
                addr,
                server_name: server_name@,
            },
            LinkAction::Disconnect => LinkActionModel::Disconnect,
        }
    }
}

/// Projection of the intent source.
pub struct IntentInput<'a> {
    pub target: Option<&'a String>,
    pub pair_target: Option<&'a String>,
}

/// Projection of the link source.
pub struct LinkStateInput<'a> {
    /// Connected or connecting.
    pub phase_connected: bool,
    pub kind_client: bool,
    pub kind_pairing: bool,
    pub target: Option<&'a String>,
    /// The reconnect backoff still withholds a dial.
    pub retry_pending: bool,
}

/// Projection of the pairing source.
pub struct PairingPhaseInput {
    pub awaiting_confirmation: bool,
}

/// The desired link for an intent.
pub open spec fn spec_desired_link(target: Option<Seq<char>>, pair_target: Option<Seq<char>>, awaiting: bool) -> DesiredLinkModel {
    match pair_target {
        Some(n) => DesiredLinkModel::Pairing(n),
        None => match target {
            Some(n) => DesiredLinkModel::Client(n),
            None => if awaiting {
                DesiredLinkModel::Pairing(Seq::empty())
            } else {
                DesiredLinkModel::Closed
            },
        },
    }
}

pub open spec fn ref_view(o: Option<&String>) -> Option<Seq<char>> {
    match o {
        Some(s) => Some(s@),
        None => None,
    }
}

/// Pairing beats a client session; a pairing awaiting the user's
/// confirmation survives a cleared intent.
pub fn desired_link(intent: IntentInput, pairing: PairingPhaseInput) -> (r: DesiredLink)
    ensures
        r.model() == spec_desired_link(ref_view(intent.target), ref_view(intent.pair_target), pairing.awaiting_confirmation),
{
    if let Some(name) = intent.pair_target {
        return DesiredLink::Pairing { server_name: name.clone() };
    }
    if let Some(name) = intent.target {
        return DesiredLink::Client { server_name: name.clone() };
    }
    if pairing.awaiting_confirmation {
        return DesiredLink::Pairing { server_name: String::new() };
    }
    DesiredLink::Closed
}

/// The action for a desired link, given the live link, discovery,
/// probes and credentials.
pub open spec fn spec_link_action(
    desired: DesiredLinkModel,
    link_connected: bool,
    kind_client: bool,
    kind_pairing: bool,
    link_target: Option<Seq<char>>,
    retry_pending: bool,
    servers: Seq<ServerAd>,
    probes: Seq<crate::state::probes::ProbeEntry>,
    creds: Seq<PairingEntry>,
    awaiting: bool,
) -> LinkActionModel {
    match desired {
        DesiredLinkModel::Pairing(name) => {
            if kind_pairing && link_connected && link_target == Some(name) {
                LinkActionModel::Noop
            } else if awaiting && name.len() == 0 {
                LinkActionModel::Noop
            } else if retry_pending {
                LinkActionModel::Noop
            } else {
                match find_first_name(servers, name) {
                    None => LinkActionModel::Noop,
                    Some(i) => LinkActionModel::ConnectPair { addr: servers[i].spec_endpoint(), server_name: name },
                }
            }
        },
        DesiredLinkModel::Client(name) => match find_first_name(servers, name) {
            None => LinkActionModel::Noop,
            Some(i) => {
                let addr = servers[i].spec_endpoint();
                if kind_client && link_connected {
                    LinkActionModel::Noop
                } else if retry_pending {
                    LinkActionModel::Noop
                } else {
                    match probe_of(probes, addr) {
                        None => LinkActionModel::Probe(addr),
                        Some(ProbeOutcome::Fingerprint(fp)) => match cred_of(creds, fp@) {
                            None => LinkActionModel::Noop,
                            Some(e) => LinkActionModel::ConnectClient {
                                addr,
                                entry: PairingEntry {
                                    fingerprint: arbitrary(),
                                    host: arbitrary(),
                                    server_cert_pem: e.server_cert_pem,
                                    client_cert_pem: e.client_cert_pem,
                                    client_key_pem: e.client_key_pem,
                                },
                                fingerprint: fp@,
                            },
                        },
                        Some(_) => LinkActionModel::Noop,
                    }
                }
            },
        },
        DesiredLinkModel::Closed => if link_connected && !awaiting {
            LinkActionModel::Disconnect
        } else {
            LinkActionModel::Noop
        },
    }
}

pub fn opt_ref_eq(a: Option<&String>, b: &String) -> (r: bool)
    ensures
        r == (ref_view(a) == Some(b@)),
{
    match a {
        Some(x) => crate::text::text_eq(x, b),
        None => false,
    }
}

/// Diff the desired link against the live state.
pub fn link_action(
    desired: &DesiredLink,
    link: &LinkStateInput,
    servers: &Vec<ServerAd>,
    probes: &Probes,
    creds: &Credentials,
    pairing: &PairingPhaseInput,
) -> (r: LinkAction)
    ensures
        r.model() == spec_link_action(
            desired.model(),
            link.phase_connected,
            link.kind_client,
            link.kind_pairing,
            ref_view(link.target),
            link.retry_pending,
            servers@,
            probes.by_addr@,
            creds.entries@,
            pairing.awaiting_confirmation,
        ),
{
    match desired {
        DesiredLink::Pairing { server_name } => {
            if link.kind_pairing && link.phase_connected && opt_ref_eq(link.target, server_name) {
                return LinkAction::Noop;
            }
            if pairing.awaiting_confirmation && server_name.as_str().is_empty() {
                return LinkAction::Noop;
            }
            if link.retry_pending {
                return LinkAction::Noop;
            }
            match find_server(servers, server_name) {
                None => {
                    proof {
                        lemma_none_is_find(servers@, server_name@);
                    }
                    LinkAction::Noop
                },
                Some(i) => {
                    proof {
                        lemma_first_is_find(servers@, server_name@, i as int);
                    }
                    LinkAction::ConnectPair { addr: servers[i].endpoint(), server_name: server_name.clone() }
                },
            }
        },
        DesiredLink::Client { server_name } => {
            let i = match find_server(servers, server_name) {
                None => {
                    proof {
                        lemma_none_is_find(servers@, server_name@);
                    }
                    return LinkAction::Noop;
                },
                Some(i) => i,
            };
            proof {
                lemma_first_is_find(servers@, server_name@, i as int);
            }
            let addr = servers[i].endpoint();
            if link.kind_client && link.phase_connected {
                return LinkAction::Noop;
            }
            if link.retry_pending {
                return LinkAction::Noop;
            }
            match probes.get(addr) {
                None => LinkAction::Probe { addr },
                Some(ProbeOutcome::Fingerprint(fp)) => match creds.get(fp) {
                    None => LinkAction::Noop,
                    Some(entry) => LinkAction::ConnectClient {
                        addr,
                        server_cert_pem: entry.server_cert_pem.clone(),
                        client_cert_pem: entry.client_cert_pem.clone(),
                        client_key_pem: entry.client_key_pem.clone(),
                        fingerprint: fp.clone(),
                    },
                },
                Some(_) => LinkAction::Noop,
            }
        },
        DesiredLink::Closed => {
            if link.phase_connected && !pairing.awaiting_confirmation {
                LinkAction::Disconnect
            } else {
                LinkAction::Noop
            }
        },
    }
}


/// The intent after the unpaired-server fallback: a client target
/// whose probed fingerprint has no stored credentials becomes a
/// pairing target.
pub open spec fn spec_fallback_applies(
    target: Option<Seq<char>>,
    servers: Seq<ServerAd>,
    probes: Seq<crate::state::probes::ProbeEntry>,
    creds: Seq<PairingEntry>,
) -> bool {
    match target {
        None => false,
        Some(name) => match find_first_name(servers, name) {
            None => false,
            Some(i) => match probe_of(probes, servers[i].spec_endpoint()) {
                Some(ProbeOutcome::Fingerprint(fp)) => cred_of(creds, fp@) is None,
                _ => false,
            },
        },
    }
}

/// Every source other than intent, link and probes is unchanged.
pub open spec fn same_except_link_side(a: Sources, b: Sources) -> bool {
    &&& a.now == b.now
    &&& a.discovery == b.discovery
    &&& a.pairing == b.pairing
    &&& a.playlists == b.playlists
    &&& a.playlist_tracks == b.playlist_tracks
    &&& a.queue == b.queue
    &&& a.responses == b.responses
    &&& a.search == b.search
    &&& a.artist_extras == b.artist_extras
    &&& a.activity == b.activity
    &&& a.server == b.server
    &&& a.persist == b.persist
    &&& a.clipboard == b.clipboard
    &&& a.requests == b.requests
    &&& a.credentials == b.credentials
    &&& a.preview == b.preview
    &&& a.toast == b.toast
    &&& a.cursor == b.cursor
    &&& a.filter == b.filter
    &&& a.history == b.history
    &&& a.screen == b.screen
    &&& a.picker == b.picker
    &&& a.pending_playlists == b.pending_playlists
    &&& a.session == b.session
    &&& a.selection == b.selection
}

/// If the user asked to connect to a server whose probed fingerprint
/// has no stored credentials, turn the request into a pairing.
pub fn fallback_target_to_pair(sources: &mut Sources)
    ensures
        spec_fallback_applies(
            crate::text::opt_view(old(sources).intent.target),
            old(sources).discovery.servers@,
            old(sources).probes.by_addr@,
            old(sources).credentials.entries@,
        ) ==> final(sources).intent.target is None && crate::text::opt_view(final(sources).intent.pair_target)
            == crate::text::opt_view(old(sources).intent.target),
        !spec_fallback_applies(
            crate::text::opt_view(old(sources).intent.target),
            old(sources).discovery.servers@,
            old(sources).probes.by_addr@,
            old(sources).credentials.entries@,
        ) ==> final(sources).intent == old(sources).intent,
        final(sources).link == old(sources).link,
        final(sources).probes == old(sources).probes,
        same_except_link_side(*old(sources), *final(sources)),
{
    let i = match &sources.intent.target {
        None => return,
        Some(name) => match find_server(&sources.discovery.servers, name) {
            None => {
                proof {
                    lemma_none_is_find(sources.discovery.servers@, name@);
                }
                return;
            },
            Some(i) => {
                proof {
                    lemma_first_is_find(sources.discovery.servers@, name@, i as int);
                }
                i
            },
        },
    };
    let addr = sources.discovery.servers[i].endpoint();
    let unpaired = match sources.probes.get(addr) {
        Some(ProbeOutcome::Fingerprint(fp)) => !sources.credentials.contains(fp),
        _ => false,
    };
    if unpaired {
        let name = sources.intent.target.take();
        sources.intent.pair_target = name;
    }
}

/// Projection of the link source at instant `now`.
pub open spec fn link_input_of(s: Sources) -> (bool, bool, bool, Option<Seq<char>>, bool) {
    (
        s.link.phase == LinkPhase::Connected || s.link.phase == LinkPhase::Connecting,
        s.link.kind == Some(LinkKind::Client),
        s.link.kind == Some(LinkKind::Pairing),
        crate::text::opt_view(s.link.target),
        !s.link.spec_retry_allowed(s.now),
    )
}

/// The action the link step takes on `s` (after the fallback).
pub open spec fn spec_link_step(s: Sources) -> LinkActionModel {
    let li = link_input_of(s);
    spec_link_action(
        spec_desired_link(
            crate::text::opt_view(s.intent.target),
            crate::text::opt_view(s.intent.pair_target),
            s.pairing.phase == PairingPhase::AwaitingConfirmation,
        ),
        li.0,
        li.1,
        li.2,
        li.3,
        li.4,
        s.discovery.servers@,
        s.probes.by_addr@,
        s.credentials.entries@,
        s.pairing.phase == PairingPhase::AwaitingConfirmation,
    )
}

/// What `apply_link` does to the sources.
pub open spec fn apply_link_effect(pre: Sources, post: Sources, cmd: Option<LinkCmd>) -> bool {
    &&& (!(pre.link.phase == LinkPhase::Idle || pre.link.phase == LinkPhase::Connected) ==> cmd is None
        && post == pre)
    &&& ((pre.link.phase == LinkPhase::Idle || pre.link.phase == LinkPhase::Connected) ==> {
        let mid = Sources { intent: post.intent, ..pre };
        &&& !spec_fallback_applies(
            crate::text::opt_view(pre.intent.target),
            pre.discovery.servers@,
            pre.probes.by_addr@,
            pre.credentials.entries@,
        ) ==> post.intent == pre.intent
        &&& spec_fallback_applies(
            crate::text::opt_view(pre.intent.target),
            pre.discovery.servers@,
            pre.probes.by_addr@,
            pre.credentials.entries@,
        ) ==> post.intent.target is None && crate::text::opt_view(post.intent.pair_target)
            == crate::text::opt_view(pre.intent.target)
        &&& same_except_link_side(pre, post)
        &&& match spec_link_step(mid) {
            LinkActionModel::Noop => cmd is None && post.link == pre.link
                && post.probes == pre.probes,
            LinkActionModel::Probe(addr) => cmd == Some(LinkCmd::ProbeFingerprint { addr })
                && probe_of(post.probes.by_addr@, addr) == Some(ProbeOutcome::InFlight)
                && (forall|a: Endpoint| a != addr ==> probe_of(post.probes.by_addr@, a)
                    == probe_of(pre.probes.by_addr@, a))
                && post.link == pre.link,
            LinkActionModel::ConnectClient { addr, entry, fingerprint } => (cmd matches Some(LinkCmd::ConnectClient { addr: a, server_cert_pem, client_cert_pem, client_key_pem, fingerprint: f })
                && a == addr && server_cert_pem == entry.server_cert_pem && client_cert_pem == entry.client_cert_pem
                && client_key_pem == entry.client_key_pem && f@ == fingerprint)
                && post.link.phase == LinkPhase::Connecting
                && post.link.kind == Some(LinkKind::Client)
                && crate::text::opt_view(post.link.target) == Some(fingerprint)
                && post.link.retry_at == pre.link.retry_at
                && post.probes == pre.probes,
            LinkActionModel::ConnectPair { addr, server_name } => (cmd matches Some(LinkCmd::ConnectPair { addr: a, server_name: n })
                && a == addr && n@ == server_name)
                && post.link.phase == LinkPhase::Connecting
                && post.link.kind == Some(LinkKind::Pairing)
                && crate::text::opt_view(post.link.target) == Some(server_name)
                && post.link.retry_at == pre.link.retry_at
                && post.probes == pre.probes,
            LinkActionModel::Disconnect => cmd == Some(LinkCmd::Disconnect)
                && post.link.phase == LinkPhase::Closing
                && post.link.kind == pre.link.kind
                && post.link.target == pre.link.target
                && post.link.retry_at == pre.link.retry_at
                && post.probes == pre.probes,
        }
    })
}

/// Drive the link toward the desired state: apply the fallback, take
/// the action the diff gives, write its intent into the link and
/// probe sources synchronously, and return the command to ship. Acts
/// only from a resting phase (idle or connected).
pub fn apply_link(sources: &mut Sources) -> (cmd: Option<LinkCmd>)
    ensures
        apply_link_effect(*old(sources), *final(sources), cmd),
{
    if !(sources.link.phase == LinkPhase::Idle || sources.link.phase == LinkPhase::Connected) {
        return None;
    }
    fallback_target_to_pair(sources);
    let action = {
        let desired = desired_link(
            IntentInput { target: sources.intent.target.as_ref(), pair_target: sources.intent.pair_target.as_ref() },
            PairingPhaseInput { awaiting_confirmation: sources.pairing.phase == PairingPhase::AwaitingConfirmation },
        );
        let li = LinkStateInput {
            phase_connected: sources.link.phase == LinkPhase::Connected || sources.link.phase == LinkPhase::Connecting,
            kind_client: sources.link.kind == Some(LinkKind::Client),
            kind_pairing: sources.link.kind == Some(LinkKind::Pairing),
            target: sources.link.target.as_ref(),
            retry_pending: sources.link.retry_pending(sources.now),
        };
        link_action(
            &desired,
            &li,
            &sources.discovery.servers,
            &sources.probes,
            &sources.credentials,
            &PairingPhaseInput { awaiting_confirmation: sources.pairing.phase == PairingPhase::AwaitingConfirmation },
        )
    };
    match action {
        LinkAction::Noop => None,
        LinkAction::Probe { addr } => {
            sources.probes.mark_in_flight(addr);
            Some(LinkCmd::ProbeFingerprint { addr })
        },
        LinkAction::ConnectClient { addr, server_cert_pem, client_cert_pem, client_key_pem, fingerprint } => {
            sources.link.phase = LinkPhase::Connecting;
            sources.link.kind = Some(LinkKind::Client);
            sources.link.target = Some(fingerprint.clone());
            Some(LinkCmd::ConnectClient { addr, server_cert_pem, client_cert_pem, client_key_pem, fingerprint })
        },
        LinkAction::ConnectPair { addr, server_name } => {
            sources.link.phase = LinkPhase::Connecting;
            sources.link.kind = Some(LinkKind::Pairing);
            sources.link.target = Some(server_name.clone());
            Some(LinkCmd::ConnectPair { addr, server_name })
        },
        LinkAction::Disconnect => {
            sources.link.phase = LinkPhase::Closing;
            Some(LinkCmd::Disconnect)
        },
    }
}

/// Whether the link can carry requests: a connected client link.
pub open spec fn can_send(s: Sources) -> bool {
    s.link.phase == LinkPhase::Connected && s.link.kind == Some(LinkKind::Client)
}

/// What `drain_send_queue` does to the sources.
pub open spec fn drain_send_queue_effect(pre: Sources, post: Sources, cmds: Vec<LinkCmd>) -> bool {
    &&& (!can_send(pre) ==> cmds@.len() == 0 && post == pre)
    &&& (can_send(pre) ==> {
        &&& post.requests.pending@.len() == 0
        &&& cmds@.len() == pre.requests.pending@.len()
        &&& forall|k: int| #![trigger cmds@[k]] 0 <= k < cmds@.len() ==> (cmds@[k] matches LinkCmd::Send { seq, task_id, msg }
            && seq == pre.requests.pending@[k].seq && task_id == pre.requests.pending@[k].task_id
            && msg == pre.requests.pending@[k].msg)
        &&& post.requests.last_seq == pre.requests.last_seq
        &&& post.requests.last_task == pre.requests.last_task
        &&& post.link == pre.link
        &&& post.intent == pre.intent
        &&& post.probes == pre.probes
    })
}

/// Move every queued request, oldest first, into `Send` commands —
/// only while a client link is connected.
pub fn drain_send_queue(sources: &mut Sources) -> (cmds: Vec<LinkCmd>)
    ensures
        drain_send_queue_effect(*old(sources), *final(sources), cmds),
{
    let mut cmds: Vec<LinkCmd> = Vec::new();
    if !(sources.link.phase == LinkPhase::Connected && sources.link.kind == Some(LinkKind::Client)) {
        return cmds;
    }
    let ghost orig = sources.requests.pending@;
    while sources.requests.pending.len() > 0
        invariant
            cmds@.len() + sources.requests.pending@.len() == orig.len(),
            sources.requests.pending@ == orig.subrange(cmds@.len() as int, orig.len() as int),
            forall|k: int| #![trigger cmds@[k]] 0 <= k < cmds@.len() ==> (cmds@[k] matches LinkCmd::Send { seq, task_id, msg }
                && seq == orig[k].seq && task_id == orig[k].task_id && msg == orig[k].msg),
            sources.requests.last_seq == old(sources).requests.last_seq,
            sources.requests.last_task == old(sources).requests.last_task,
            sources.link == old(sources).link,
            sources.intent == old(sources).intent,
            sources.probes == old(sources).probes,
        decreases sources.requests.pending@.len(),
    {
        let p = sources.requests.pop_front().unwrap();
        proof {
            assert(p == orig[cmds@.len() as int]);
        }
        cmds.push(LinkCmd::Send { seq: p.seq, task_id: p.task_id, msg: p.msg });
        proof {
            assert(sources.requests.pending@ =~= orig.subrange(cmds@.len() as int, orig.len() as int));
        }
    }
    cmds
}

// ---------------------------------------------------------------------
// The execute phase
// ---------------------------------------------------------------------

/// What one execute phase asks of the drivers, step by step.
pub struct TickCommands {
    /// From the link step.
    pub link: Option<LinkCmd>,
    /// From the backend step.
    pub backend: Vec<crate::persist::PersistCmd>,
    /// The recent-search load of a reopened search box.
    pub search_history: Option<crate::persist::PersistCmd>,
    /// The saved-view load of the restore step.
    pub view_load: Option<crate::persist::PersistCmd>,
    pub view_save: Option<crate::persist::PersistCmd>,
    pub last_add: Option<crate::persist::PersistCmd>,
    pub history_push: Option<crate::persist::PersistCmd>,
    pub clipboard: Option<crate::clipboard::ClipboardCmd>,
    /// Queued requests, in order, once a client link can carry them.
    pub sends: Vec<LinkCmd>,
}

/// The clipboard's pending copy was taken as the write command.
pub open spec fn clipboard_taken(pre: Sources, post: Sources, cmd: Option<crate::clipboard::ClipboardCmd>) -> bool {
    &&& post == (Sources { clipboard: post.clipboard, ..pre })
    &&& post.clipboard.pending is None
    &&& post.clipboard.last_outcome == pre.clipboard.last_outcome
    &&& post.clipboard.last_toasted_seq == pre.clipboard.last_toasted_seq
    &&& post.clipboard.next_seq == pre.clipboard.next_seq
    &&& match pre.clipboard.pending {
        None => cmd is None,
        Some(req) => cmd == Some(
            crate::clipboard::ClipboardCmd::Write { seq: req.seq, text: req.text, success_toast: req.success_toast },
        ),
    }
}

/// One execute phase, as the states `st` it passes through: the
/// lifecycle steps in order (connect, link, backend, server errors,
/// search reopen, cursor snap, the four cursor clamps, pending add,
/// lost modal, restore, the two refetches, view persist, last-add
/// persist, search-history push, clipboard, clipboard toast, sending
/// the queue, link acknowledgement), each step's commands in `c`.
pub open spec fn tick_chain(st: Seq<Sources>, c: TickCommands, menu_len: usize) -> bool {
    &&& st.len() == 23
    &&& crate::lifecycle::connect::apply_connect_effect(st[0], st[1])
    &&& apply_link_effect(st[1], st[2], c.link)
    &&& crate::lifecycle::backend::apply_backend_effect(st[2], st[3], c.backend)
    &&& crate::lifecycle::server_errors::apply_server_errors_effect(st[3], st[4])
    &&& crate::lifecycle::search_reopen::apply_search_reopen_effect(st[4], st[5], c.search_history)
    &&& crate::lifecycle::cursor_snap::apply_cursor_snap_effect(st[5], st[6])
    &&& crate::lifecycle::cursor_clamp::apply_middle_cursor_clamp_effect(st[6], st[7])
    &&& crate::lifecycle::cursor_clamp::apply_queue_cursor_clamp_effect(st[7], st[8])
    &&& crate::lifecycle::cursor_clamp::apply_left_cursor_clamp_effect(st[8], st[9])
    &&& crate::lifecycle::cursor_clamp::apply_action_modal_clamp_effect(st[9], st[10], menu_len)
    &&& crate::lifecycle::pending_add::apply_pending_add_effect(st[10], st[11])
    &&& crate::lifecycle::lost_modal::apply_lost_modal_effect(st[11], st[12])
    &&& crate::lifecycle::restore::apply_restore_effect(st[12], st[13], c.view_load)
    &&& crate::lifecycle::playlists_refetch::apply_playlists_refetch_effect(st[13], st[14])
    &&& crate::lifecycle::playlists_refetch::apply_playlist_tracks_refetch_effect(st[14], st[15])
    &&& crate::lifecycle::view_persist::apply_view_persist_effect(st[15], st[16], c.view_save)
    &&& crate::lifecycle::last_add_persist::apply_last_add_persist_effect(st[16], st[17], c.last_add)
    &&& crate::lifecycle::search_history_push::apply_search_history_push_effect(st[17], st[18], c.history_push)
    &&& clipboard_taken(st[18], st[19], c.clipboard)
    &&& crate::lifecycle::clipboard_toast::apply_clipboard_toast_effect(st[19], st[20])
    &&& drain_send_queue_effect(st[20], st[21], c.sends)
    &&& crate::lifecycle::link_ack::apply_link_ack_effect(st[21], st[22])
}

/// The execute phase: run every lifecycle step in order on the sources
/// and collect what each asks of the drivers. The action menu, when up,
/// has `action_menu_len` entries.
pub fn run(sources: &mut Sources, action_menu_len: usize) -> (cmds: TickCommands)
    ensures
        exists|st: Seq<Sources>| {
            &&& #[trigger] tick_chain(st, cmds, action_menu_len)
            &&& st[0] == *old(sources)
            &&& st[22] == *final(sources)
        },
{
    let ghost s0 = *sources;
    crate::lifecycle::connect::apply_connect(sources);
    let ghost s1 = *sources;
    let link = apply_link(sources);
    let ghost s2 = *sources;
    let backend = crate::lifecycle::backend::apply_backend(sources);
    let ghost s3 = *sources;
    crate::lifecycle::server_errors::apply_server_errors(sources);
    let ghost s4 = *sources;
    let search_history = crate::lifecycle::search_reopen::apply_search_reopen(sources);
    let ghost s5 = *sources;
    crate::lifecycle::cursor_snap::apply_cursor_snap(sources);
    let ghost s6 = *sources;
    crate::lifecycle::cursor_clamp::apply_middle_cursor_clamp(sources);
    let ghost s7 = *sources;
    crate::lifecycle::cursor_clamp::apply_queue_cursor_clamp(sources);
    let ghost s8 = *sources;
    crate::lifecycle::cursor_clamp::apply_left_cursor_clamp(sources);
    let ghost s9 = *sources;
    crate::lifecycle::cursor_clamp::apply_action_modal_clamp(sources, action_menu_len);
    let ghost s10 = *sources;
    crate::lifecycle::pending_add::apply_pending_add(sources);
    let ghost s11 = *sources;
    crate::lifecycle::lost_modal::apply_lost_modal(sources);
    let ghost s12 = *sources;
    let view_load = crate::lifecycle::restore::apply_restore(sources);
    let ghost s13 = *sources;
    crate::lifecycle::playlists_refetch::apply_playlists_refetch(sources);
    let ghost s14 = *sources;
    crate::lifecycle::playlists_refetch::apply_playlist_tracks_refetch(sources);
    let ghost s15 = *sources;
    let view_save = crate::lifecycle::view_persist::apply_view_persist(sources);
    let ghost s16 = *sources;
    let last_add = crate::lifecycle::last_add_persist::apply_last_add_persist(sources);
    let ghost s17 = *sources;
    let history_push = crate::lifecycle::search_history_push::apply_search_history_push(sources);
    let ghost s18 = *sources;
    let clipboard = sources.clipboard.take_write_cmd();
    let ghost s19 = *sources;
    crate::lifecycle::clipboard_toast::apply_clipboard_toast(sources);
    let ghost s20 = *sources;
    let sends = drain_send_queue(sources);
    let ghost s21 = *sources;
    crate::lifecycle::link_ack::apply_link_ack(sources);
    let ghost s22 = *sources;
    let cmds = TickCommands {
        link,
        backend,
        search_history,
        view_load,
        view_save,
        last_add,
        history_push,
        clipboard,
        sends,
    };
    proof {
        let st = seq![
            s0, s1, s2, s3, s4, s5, s6, s7, s8, s9, s10, s11, s12, s13, s14, s15, s16, s17, s18, s19, s20, s21, s22,
        ];
        assert(tick_chain(st, cmds, action_menu_len));
    }
    cmds
}

} // verus!
