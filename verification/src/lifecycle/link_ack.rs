//! Release a closed link back to idle so it may be dialed again, and
//! arm the reconnect backoff when a connection is still wanted.

use vstd::prelude::*;
use crate::state::link::{sat_add, spec_retry_delay, LinkPhase};
use crate::state::probes::not_failed;
use crate::state::sources::Sources;

verus! {

pub struct AckLinkInput {
    pub closed: bool,
}

/// A lost server or an explicit target means a reconnect is wanted.
pub struct AckWantInput {
    pub wants_connection: bool,
}

pub enum DesiredAck {
    Hold,
    Release { retry: bool },
}

pub enum AckAction {
    Noop,
    Ack { arm_backoff: bool },
}

pub fn desired_ack(link: AckLinkInput, want: AckWantInput) -> (r: DesiredAck)
    ensures
        !link.closed ==> r is Hold,
        link.closed ==> r == (DesiredAck::Release { retry: want.wants_connection }),
{
    if !link.closed {
        return DesiredAck::Hold;
    }
    DesiredAck::Release { retry: want.wants_connection }
}

pub fn ack_action(desired: DesiredAck) -> (r: AckAction)
    ensures
        match desired {
            DesiredAck::Hold => r is Noop,
            DesiredAck::Release { retry } => r == (AckAction::Ack { arm_backoff: retry }),
        },
{
    match desired {
        DesiredAck::Hold => AckAction::Noop,
        DesiredAck::Release { retry } => AckAction::Ack { arm_backoff: retry },
    }
}

/// Whether a reconnect is wanted on `s`.
pub open spec fn spec_wants_connection(s: Sources) -> bool {
    s.session.lost_server is Some || s.intent.target is Some
}

/// What `apply_link_ack` does to the sources.
pub open spec fn apply_link_ack_effect(pre: Sources, post: Sources) -> bool {
    &&& (pre.link.phase != LinkPhase::Closed ==> post == pre)
    &&& (pre.link.phase == LinkPhase::Closed ==> {
        &&& post.link.phase == LinkPhase::Idle
        &&& post.link.kind is None
        &&& post.link.target is None
        &&& post.link.last_err == pre.link.last_err
        &&& spec_wants_connection(pre) ==> post.link.retry_at == Some(
            sat_add(pre.now, spec_retry_delay(pre.link.retry_attempts as nat)),
        ) && post.probes.by_addr@ == pre.probes.by_addr@.filter(not_failed())
        &&& !spec_wants_connection(pre) ==> post.link.retry_at is None
            && post.link.retry_attempts == 0 && post.probes == pre.probes
        &&& post == Sources { link: post.link, probes: post.probes, ..pre }
    })
}

/// Release a closed link to idle. With a reconnect wanted, arm the next
/// backoff step and forget failed probes (a probe that failed during
/// the outage is not a verdict on the address); without, clear the
/// schedule.
pub fn apply_link_ack(sources: &mut Sources)
    ensures
        apply_link_ack_effect(*old(sources), *final(sources)),
{
    let desired = desired_ack(
        AckLinkInput { closed: sources.link.phase == LinkPhase::Closed },
        AckWantInput { wants_connection: sources.session.lost_server.is_some() || sources.intent.target.is_some() },
    );
    let arm = match ack_action(desired) {
        AckAction::Noop => return,
        AckAction::Ack { arm_backoff } => arm_backoff,
    };
    sources.link.phase = LinkPhase::Idle;
    sources.link.kind = None;
    sources.link.target = None;
    if arm {
        sources.link.schedule_retry(sources.now);
        sources.probes.retain_non_failed();
    } else {
        sources.link.clear_retry();
    }
}

} // verus!
