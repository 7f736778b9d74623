//! Per-tick scheduling: the options the runtime boots with, the
//! clean-up that opens each tick, and the single deadline the loop
//! sleeps until.

use vstd::prelude::*;
use crate::state::link::{sat_add, LinkPhase};
use crate::state::server::{Activity, STALE_TASK_TTL_MS};
use crate::state::sources::Sources;

verus! {

/// Flags the caller boots the runtime with.
pub struct RuntimeOptions {
    /// Start without auto-connecting to the previous server, so the
    /// user picks one.
    pub pick: bool,
}

impl Default for RuntimeOptions {
    fn default() -> (o: Self)
        ensures
            !o.pick,
    {
        RuntimeOptions { pick: false }
    }
}

/// Cadence of the spinner glyph, in milliseconds.
pub const SPIN_INTERVAL_MS: u64 = 120;

/// How long the loop sleeps when no deadline is pending, in
/// milliseconds.
pub const IDLE_TIMEOUT_MS: u64 = 60_000;

/// Whether some element that draws a spinner is on screen.
pub open spec fn spec_any_spinner_active(s: Sources) -> bool {
    ||| s.link.phase != LinkPhase::Connected
    ||| !s.playlists.loaded
    ||| (s.playlist_tracks.playlist_id is Some && !s.playlist_tracks.spec_is_ready()
        && s.playlist_tracks.songs@.len() == 0)
    ||| (s.search.task_id is Some && !s.search.first_page_received)
    ||| s.activity.tasks@.len() > 0
    ||| s.pending_playlists.creating@.len() > 0
    ||| s.pending_playlists.renaming@.len() > 0
    ||| s.pending_playlists.adding@.len() > 0
}

pub fn any_spinner_active(s: &Sources) -> (r: bool)
    ensures
        r == spec_any_spinner_active(*s),
{
    if s.link.phase != LinkPhase::Connected {
        return true;
    }
    if !s.playlists.loaded {
        return true;
    }
    if s.playlist_tracks.playlist_id.is_some() && !s.playlist_tracks.is_ready()
        && s.playlist_tracks.songs.len() == 0 {
        return true;
    }
    if s.search.task_id.is_some() && !s.search.first_page_received {
        return true;
    }
    if s.activity.tasks.len() > 0 {
        return true;
    }
    s.pending_playlists.has_spinning()
}

/// The earlier of two optional instants.
pub open spec fn earliest(a: Option<u64>, b: Option<u64>) -> Option<u64> {
    match (a, b) {
        (None, _) => b,
        (_, None) => a,
        (Some(x), Some(y)) => Some(if x < y { x } else { y }),
    }
}

fn fold_earliest(a: Option<u64>, b: Option<u64>) -> (r: Option<u64>)
    ensures
        r == earliest(a, b),
{
    match (a, b) {
        (None, _) => b,
        (_, None) => a,
        (Some(x), Some(y)) => Some(if x < y { x } else { y }),
    }
}

/// The earliest instant the loop must wake at: the next spinner frame
/// while one shows, the preview's and the toast's expiry, the oldest
/// peer task going stale, and the next legal reconnect.
pub open spec fn spec_nearest_deadline(s: Sources) -> Option<u64> {
    let spin = if spec_any_spinner_active(s) { Some(sat_add(s.now, SPIN_INTERVAL_MS)) } else { None };
    earliest(
        earliest(earliest(earliest(spin, s.preview.expires_at), s.toast.expires_at),
            Activity::spec_next_reap_at(s.activity.tasks@, STALE_TASK_TTL_MS)),
        s.link.retry_at,
    )
}

pub fn nearest_deadline(s: &Sources) -> (r: Option<u64>)
    ensures
        r == spec_nearest_deadline(*s),
{
    let spin = if any_spinner_active(s) { Some(s.now.saturating_add(SPIN_INTERVAL_MS)) } else { None };
    let d = fold_earliest(spin, s.preview.expires_at);
    let d = fold_earliest(d, s.toast.expires_at);
    let d = fold_earliest(d, s.activity.next_reap_at(STALE_TASK_TTL_MS));
    fold_earliest(d, s.link.retry_at)
}

/// How long the loop may sleep at `now`: until the deadline (zero once
/// it has passed), or the idle timeout when there is none.
pub fn next_timeout_ms(deadline: Option<u64>, now: u64) -> (ms: u64)
    ensures
        deadline matches Some(d) ==> ms == (if d > now { d - now } else { 0 }),
        deadline is None ==> ms == IDLE_TIMEOUT_MS,
{
    match deadline {
        Some(d) => d.saturating_sub(now),
        None => IDLE_TIMEOUT_MS,
    }
}

/// Open a tick at `now`: stamp the clock, then drop an expired preview
/// and toast and every stale peer task, so that later phases read
/// "present" as "live".
pub fn begin_tick(s: &mut Sources, now: u64)
    ensures
        final(s).now == now,
        (old(s).preview.expires_at matches Some(t) && now >= t) ==> final(s).preview.song is None
            && final(s).preview.expires_at is None,
        !(old(s).preview.expires_at matches Some(t) && now >= t) ==> final(s).preview == old(s).preview,
        (old(s).toast.expires_at matches Some(t) && now >= t) ==> final(s).toast.message is None
            && final(s).toast.expires_at is None,
        !(old(s).toast.expires_at matches Some(t) && now >= t) ==> final(s).toast == old(s).toast,
        final(s).activity.tasks@ == old(s).activity.tasks@.filter(
            crate::state::server::task_live(now, STALE_TASK_TTL_MS),
        ),
        final(s).link == old(s).link,
        final(s).session == old(s).session,
{
    s.now = now;
    s.preview.drop_if_expired(now);
    s.toast.drop_if_expired(now);
    s.activity.reap_stale(now, STALE_TASK_TTL_MS);
}

} // verus!
