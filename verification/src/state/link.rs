//! The link source: the phase of the single TLS link, what kind it
//! is, whom it targets, and the reconnect backoff schedule. Times are
//! milliseconds on the runtime's monotonic clock.

use vstd::prelude::*;

verus! {

/// Lifecycle phase of the link.
#[derive(PartialEq, Eq, Structural, Clone, Copy, Debug)]
pub enum LinkPhase {
    Idle,
    Connecting,
    Connected,
    Closing,
    Closed,
}

/// Which kind of session the link carries.
#[derive(PartialEq, Eq, Structural, Clone, Copy, Debug)]
pub enum LinkKind {
    Client,
    Pairing,
}

/// Number of steps in the reconnect backoff table.
pub const RETRY_STEPS: usize = 5;

/// Delay before reconnect attempt number `attempt` (0-based); the
/// last step is the ceiling.
pub open spec fn spec_retry_delay(attempt: nat) -> u64 {
    if attempt == 0 {
        1000
    } else if attempt == 1 {
        2000
    } else if attempt == 2 {
        5000
    } else if attempt == 3 {
        10000
    } else {
        30000
    }
}

/// The delay of backoff step `attempt`.
pub fn retry_delay(attempt: usize) -> (d: u64)
    ensures
        d == spec_retry_delay(attempt as nat),
{
    if attempt == 0 {
        1000
    } else if attempt == 1 {
        2000
    } else if attempt == 2 {
        5000
    } else if attempt == 3 {
        10000
    } else {
        30000
    }
}

/// `a + b`, held at `u64::MAX`.
pub open spec fn sat_add(a: u64, b: u64) -> u64 {
    if a + b > u64::MAX { u64::MAX } else { (a + b) as u64 }
}

/// The link source.
pub struct Link {
    pub phase: LinkPhase,
    pub kind: Option<LinkKind>,
    /// Fingerprint (client link) or server name (pairing link).
    pub target: Option<String>,
    pub last_err: Option<String>,
    /// The instant before which no redial may happen.
    pub retry_at: Option<u64>,
    /// Backoff steps taken since the schedule was last cleared.
    pub retry_attempts: usize,
}

impl Link {
    /// An idle link with no schedule.
    pub fn new() -> (l: Self)
        ensures
            l.phase == LinkPhase::Idle,
            l.kind is None,
            l.target is None,
            l.last_err is None,
            l.retry_at is None,
            l.retry_attempts == 0,
    {
        Link {
            phase: LinkPhase::Idle,
            kind: None,
            target: None,
            last_err: None,
            retry_at: None,
            retry_attempts: 0,
        }
    }

    /// Whether a dial is allowed at `now`: no schedule, or the
    /// scheduled instant has been reached.
    pub open spec fn spec_retry_allowed(self, now: u64) -> bool {
        match self.retry_at {
            None => true,
            Some(t) => now >= t,
        }
    }

    pub fn retry_allowed(&self, now: u64) -> (r: bool)
        ensures
            r == self.spec_retry_allowed(now),
    {
        match self.retry_at {
            None => true,
            Some(t) => now >= t,
        }
    }

    /// Whether the backoff still withholds a dial at `now`.
    pub fn retry_pending(&self, now: u64) -> (r: bool)
        ensures
            r == !self.spec_retry_allowed(now),
    {
        !self.retry_allowed(now)
    }

    /// Arm the next backoff step from `now`: each call widens the
    /// delay by one step until the ceiling, where it stays.
    pub fn schedule_retry(&mut self, now: u64)
        ensures
            final(self).retry_at == Some(sat_add(now, spec_retry_delay(old(self).retry_attempts as nat))),
            final(self).retry_attempts == (if old(self).retry_attempts < RETRY_STEPS - 1 {
                old(self).retry_attempts + 1
            } else {
                old(self).retry_attempts as int
            }),
            final(self).phase == old(self).phase,
            final(self).kind == old(self).kind,
            final(self).target == old(self).target,
            final(self).last_err == old(self).last_err,
    {
        let d = retry_delay(self.retry_attempts);
        self.retry_at = Some(now.saturating_add(d));
        if self.retry_attempts < RETRY_STEPS - 1 {
            self.retry_attempts = self.retry_attempts + 1;
        }
    }

    /// Drop the schedule, so the next drop starts at the shortest delay.
    pub fn clear_retry(&mut self)
        ensures
            final(self).retry_at is None,
            final(self).retry_attempts == 0,
            final(self).phase == old(self).phase,
            final(self).kind == old(self).kind,
            final(self).target == old(self).target,
            final(self).last_err == old(self).last_err,
    {
        self.retry_at = None;
        self.retry_attempts = 0;
    }
}

/// Once the schedule has been widened past the table, further
/// schedules keep the ceiling delay: backoff widens, then holds.
pub proof fn lemma_backoff_holds_at_ceiling(attempt: nat)
    requires
        attempt >= RETRY_STEPS - 1,
    ensures
        spec_retry_delay(attempt) == spec_retry_delay((RETRY_STEPS - 1) as nat),
        forall|a: nat, b: nat| a <= b ==> spec_retry_delay(a) <= spec_retry_delay(b),
{
}

} // verus!
