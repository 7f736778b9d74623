//! In-flight state of the clipboard driver: a copy request waits in
//! `pending` until the execute phase turns it into a worker command,
//! and the worker's outcome lands in `last_outcome`.

use vstd::prelude::*;

verus! {

/// A copy the user asked for, tagged with the sequence number the
/// outcome will carry back.
pub struct CopyRequest {
    pub seq: u64,
    pub text: String,
    pub success_toast: String,
}

/// What the worker reported for one request.
pub struct CopyOutcome {
    pub seq: u64,
    pub success_toast: String,
    pub ok: bool,
}

/// Driver-owned source for the clipboard.
pub struct ClipboardState {
    /// A freshly dispatched copy, consumed by the next execute.
    pub pending: Option<CopyRequest>,
    /// The latest outcome the worker reported.
    pub last_outcome: Option<CopyOutcome>,
    /// Last `seq` the toast lifecycle has already handled.
    pub last_toasted_seq: Option<u64>,
    /// Counter for new requests.
    pub next_seq: u64,
}

/// Command shipped to the clipboard worker.
pub enum ClipboardCmd {
    Write { seq: u64, text: String, success_toast: String },
}

/// Event the clipboard worker posts back.
pub enum ClipboardEvent {
    WriteOutcome { seq: u64, success_toast: String, ok: bool },
}

/// Hooks a front end implements to watch the clipboard driver. Both do
/// nothing unless overridden.
pub trait Trace {
    fn clipboard_write(&self, seq: u64) {
    }

    fn clipboard_outcome(&self, seq: u64, ok: bool) {
    }
}

/// Trace sink that records nothing.
pub struct NoopTrace;

impl Trace for NoopTrace {
}

/// The sequence number that follows `n`, wrapping at the top of `u64`.
pub open spec fn next_seq_after(n: u64) -> u64 {
    if n == u64::MAX { 0 } else { (n + 1) as u64 }
}

impl ClipboardState {
    /// The state with nothing pending, no outcome and a zero counter.
    pub fn new() -> (s: Self)
        ensures
            s.pending is None,
            s.last_outcome is None,
            s.last_toasted_seq is None,
            s.next_seq == 0,
    {
        ClipboardState { pending: None, last_outcome: None, last_toasted_seq: None, next_seq: 0 }
    }

    /// Allocate a new sequence id and stash a request on `pending`,
    /// replacing any request not yet consumed.
    pub fn enqueue(&mut self, text: String, success_toast: String)
        ensures
            final(self).next_seq == next_seq_after(old(self).next_seq),
            final(self).pending matches Some(p) && p.seq == final(self).next_seq
                && p.text@ == text@ && p.success_toast@ == success_toast@,
            final(self).last_outcome == old(self).last_outcome,
            final(self).last_toasted_seq == old(self).last_toasted_seq,
    {
        self.next_seq = self.next_seq.wrapping_add(1);
        self.pending = Some(CopyRequest { seq: self.next_seq, text, success_toast });
    }

    /// The execute phase: consume the pending request, if any, as the
    /// write command for the worker.
    pub fn take_write_cmd(&mut self) -> (cmd: Option<ClipboardCmd>)
        ensures
            final(self).pending is None,
            final(self).last_outcome == old(self).last_outcome,
            final(self).last_toasted_seq == old(self).last_toasted_seq,
            final(self).next_seq == old(self).next_seq,
            match old(self).pending {
                None => cmd is None,
                Some(req) => cmd == Some(ClipboardCmd::Write { seq: req.seq, text: req.text, success_toast: req.success_toast }),
            },
    {
        match self.pending.take() {
            None => None,
            Some(req) => Some(ClipboardCmd::Write { seq: req.seq, text: req.text, success_toast: req.success_toast }),
        }
    }

    /// The process phase: the worker's latest outcome replaces the
    /// previous one.
    pub fn apply_event(&mut self, ev: ClipboardEvent)
        ensures
            match ev {
                ClipboardEvent::WriteOutcome { seq, success_toast, ok } =>
                    final(self).last_outcome == Some(CopyOutcome { seq, success_toast, ok }),
            },
            final(self).pending == old(self).pending,
            final(self).last_toasted_seq == old(self).last_toasted_seq,
            final(self).next_seq == old(self).next_seq,
    {
        match ev {
            ClipboardEvent::WriteOutcome { seq, success_toast, ok } => {
                self.last_outcome = Some(CopyOutcome { seq, success_toast, ok });
            },
        }
    }
}

impl ClipboardState {
    /// Take the pending copy as the write command, as `take_write_cmd`
    /// does, telling `trace` which copy is written.
    pub fn execute<T: Trace>(&mut self, trace: &T) -> (cmd: Option<ClipboardCmd>)
        ensures
            final(self).pending is None,
            final(self).last_outcome == old(self).last_outcome,
            final(self).last_toasted_seq == old(self).last_toasted_seq,
            final(self).next_seq == old(self).next_seq,
            match old(self).pending {
                None => cmd is None,
                Some(req) => cmd == Some(ClipboardCmd::Write { seq: req.seq, text: req.text, success_toast: req.success_toast }),
            },
    {
        let cmd = self.take_write_cmd();
        if let Some(ClipboardCmd::Write { seq, .. }) = &cmd {
            trace.clipboard_write(*seq);
        }
        cmd
    }

    /// Fold a worker event as `apply_event` does, telling `trace` the
    /// outcome.
    pub fn process<T: Trace>(&mut self, ev: ClipboardEvent, trace: &T)
        ensures
            match ev {
                ClipboardEvent::WriteOutcome { seq, success_toast, ok } =>
                    final(self).last_outcome == Some(CopyOutcome { seq, success_toast, ok }),
            },
            final(self).pending == old(self).pending,
            final(self).last_toasted_seq == old(self).last_toasted_seq,
            final(self).next_seq == old(self).next_seq,
    {
        match &ev {
            ClipboardEvent::WriteOutcome { seq, ok, .. } => trace.clipboard_outcome(*seq, *ok),
        }
        self.apply_event(ev);
    }
}

} // verus!
