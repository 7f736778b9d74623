//! Fire a toast once per successful clipboard write the worker reports.

use vstd::prelude::*;
use crate::execute::ref_view;
use crate::state::sources::Sources;

verus! {

/// How long the copy toast stays up, in milliseconds.
pub const TOAST_TTL_MS: u64 = 3000;

pub struct ClipboardToastInput<'a> {
    pub last_outcome_seq: Option<u64>,
    pub last_outcome_ok: Option<bool>,
    pub last_outcome_text: Option<&'a String>,
    pub last_toasted_seq: Option<u64>,
}

pub enum ClipboardToastAction {
    Noop,
    Fire { seq: u64, text: String },
    /// The write failed: only move the guard so it is not seen again.
    Skip { seq: u64 },
}

pub fn clipboard_toast_action(input: &ClipboardToastInput) -> (r: ClipboardToastAction)
    ensures
        match input.last_outcome_seq {
            None => r is Noop,
            Some(seq) => if input.last_toasted_seq == Some(seq) {
                r is Noop
            } else {
                match input.last_outcome_ok {
                    Some(true) => r matches ClipboardToastAction::Fire { seq: s, text } && s == seq && text@ == (match ref_view(input.last_outcome_text) {
                        Some(t) => t,
                        None => Seq::empty(),
                    }),
                    Some(false) => r == (ClipboardToastAction::Skip { seq }),
                    None => r is Noop,
                }
            },
        },
{
    let seq = match input.last_outcome_seq {
        None => return ClipboardToastAction::Noop,
        Some(s) => s,
    };
    if input.last_toasted_seq == Some(seq) {
        return ClipboardToastAction::Noop;
    }
    match input.last_outcome_ok {
        Some(true) => ClipboardToastAction::Fire {
            seq,
            text: match input.last_outcome_text {
                Some(t) => t.clone(),
                None => String::new(),
            },
        },
        Some(false) => ClipboardToastAction::Skip { seq },
        None => ClipboardToastAction::Noop,
    }
}

/// Whether the toast step has anything to do on `s`, and whether the
/// outcome it handles was a success.
pub open spec fn spec_toast_due(s: Sources) -> Option<(u64, bool)> {
    match s.clipboard.last_outcome {
        None => None,
        Some(o) => if s.clipboard.last_toasted_seq == Some(o.seq) {
            None
        } else {
            Some((o.seq, o.ok))
        },
    }
}

/// What `apply_clipboard_toast` does to the sources.
pub open spec fn apply_clipboard_toast_effect(pre: Sources, post: Sources) -> bool {
    &&& (match spec_toast_due(pre) {
        None => post == pre,
        Some((seq, ok)) => {
            &&& post.clipboard.last_toasted_seq == Some(seq)
            &&& post.clipboard.pending == pre.clipboard.pending
            &&& post.clipboard.last_outcome == pre.clipboard.last_outcome
            &&& ok ==> (post.toast.message matches Some(m) && m@ == pre.clipboard.last_outcome->0.success_toast@)
                && post.toast.expires_at == Some(crate::state::link::sat_add(pre.now, TOAST_TTL_MS))
            &&& !ok ==> post.toast == pre.toast
            &&& post == Sources { clipboard: post.clipboard, toast: post.toast, ..pre }
        },
    })
    &&& (spec_toast_due(post) is None)
}

pub fn apply_clipboard_toast(sources: &mut Sources)
    ensures
        apply_clipboard_toast_effect(*old(sources), *final(sources)),
{
    let action = {
        let c = &sources.clipboard;
        let input = ClipboardToastInput {
            last_outcome_seq: match &c.last_outcome { Some(o) => Some(o.seq), None => None },
            last_outcome_ok: match &c.last_outcome { Some(o) => Some(o.ok), None => None },
            last_outcome_text: match &c.last_outcome { Some(o) => Some(&o.success_toast), None => None },
            last_toasted_seq: c.last_toasted_seq,
        };
        clipboard_toast_action(&input)
    };
    match action {
        ClipboardToastAction::Noop => {},
        ClipboardToastAction::Fire { seq, text } => {
            sources.clipboard.last_toasted_seq = Some(seq);
            let at = sources.now.saturating_add(TOAST_TTL_MS);
            sources.toast.show(text, at);
        },
        ClipboardToastAction::Skip { seq } => {
            sources.clipboard.last_toasted_seq = Some(seq);
        },
    }
}

} // verus!
