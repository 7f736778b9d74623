//! Surface a server-side error reply as the error modal, only while
//! nothing more important is on screen.

use vstd::prelude::*;
use crate::seqs::{first_index, lemma_is_first_index, lemma_none_index};
use crate::state::server::{ResponseEntry, ServerReply};
use crate::state::sources::Sources;
use crate::state::ui::Screen;

verus! {

/// Whether a reply is an error.
pub open spec fn is_error_reply() -> spec_fn(ResponseEntry) -> bool {
    |e: ResponseEntry| e.reply is Error
}

/// Position of the first queued error reply.
pub fn find_error(replies: &Vec<ResponseEntry>) -> (r: Option<usize>)
    ensures
        r matches Some(i) ==> first_index(replies@, is_error_reply()) == Some(i as int) && (i as int) < replies@.len(),
        r is None ==> first_index(replies@, is_error_reply()) is None,
{
    let mut i: usize = 0;
    while i < replies.len()
        invariant
            i <= replies@.len(),
            forall|j: int| 0 <= j < i ==> !is_error_reply()(replies@[j]),
        decreases replies@.len() - i,
    {
        if let ServerReply::Error { .. } = replies[i].reply {
            proof {
                lemma_is_first_index(replies@, is_error_reply(), i as int);
            }
            return Some(i);
        }
        i = i + 1;
    }
    proof {
        lemma_none_index(replies@, is_error_reply());
    }
    None
}

/// What `apply_server_errors` does to the sources.
pub open spec fn apply_server_errors_effect(pre: Sources, post: Sources) -> bool {
    &&& (!(pre.screen is NowPlaying) ==> post == pre)
    &&& (pre.screen is NowPlaying ==> match first_index(pre.responses.by_seq@, is_error_reply()) {
        None => post == pre,
        Some(i) => {
            &&& post.responses.by_seq@ == pre.responses.by_seq@.remove(i)
            &&& post.screen matches Screen::ErrorModal { message }
                && pre.responses.by_seq@[i].reply matches ServerReply::Error { message: m }
                && message@ == m@
            &&& post == (Sources {
                responses: post.responses,
                screen: post.screen,
                ..pre
            })
        },
    })
}

/// On the now-playing screen, take the first queued error reply and
/// open the error modal with its message; otherwise change nothing.
pub fn apply_server_errors(sources: &mut Sources)
    ensures
        apply_server_errors_effect(*old(sources), *final(sources)),
{
    match sources.screen {
        Screen::NowPlaying => {},
        _ => return,
    }
    let i = match find_error(&sources.responses.by_seq) {
        None => return,
        Some(i) => i,
    };
    proof {
        crate::seqs::lemma_index_facts(sources.responses.by_seq@, is_error_reply());
    }
    let entry = sources.responses.by_seq.remove(i);
    match entry.reply {
        ServerReply::Error { message } => {
            sources.screen = Screen::ErrorModal { message };
        },
        _ => {},
    }
}

} // verus!
