//! Requests queued for the server until the link can carry them, and
//! the allocation of request seqs and task ids.

use vstd::prelude::*;
use crate::proto::{ClientMsg, TaskId};

verus! {

/// One queued request.
pub struct PendingRequest {
    pub seq: u64,
    pub task_id: Option<TaskId>,
    pub msg: ClientMsg,
}

/// The id after `n`; zero is reserved for broadcasts and never handed out.
pub open spec fn next_id(n: u64) -> u64 {
    if n == u64::MAX { 1 } else { (n + 1) as u64 }
}

/// Whether a queued request is the handshake.
pub open spec fn is_hello(p: PendingRequest) -> bool {
    p.msg is Hello
}

pub open spec fn hello_only() -> spec_fn(PendingRequest) -> bool {
    |p: PendingRequest| is_hello(p)
}

/// `post` is `pre` with `msg` queued under the next seq.
pub open spec fn queued(pre: RequestQueue, post: RequestQueue, msg: ClientMsg, task_id: Option<TaskId>) -> bool {
    let seq = next_id(pre.last_seq);
    &&& post.pending@ == pre.pending@.push(PendingRequest { seq, task_id, msg })
    &&& post.last_seq == seq
    &&& post.last_task == pre.last_task
}

/// The request-queue source.
pub struct RequestQueue {
    pub pending: Vec<PendingRequest>,
    /// Last seq handed out.
    pub last_seq: u64,
    /// Last task id handed out.
    pub last_task: u64,
}

impl RequestQueue {
    pub fn new() -> (q: Self)
        ensures
            q.pending@.len() == 0,
            q.last_seq == 0,
            q.last_task == 0,
    {
        RequestQueue { pending: Vec::new(), last_seq: 0, last_task: 0 }
    }

    /// Queue `msg` under a fresh non-zero seq and return that seq.
    pub fn push(&mut self, msg: ClientMsg, task_id: Option<TaskId>) -> (seq: u64)
        ensures
            seq == next_id(old(self).last_seq),
            seq != 0,
            final(self).last_seq == seq,
            final(self).last_task == old(self).last_task,
            final(self).pending@ == old(self).pending@.push(PendingRequest { seq, task_id, msg }),
    {
        let seq = if self.last_seq == u64::MAX { 1 } else { self.last_seq + 1 };
        self.last_seq = seq;
        self.pending.push(PendingRequest { seq, task_id, msg });
        seq
    }

    /// Hand out a fresh non-zero task id.
    pub fn alloc_task_id(&mut self) -> (t: TaskId)
        ensures
            t == next_id(old(self).last_task),
            t != 0,
            final(self).last_task == t,
            final(self).last_seq == old(self).last_seq,
            final(self).pending@ == old(self).pending@,
    {
        let t = if self.last_task == u64::MAX { 1 } else { self.last_task + 1 };
        self.last_task = t;
        t
    }

    /// Take the oldest queued request.
    pub fn pop_front(&mut self) -> (r: Option<PendingRequest>)
        ensures
            old(self).pending@.len() == 0 ==> r is None && final(self).pending@ == old(self).pending@,
            old(self).pending@.len() > 0 ==> r == Some(old(self).pending@[0])
                && final(self).pending@ == old(self).pending@.subrange(1, old(self).pending@.len() as int),
            final(self).last_seq == old(self).last_seq,
            final(self).last_task == old(self).last_task,
    {
        if self.pending.len() == 0 {
            None
        } else {
            Some(self.pending.remove(0))
        }
    }

    /// Drop every queued request.
    pub fn clear(&mut self)
        ensures
            final(self).pending@.len() == 0,
            final(self).last_seq == old(self).last_seq,
            final(self).last_task == old(self).last_task,
    {
        self.pending.clear();
    }

    /// Drop every queued request except handshakes, keeping their order.
    pub fn retain_hello(&mut self)
        ensures
            final(self).pending@ == old(self).pending@.filter(hello_only()),
            final(self).last_seq == old(self).last_seq,
            final(self).last_task == old(self).last_task,
    {
        let ghost p = hello_only();
        let ghost orig = self.pending@;
        let mut rest: Vec<PendingRequest> = Vec::new();
        std::mem::swap(&mut rest, &mut self.pending);
        let mut items: Vec<Option<PendingRequest>> = Vec::new();
        while rest.len() > 0
            invariant
                rest@.len() + items@.len() == orig.len(),
                rest@ == orig.take(rest@.len() as int),
                forall|k: int| 0 <= k < items@.len() ==> items@[k] == Some(orig[orig.len() - 1 - k]),
            decreases rest@.len(),
        {
            let e = rest.pop().unwrap();
            items.push(Some(e));
        }
        let mut out: Vec<PendingRequest> = Vec::new();
        while items.len() > 0
            invariant
                items@.len() <= orig.len(),
                p == hello_only(),
                out@ == orig.take(orig.len() - items@.len()).filter(p),
                forall|k: int| 0 <= k < items@.len() ==> items@[k] == Some(orig[orig.len() - 1 - k]),
            decreases items@.len(),
        {
            let ghost done = (orig.len() - items@.len()) as int;
            let e = items.pop().unwrap().unwrap();
            proof {
                assert(orig.take(done + 1).drop_last() =~= orig.take(done));
                assert(orig.take(done + 1).last() == e);
                reveal(Seq::filter);
            }
            let keep = match &e.msg {
                ClientMsg::Hello { .. } => true,
                _ => false,
            };
            if keep {
                out.push(e);
            }
        }
        proof {
            assert(orig.take(orig.len() as int) =~= orig);
        }
        self.pending = out;
    }
}

} // verus!
