//! Properties of the library that span several calls.

use vstd::prelude::*;
use vstd::std_specs::cmp::PartialEqSpec;
use crate::dispatch::{drilled, stepped_back, stepped_forward};
use crate::persist::{SearchHistoryItem, SEARCH_HISTORY_LIMIT};
use crate::persist_store::{clean_char, history_after_push, other_search, sanitised, strip_dots};
use crate::state::history::MiddleMode;
use crate::state::sources::Sources;
use crate::tls::b64_spec;
use crate::ui_bridge::{UiBridgeState, ViewKind};

verus! {

/// Going back right after drilling in returns the middle pane to where
/// it was: the same mode, filter text, cursor row and back stack.
pub proof fn law_back_undoes_drill(s0: Sources, s1: Sources, s2: Sources, m: MiddleMode)
    requires
        drilled(s0, s1, m),
        stepped_back(s1, s2),
    ensures
        s2.history.mode == s0.history.mode,
        s2.filter == s0.filter,
        s2.cursor.middle == s0.cursor.middle,
        s2.history.back@ == s0.history.back@,
{
    assert(s1.history.back@.drop_last() =~= s0.history.back@);
}

/// Going forward right after going back restores the location and
/// both stacks exactly.
pub proof fn law_forward_undoes_back(s0: Sources, s1: Sources, s2: Sources)
    requires
        stepped_back(s0, s1),
        stepped_forward(s1, s2),
    ensures
        s2.history.mode == s0.history.mode,
        s2.filter == s0.filter,
        s2.cursor == s0.cursor,
        s2.history.back@ == s0.history.back@,
        s2.history.forward@ == s0.history.forward@,
{
    assert(s1.history.forward@.drop_last() =~= s0.history.forward@);
    assert(s2.history.back@ =~= s0.history.back@) by {
        assert(s0.history.back@.drop_last().push(s0.history.back@.last()) =~= s0.history.back@);
    }
}

/// Base64 output is four characters for every started group of three
/// bytes.
pub proof fn law_base64_length(d: Seq<u8>)
    ensures
        b64_spec(d).len() == 4 * ((d.len() + 2) / 3),
    decreases d.len(),
{
    if d.len() >= 3 {
        law_base64_length(d.subrange(3, d.len() as int));
    }
}

/// A sanitised name is one safe path segment: no separator, no NUL,
/// and it does not start with a dot.
pub proof fn law_sanitised_is_one_segment(s: Seq<char>)
    ensures
        forall|i: int| 0 <= i < sanitised(s).len() ==> sanitised(s)[i] != '/' && sanitised(s)[i] != '\\' && sanitised(s)[i] != '\0',
        sanitised(s).len() > 0 ==> sanitised(s)[0] != '.',
{
    let c = s.map_values(|c: char| clean_char(c));
    lemma_strip_dots_suffix(c);
    assert forall|i: int| 0 <= i < sanitised(s).len() implies sanitised(s)[i] != '/' && sanitised(s)[i] != '\\'
        && sanitised(s)[i] != '\0' by {
        let k = c.len() - sanitised(s).len();
        assert(sanitised(s)[i] == c[k + i]);
    }
}

/// Stripping leading dots leaves a suffix that does not start with a
/// dot.
proof fn lemma_strip_dots_suffix(s: Seq<char>)
    ensures
        strip_dots(s).len() <= s.len(),
        strip_dots(s) == s.subrange(s.len() - strip_dots(s).len(), s.len() as int),
        strip_dots(s).len() > 0 ==> strip_dots(s)[0] != '.',
    decreases s.len(),
{
    if s.len() > 0 && s[0] == '.' {
        lemma_strip_dots_suffix(s.drop_first());
        assert(s.drop_first().subrange(
            s.drop_first().len() - strip_dots(s.drop_first()).len(),
            s.drop_first().len() as int,
        ) =~= s.subrange(s.len() - strip_dots(s).len(), s.len() as int));
    } else {
        assert(s.subrange(0, s.len() as int) =~= s);
    }
}

/// After a push the pushed search is the newest entry, occurs nowhere
/// else, and at most ten searches are kept.
pub proof fn law_history_push(items: Seq<SearchHistoryItem>, item: SearchHistoryItem)
    ensures
        history_after_push(items, item).len() > 0,
        history_after_push(items, item)[0] == item,
        history_after_push(items, item).len() <= SEARCH_HISTORY_LIMIT,
        forall|k: int| 1 <= k < history_after_push(items, item).len() ==> other_search(item.query@, item.search_type@)(
            #[trigger] history_after_push(items, item)[k],
        ),
{
    let p = other_search(item.query@, item.search_type@);
    let kept = items.filter(p);
    let all = seq![item] + kept;
    assert forall|k: int| 1 <= k < history_after_push(items, item).len() implies p(
        #[trigger] history_after_push(items, item)[k],
    ) by {
        assert(history_after_push(items, item)[k] == all[k]);
        assert(all[k] == kept[k - 1]);
        broadcast use vstd::seq_lib::group_filter_ensures;
    }
}

/// Pushing the same payload for a view twice ships it once: the second
/// push is dropped and changes nothing.
pub proof fn law_bridge_repeat_push_is_noop(
    s0: UiBridgeState,
    s1: UiBridgeState,
    s2: UiBridgeState,
    kind: ViewKind,
    payload: Seq<u8>,
    first: bool,
    second: bool,
)
    requires
        UiBridgeState::staged(s0, s1, kind, payload, first),
        UiBridgeState::staged(s1, s2, kind, payload, second),
    ensures
        !second,
        s2 == s1,
{
}

/// In a wrapping menu or list of `n` rows, one step up and one step
/// down cancel out, in either order.
pub proof fn law_wrapping_steps_cancel(sel: usize, n: usize)
    requires
        sel < n,
    ensures
        crate::server_picker::wrap_down(crate::server_picker::wrap_up(sel, n), n) == sel,
        crate::server_picker::wrap_up(crate::server_picker::wrap_down(sel, n), n) == sel,
{
    let up = crate::server_picker::wrap_up(sel, n);
    assert(up < n);
    if up + 1 == n {
        vstd::arithmetic::div_mod::lemma_mod_self_0(n as int);
    } else {
        vstd::arithmetic::div_mod::lemma_small_mod((up + 1) as nat, n as nat);
    }
    if sel + 1 == n {
        vstd::arithmetic::div_mod::lemma_mod_self_0(n as int);
    } else {
        vstd::arithmetic::div_mod::lemma_small_mod((sel + 1) as nat, n as nat);
    }
}

/// Moving focus one column on and then one column back returns to the
/// same column, and the other way round.
pub proof fn law_focus_cycle_cancels(f: crate::state::ui::ColumnFocus)
    ensures
        crate::state::ui::focus_before(crate::state::ui::focus_after(f)) == f,
        crate::state::ui::focus_after(crate::state::ui::focus_before(f)) == f,
{
}

/// Every key-level event keeps the selection well formed: its rows stay
/// strictly ascending, so each row is selected at most once.
pub proof fn law_selection_stays_well_formed(
    pre: Sources,
    post: Sources,
    ev: crate::events::TuiCursorEvent,
    cmds: Seq<crate::events::DriverCmd>,
)
    requires
        pre.selection.wf(),
        crate::events::cursor_step(pre, post, ev, cmds),
    ensures
        post.selection.wf(),
{
}

/// Toggling selection mode twice on the focused middle or queue column
/// leaves no selection behind.
pub proof fn law_selection_toggle_twice(s0: Sources, s1: Sources, s2: Sources)
    requires
        s0.selection.wf(),
        s0.cursor.focus != crate::state::ui::ColumnFocus::Left,
        crate::selecting::toggle_selection_for_focused_effect(s0, s1),
        crate::selecting::toggle_selection_for_focused_effect(s1, s2),
    ensures
        s0.selection.context is None ==> s2.selection.is_reset(),
        s0.selection.context is Some ==> s1.selection.is_reset() && s2.selection.context is Some
            && s2.selection.selected@.len() == 0,
{
}

/// A pairing that is saved and then forgotten is gone, and every other
/// stored pairing is as it was before the save.
pub proof fn law_forget_undoes_save(
    c0: crate::state::credentials::Credentials,
    c1: crate::state::credentials::Credentials,
    c2: crate::state::credentials::Credentials,
    e: crate::state::credentials::PairingEntry,
    fingerprint: String,
)
    requires
        crate::state::credentials::fps_unique(c0.entries@),
        fingerprint@ == e.fingerprint@,
        crate::ingest::credentials_folded(c0, c1, crate::drivers::CredEvent::Saved(e)),
        crate::ingest::credentials_folded(c1, c2, crate::drivers::CredEvent::Deleted { fingerprint }),
    ensures
        crate::state::credentials::cred_of(c2.entries@, e.fingerprint@) is None,
        forall|fp: Seq<char>|
            fp != e.fingerprint@ ==> #[trigger] crate::state::credentials::cred_of(c2.entries@, fp)
                == crate::state::credentials::cred_of(c0.entries@, fp),
{
    let s = c1.entries@;
    let k = e.fingerprint@;
    crate::seqs::lemma_index_facts(s, crate::state::credentials::for_fp(k));
    let i = crate::seqs::first_index(s, crate::state::credentials::for_fp(k)).unwrap();
    crate::state::credentials::lemma_remove_own(s, i, k);
    assert forall|fp: Seq<char>| fp != k implies #[trigger] crate::state::credentials::cred_of(c2.entries@, fp)
        == crate::state::credentials::cred_of(c0.entries@, fp) by {
        crate::state::credentials::lemma_remove_keeps_other(s, i, fp);
    }
}

/// A server that is announced and then removed is no longer listed,
/// and every other name is listed exactly when it was before.
pub proof fn law_removal_undoes_announcement(
    d0: crate::state::discovery::Discovery,
    d1: crate::state::discovery::Discovery,
    d2: crate::state::discovery::Discovery,
    ad: crate::state::discovery::ServerAd,
    name: String,
)
    requires
        d0.wf(),
        name@ == ad.name@,
        crate::ingest::discovery_folded(d0, d1, crate::drivers::DiscoveryEvent::Added(ad)),
        crate::ingest::discovery_folded(d1, d2, crate::drivers::DiscoveryEvent::Removed { name }),
    ensures
        !crate::state::discovery::has_server_named(d2.servers@, ad.name@),
        forall|n: Seq<char>|
            n != ad.name@ ==> (#[trigger] crate::state::discovery::has_server_named(d2.servers@, n)
                == crate::state::discovery::has_server_named(d0.servers@, n)),
{
    let s0 = d0.servers@;
    let s1 = d1.servers@;
    let s2 = d2.servers@;
    let k = ad.name@;
    crate::state::discovery::lemma_find_is_first(s0, k);
    match crate::state::discovery::find_first_name(s0, k) {
        Some(i0) => assert(s1[i0] == ad),
        None => assert(s1[s0.len() as int] == ad),
    }
    crate::state::discovery::lemma_find_is_first(s1, k);
    let i = crate::state::discovery::find_first_name(s1, k).unwrap();
    assert(s2 == s1.remove(i));
    assert forall|j: int| 0 <= j < s2.len() implies s2[j].name@ != k by {
        if j < i {
            assert(s2[j] == s1[j]);
        } else {
            assert(s2[j] == s1[j + 1]);
        }
    }
    assert forall|n: Seq<char>| n != k implies (#[trigger] crate::state::discovery::has_server_named(s2, n)
        == crate::state::discovery::has_server_named(s0, n)) by {
        if crate::state::discovery::has_server_named(s0, n) {
            let j = choose|j: int| 0 <= j < s0.len() && s0[j].name@ == n;
            assert(s1[j] == s0[j]);
            let j2 = if j < i { j } else { j - 1 };
            assert(s2[j2] == s1[j]);
        }
        if crate::state::discovery::has_server_named(s2, n) {
            let j = choose|j: int| 0 <= j < s2.len() && s2[j].name@ == n;
            let j1 = if j < i { j } else { j + 1 };
            assert(s2[j] == s1[j1]);
            if j1 < s0.len() {
                assert(s1[j1] == s0[j1]);
            }
        }
    }
}


/// After recording a model, the bridge reports that model unchanged
/// and the model recorded before it (if different) changed: the most
/// recent frame's value wins. Stated for a `T` whose `==` is equality.
pub proof fn law_bridge_latest_frame_wins<T: Clone + PartialEq>(
    b1: crate::bridge::ViewBridge<T>,
    b2: crate::bridge::ViewBridge<T>,
    m1: T,
    m2: T,
)
    requires
        crate::bridge::eq_is_equality::<T>(),
        b1.recorded() == Some(m1),
        b2.recorded() == Some(m2),
    ensures
        b2.matches_recorded(m2),
        m1 != m2 ==> !b2.matches_recorded(m1),
        b1.matches_recorded(m1),
{
    assert(m2.eq_spec(&m2));
    assert(m1.eq_spec(&m1));
    assert(m2.eq_spec(&m1) <==> m2 == m1);
}


/// Replaying a catch-up leaves the queue as the same changes sent one
/// delta frame at a time would, once the queue is the one mirrored.
pub proof fn law_catch_up_matches_delta_frames(
    st: Seq<Sources>,
    queue_id: u64,
    ds: Seq<(u64, crate::proto::QueueDelta)>,
)
    requires
        st.len() == ds.len() + 1,
        st[0].queue.queue_id == Some(queue_id),
        forall|k: int|
            0 <= k < ds.len() ==> #[trigger] crate::ingest::broadcast_folded(
                st[k],
                st[k + 1],
                crate::link_driver::Response {
                    seq: 0,
                    task_id: None,
                    msg: crate::link_driver::ServerMsg::QueueDelta { queue_id, version: ds[k].0, delta: ds[k].1 },
                },
            ),
    ensures
        st[ds.len() as int].queue.model() == crate::state::server::replayed(st[0].queue.model(), ds),
    decreases ds.len(),
{
    if ds.len() > 0 {
        let n = ds.len() - 1;
        let k = n as int;
        assert(crate::ingest::broadcast_folded(
            st[k],
            st[k + 1],
            crate::link_driver::Response {
                seq: 0,
                task_id: None,
                msg: crate::link_driver::ServerMsg::QueueDelta { queue_id, version: ds[k].0, delta: ds[k].1 },
            },
        ));
        let st2 = st.take(k + 1);
        let ds2 = ds.take(k);
        assert forall|j: int| 0 <= j < ds2.len() implies #[trigger] crate::ingest::broadcast_folded(
            st2[j],
            st2[j + 1],
            crate::link_driver::Response {
                seq: 0,
                task_id: None,
                msg: crate::link_driver::ServerMsg::QueueDelta { queue_id, version: ds2[j].0, delta: ds2[j].1 },
            },
        ) by {
            assert(st2[j] == st[j] && st2[j + 1] == st[j + 1] && ds2[j] == ds[j]);
            assert(crate::ingest::broadcast_folded(
                st[j],
                st[j + 1],
                crate::link_driver::Response {
                    seq: 0,
                    task_id: None,
                    msg: crate::link_driver::ServerMsg::QueueDelta { queue_id, version: ds[j].0, delta: ds[j].1 },
                },
            ));
        }
        law_catch_up_matches_delta_frames(st2, queue_id, ds2);
        assert(ds.drop_last() =~= ds2);
        lemma_replay_keeps_queue_id(st[0].queue.model(), ds2);
    }
}

/// Deltas never change which queue is mirrored.
pub proof fn lemma_replay_keeps_queue_id(q: crate::state::server::QueueModel, ds: Seq<(u64, crate::proto::QueueDelta)>)
    ensures
        crate::state::server::replayed(q, ds).queue_id == q.queue_id,
    decreases ds.len(),
{
    if ds.len() > 0 {
        lemma_replay_keeps_queue_id(q, ds.drop_last());
    }
}


/// A bridge made by `new` and then given `record(ms[0])`, ...,
/// `record(ms[n - 1])` holds nothing when no record was made and
/// otherwise the argument of the latest record; `last` returns exactly
/// that.
pub proof fn law_bridge_last_is_latest_record<T: Clone + PartialEq>(
    bs: Seq<crate::bridge::ViewBridge<T>>,
    ms: Seq<T>,
)
    requires
        bs.len() == ms.len() + 1,
        bs[0].recorded() is None,
        forall|k: int| 0 <= k < ms.len() ==> #[trigger] bs[k + 1].recorded() == Some(ms[k]),
    ensures
        ms.len() == 0 <==> bs[ms.len() as int].recorded() is None,
        ms.len() > 0 ==> bs[ms.len() as int].recorded() == Some(ms[ms.len() - 1]),
{
    if ms.len() > 0 {
        let k = ms.len() - 1;
        assert(bs[k + 1].recorded() == Some(ms[k]));
    }
}


// ---------------------------------------------------------------------
// Wake-up deadlines
// ---------------------------------------------------------------------

/// The earliest reap instant of a task list is the least of the tasks'
/// own reap instants, and exists exactly when there is a task.
pub proof fn lemma_next_reap_is_least(tasks: Seq<crate::state::server::ActivityTask>, ttl: u64)
    ensures
        crate::state::server::Activity::spec_next_reap_at(tasks, ttl) is None <==> tasks.len() == 0,
        crate::state::server::Activity::spec_next_reap_at(tasks, ttl) matches Some(m) ==> {
            &&& forall|i: int| 0 <= i < tasks.len() ==> m <= #[trigger] crate::state::link::sat_add(tasks[i].started_at, ttl)
            &&& exists|i: int| 0 <= i < tasks.len() && m == #[trigger] crate::state::link::sat_add(tasks[i].started_at, ttl)
        },
    decreases tasks.len(),
{
    if tasks.len() > 0 {
        let rest = tasks.drop_last();
        lemma_next_reap_is_least(rest, ttl);
        let last = tasks.len() - 1;
        assert forall|i: int| 0 <= i < rest.len() implies rest[i] == tasks[i] by {}
        match crate::state::server::Activity::spec_next_reap_at(rest, ttl) {
            None => {
                assert(crate::state::link::sat_add(tasks[last].started_at, ttl) == crate::state::link::sat_add(tasks[last].started_at, ttl));
            },
            Some(m0) => {
                let j = choose|i: int| 0 <= i < rest.len() && m0 == #[trigger] crate::state::link::sat_add(rest[i].started_at, ttl);
                assert(m0 == crate::state::link::sat_add(tasks[j].started_at, ttl));
                assert(crate::state::link::sat_add(tasks[last].started_at, ttl) == crate::state::link::sat_add(tasks[last].started_at, ttl));
                assert forall|i: int| 0 <= i < rest.len() implies m0 <= #[trigger] crate::state::link::sat_add(tasks[i].started_at, ttl) by {
                    assert(crate::state::link::sat_add(rest[i].started_at, ttl) == crate::state::link::sat_add(tasks[i].started_at, ttl));
                }
            },
        }
    }
}

/// The loop wakes no later than any pending instant (the next spinner
/// frame while a spinner shows, the preview's and the toast's expiry,
/// any peer task turning stale, the next permitted reconnect), wakes at
/// one of them, and sleeps without a deadline only when none is
/// pending.
pub proof fn law_wake_at_the_earliest_deadline(s: Sources)
    ensures
        s.preview.expires_at matches Some(t) ==> crate::runtime::spec_nearest_deadline(s) matches Some(d) && d <= t,
        s.toast.expires_at matches Some(t) ==> crate::runtime::spec_nearest_deadline(s) matches Some(d) && d <= t,
        s.link.retry_at matches Some(t) ==> crate::runtime::spec_nearest_deadline(s) matches Some(d) && d <= t,
        crate::runtime::spec_any_spinner_active(s) ==> (crate::runtime::spec_nearest_deadline(s) matches Some(d)
            && d <= crate::state::link::sat_add(s.now, crate::runtime::SPIN_INTERVAL_MS)),
        forall|i: int| 0 <= i < s.activity.tasks@.len() ==> (crate::runtime::spec_nearest_deadline(s) matches Some(d)
            && d <= #[trigger] crate::state::link::sat_add(s.activity.tasks@[i].started_at, crate::state::server::STALE_TASK_TTL_MS)),
        crate::runtime::spec_nearest_deadline(s) matches Some(d) ==> {
            ||| s.preview.expires_at == Some(d)
            ||| s.toast.expires_at == Some(d)
            ||| s.link.retry_at == Some(d)
            ||| (crate::runtime::spec_any_spinner_active(s) && d == crate::state::link::sat_add(s.now, crate::runtime::SPIN_INTERVAL_MS))
            ||| exists|i: int| 0 <= i < s.activity.tasks@.len()
                && d == #[trigger] crate::state::link::sat_add(s.activity.tasks@[i].started_at, crate::state::server::STALE_TASK_TTL_MS)
        },
        crate::runtime::spec_nearest_deadline(s) is None ==> {
            &&& s.preview.expires_at is None
            &&& s.toast.expires_at is None
            &&& s.link.retry_at is None
            &&& !crate::runtime::spec_any_spinner_active(s)
            &&& s.activity.tasks@.len() == 0
        },
{
    lemma_next_reap_is_least(s.activity.tasks@, crate::state::server::STALE_TASK_TTL_MS);
}

/// The folder wakes at the earliest expiry among its servers: no later
/// than any server's last sighting plus the time-to-live, at one of
/// them, and never when it holds no server.
pub proof fn law_next_expiry_is_the_earliest(entries: Seq<crate::discovery_folder::FolderEntry>)
    ensures
        crate::discovery_folder::spec_next_expiry(entries) is None <==> entries.len() == 0,
        crate::discovery_folder::spec_next_expiry(entries) matches Some(m) ==> {
            &&& forall|i: int| 0 <= i < entries.len() ==> m <= #[trigger] crate::state::link::sat_add(
                entries[i].last_seen,
                crate::discovery_folder::SERVER_TTL_MS,
            )
            &&& exists|i: int| 0 <= i < entries.len() && m == #[trigger] crate::state::link::sat_add(
                entries[i].last_seen,
                crate::discovery_folder::SERVER_TTL_MS,
            )
        },
    decreases entries.len(),
{
    if entries.len() > 0 {
        let rest = entries.drop_last();
        law_next_expiry_is_the_earliest(rest);
        let last = entries.len() - 1;
        let ttl = crate::discovery_folder::SERVER_TTL_MS;
        assert(crate::state::link::sat_add(entries[last].last_seen, ttl) == crate::state::link::sat_add(entries[last].last_seen, ttl));
        match crate::discovery_folder::spec_next_expiry(rest) {
            None => {},
            Some(m0) => {
                let j = choose|i: int| 0 <= i < rest.len() && m0 == #[trigger] crate::state::link::sat_add(rest[i].last_seen, ttl);
                assert(m0 == crate::state::link::sat_add(entries[j].last_seen, ttl));
                assert forall|i: int| 0 <= i < rest.len() implies m0 <= #[trigger] crate::state::link::sat_add(entries[i].last_seen, ttl) by {
                    assert(crate::state::link::sat_add(rest[i].last_seen, ttl) == crate::state::link::sat_add(entries[i].last_seen, ttl));
                }
            },
        }
    }
}


// ---------------------------------------------------------------------
// The queue pane
// ---------------------------------------------------------------------

/// `kept_indices(n, p)` lists, in increasing order, exactly the indices
/// below `n` that satisfy `p`.
pub proof fn lemma_kept_exactly(n: nat, p: spec_fn(int) -> bool)
    requires
        n <= usize::MAX,
    ensures
        forall|k: int| 0 <= k < crate::queries::kept_indices(n, p).len() ==> {
            &&& (#[trigger] crate::queries::kept_indices(n, p)[k]) < n
            &&& p(crate::queries::kept_indices(n, p)[k] as int)
        },
        forall|a: int, b: int| 0 <= a < b < crate::queries::kept_indices(n, p).len() ==>
            #[trigger] crate::queries::kept_indices(n, p)[a] < #[trigger] crate::queries::kept_indices(n, p)[b],
        forall|i: int| 0 <= i < n && #[trigger] p(i) ==> exists|k: int|
            0 <= k < crate::queries::kept_indices(n, p).len() && crate::queries::kept_indices(n, p)[k] == i,
    decreases n,
{
    if n > 0 {
        let m = (n - 1) as nat;
        lemma_kept_exactly(m, p);
        let rest = crate::queries::kept_indices(m, p);
        let all = crate::queries::kept_indices(n, p);
        if p(m as int) {
            assert(all == rest.push(m as usize));
            assert forall|i: int| 0 <= i < n && #[trigger] p(i) implies exists|k: int|
                0 <= k < all.len() && all[k] == i by {
                if i < m {
                    let k = choose|k: int| 0 <= k < rest.len() && rest[k] == i;
                    assert(all[k] == rest[k]);
                } else {
                    assert(all[rest.len() as int] == m as usize);
                }
            }
        } else {
            assert(all == rest);
            assert forall|i: int| 0 <= i < n && #[trigger] p(i) implies exists|k: int|
                0 <= k < all.len() && all[k] == i by {
                let k = choose|k: int| 0 <= k < rest.len() && rest[k] == i;
            }
        }
    }
}

/// Whether queue row `i` passes the queue filter: the filter, lower
/// cased, is empty or occurs in the lower-cased song title.
pub open spec fn queue_title_passes(s: Sources, i: int) -> bool {
    let f = crate::text::lowercase(s.filter.queue@);
    f.len() == 0 || crate::queries::has_substring(crate::text::lowercase(s.queue.items@[i].title@), f)
}

/// The queue pane lists, in queue order, exactly the rows whose title
/// passes the queue filter.
pub proof fn law_queue_filter_keeps_matching_titles(s: Sources)
    ensures
        forall|k: int| 0 <= k < crate::queries::spec_queue_indices(s).len() ==> {
            &&& (#[trigger] crate::queries::spec_queue_indices(s)[k] as int) < s.queue.items@.len()
            &&& queue_title_passes(s, crate::queries::spec_queue_indices(s)[k] as int)
        },
        forall|a: int, b: int| 0 <= a < b < crate::queries::spec_queue_indices(s).len() ==>
            #[trigger] crate::queries::spec_queue_indices(s)[a] < #[trigger] crate::queries::spec_queue_indices(s)[b],
        forall|i: int| 0 <= i < s.queue.items@.len() && #[trigger] queue_title_passes(s, i) ==> exists|k: int|
            0 <= k < crate::queries::spec_queue_indices(s).len() && crate::queries::spec_queue_indices(s)[k] == i,
{
    let f = crate::text::lowercase(s.filter.queue@);
    let p = crate::queries::queue_row(s.queue.items@, f);
    assert(s.queue.items@.len() == s.queue.items.len());
    lemma_kept_exactly(s.queue.items@.len(), p);
    assert forall|i: int| 0 <= i < s.queue.items@.len() implies p(i) == queue_title_passes(s, i) by {}
    assert forall|i: int| 0 <= i < s.queue.items@.len() && #[trigger] queue_title_passes(s, i) implies exists|k: int|
        0 <= k < crate::queries::spec_queue_indices(s).len() && crate::queries::spec_queue_indices(s)[k] == i by {
        assert(p(i));
        let kept = crate::queries::kept_indices(s.queue.items@.len(), p);
        assert(crate::queries::spec_queue_indices(s) == kept);
        let k = choose|k: int| 0 <= k < kept.len() && kept[k] == i;
        assert(crate::queries::spec_queue_indices(s)[k] == i);
    }
}

/// Enter on the queue skips to the entry of the row the cursor
/// highlights among the filtered rows: the same row whose song the
/// hover preview shows. With no highlighted row, or no queue or entry
/// id for it, nothing is sent.
pub proof fn law_queue_enter_plays_the_highlighted_row(s: Sources)
    ensures
        ({
            let rows = crate::queries::spec_queue_indices(s);
            let c = s.cursor.queue as int;
            match crate::panes::queue_jump_of(s) {
                Some(m) => {
                    &&& c < rows.len()
                    &&& s.queue.queue_id is Some
                    &&& (rows[c] as int) < s.queue.entry_ids@.len()
                    &&& m == crate::proto::ClientMsg::SkipToQueueEntry {
                        queue_id: s.queue.queue_id->0,
                        entry_id: s.queue.entry_ids@[rows[c] as int],
                    }
                    &&& (rows[c] as int) < s.queue.items@.len() ==> crate::panes::spec_hovered_queue_song(s) == Some(
                        s.queue.items@[rows[c] as int],
                    )
                },
                None => !(c < rows.len() && s.queue.queue_id is Some && (rows[c] as int) < s.queue.entry_ids@.len()),
            }
        }),
{
}

// ---------------------------------------------------------------------
// Playlist mutations
// ---------------------------------------------------------------------

/// A song removed from a listed playlist lowers its track count by one
/// (not below zero) and leaves its id and name; other playlists keep
/// theirs.
pub proof fn law_song_removal_lowers_the_track_count(pre: Sources, post: Sources, r: crate::link_driver::Response)
    requires
        r.msg matches crate::link_driver::ServerMsg::PlaylistMutated {
            mutation: crate::link_driver::PlaylistMutation::SongRemoved { .. },
            ..
        },
        crate::ingest::broadcast_folded(pre, post, r),
    ensures
        ({
            let id = r.msg->PlaylistMutated_playlist_id@;
            &&& crate::state::playlists::playlist_by_id(pre.playlists.items@, id) matches Some(p) ==> (
                crate::state::playlists::playlist_by_id(post.playlists.items@, id) matches Some(q)
                && q.id == p.id && q.name == p.name
                && q.track_count == (if p.track_count > 0 { (p.track_count - 1) as u32 } else { 0u32 }))
            &&& crate::state::playlists::playlist_by_id(pre.playlists.items@, id) is None
                ==> post.playlists.items@ == pre.playlists.items@
            &&& forall|o: Seq<char>| o != id ==> #[trigger] crate::state::playlists::playlist_by_id(post.playlists.items@, o)
                == crate::state::playlists::playlist_by_id(pre.playlists.items@, o)
        }),
{
}


/// Songs added to a listed playlist raise its track count by their
/// number (held at the top of `u32`) and leave its id and name; an
/// open playlist gets them at its end.
pub proof fn law_song_addition_raises_the_track_count(pre: Sources, post: Sources, r: crate::link_driver::Response)
    requires
        r.msg matches crate::link_driver::ServerMsg::PlaylistMutated {
            mutation: crate::link_driver::PlaylistMutation::SongAdded { songs },
            ..
        } && songs@.len() <= i32::MAX,
        crate::ingest::broadcast_folded(pre, post, r),
    ensures
        ({
            let id = r.msg->PlaylistMutated_playlist_id@;
            let songs = r.msg->PlaylistMutated_mutation->SongAdded_songs@;
            &&& crate::state::playlists::playlist_by_id(pre.playlists.items@, id) matches Some(p) ==> (
                crate::state::playlists::playlist_by_id(post.playlists.items@, id) matches Some(q)
                && q.id == p.id && q.name == p.name
                && q.track_count as int == (if p.track_count + songs.len() > u32::MAX { u32::MAX as int } else { p.track_count + songs.len() }))
            &&& crate::text::opt_view(pre.playlist_tracks.playlist_id) == Some(id) ==> (
                post.playlist_tracks.songs@.len() == pre.playlist_tracks.songs@.len() + songs.len()
                && forall|k: int| 0 <= k < songs.len() ==> #[trigger] post.playlist_tracks.songs@[pre.playlist_tracks.songs@.len() + k] == Some(songs[k]))
        }),
{
}


/// Whether row `i` of the open playlist shows in the middle pane: a
/// loaded song not awaiting removal whose title, artist or album holds
/// the lower-cased filter (any song when the filter is empty); a row
/// still to arrive shows only without a filter.
pub open spec fn playlist_row_shows(s: Sources, i: int) -> bool {
    let f = crate::text::lowercase(s.filter.middle@);
    match s.playlist_tracks.songs@[i] {
        Some(song) => {
            &&& !crate::queries::removing_song(s.pending_playlists.removing@, crate::queries::loaded_id(s), song.id@)
            &&& (f.len() == 0
                || crate::queries::has_substring(crate::text::lowercase(song.title@), f)
                || crate::queries::has_substring(crate::text::lowercase(song.artist_name@), f)
                || crate::queries::has_substring(crate::text::lowercase(song.album_title@), f))
        },
        None => f.len() == 0,
    }
}

/// On the open playlist the middle pane lists, in order, exactly the
/// rows that show.
pub proof fn law_playlist_filter_keeps_matching_songs(s: Sources)
    requires
        s.history.mode == crate::state::history::MiddleMode::PlaylistSongs,
    ensures
        forall|k: int| 0 <= k < crate::queries::spec_middle_indices(s).len() ==> {
            &&& (#[trigger] crate::queries::spec_middle_indices(s)[k] as int) < s.playlist_tracks.songs@.len()
            &&& playlist_row_shows(s, crate::queries::spec_middle_indices(s)[k] as int)
        },
        forall|a: int, b: int| 0 <= a < b < crate::queries::spec_middle_indices(s).len() ==>
            #[trigger] crate::queries::spec_middle_indices(s)[a] < #[trigger] crate::queries::spec_middle_indices(s)[b],
        forall|i: int| 0 <= i < s.playlist_tracks.songs@.len() && #[trigger] playlist_row_shows(s, i) ==> exists|k: int|
            0 <= k < crate::queries::spec_middle_indices(s).len() && crate::queries::spec_middle_indices(s)[k] == i,
{
    let f = crate::text::lowercase(s.filter.middle@);
    let p = crate::queries::playlist_row(s, f);
    let n = s.playlist_tracks.songs@.len();
    assert(n == s.playlist_tracks.songs.len());
    lemma_kept_exactly(n, p);
    let kept = crate::queries::kept_indices(n, p);
    assert(crate::queries::spec_middle_indices(s) == kept);
    assert forall|i: int| 0 <= i < n implies p(i) == playlist_row_shows(s, i) by {}
    assert forall|i: int| 0 <= i < n && #[trigger] playlist_row_shows(s, i) implies exists|k: int|
        0 <= k < crate::queries::spec_middle_indices(s).len() && crate::queries::spec_middle_indices(s)[k] == i by {
        assert(p(i));
        let k = choose|k: int| 0 <= k < kept.len() && kept[k] == i;
        assert(crate::queries::spec_middle_indices(s)[k] == i);
    }
}


/// A sweep at `now` keeps exactly the servers seen within the
/// time-to-live: every kept entry was there before and is fresh, and
/// every fresh entry is kept.
pub proof fn law_sweep_keeps_exactly_the_fresh(
    pre: Seq<crate::discovery_folder::FolderEntry>,
    post: Seq<crate::discovery_folder::FolderEntry>,
    now: u64,
)
    requires
        post == pre.filter(crate::discovery_folder::live_at(now)),
    ensures
        forall|k: int| 0 <= k < post.len() ==> pre.contains(#[trigger] post[k]) && !(now > post[k].last_seen
            && now - post[k].last_seen > crate::discovery_folder::SERVER_TTL_MS),
        forall|i: int| 0 <= i < pre.len() && (now <= #[trigger] pre[i].last_seen
            || now - pre[i].last_seen <= crate::discovery_folder::SERVER_TTL_MS) ==> post.contains(pre[i]),
{
    let p = crate::discovery_folder::live_at(now);
    assert forall|k: int| 0 <= k < post.len() implies pre.contains(#[trigger] post[k]) && !(now > post[k].last_seen
        && now - post[k].last_seen > crate::discovery_folder::SERVER_TTL_MS) by {
        pre.lemma_filter_pred(p, k);
        assert(post.contains(post[k]));
        pre.lemma_filter_contains_rev(p, post[k]);
    }
    assert forall|i: int| 0 <= i < pre.len() && (now <= #[trigger] pre[i].last_seen
        || now - pre[i].last_seen <= crate::discovery_folder::SERVER_TTL_MS) implies post.contains(pre[i]) by {
        pre.lemma_filter_contains(p, i);
    }
}

} // verus!
