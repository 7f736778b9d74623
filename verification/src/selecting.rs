//! Selection mode: choosing several rows of the middle or queue column
//! and acting on all of them at once.

use vstd::prelude::*;
use crate::panes::{removal_of, remove_queue_entry};
use crate::proto::{ClientMsg, QueuePosition, Song};
use crate::queries::{
    album_detail_songs, artist_detail_songs, middle_filtered_indices, spec_album_detail_songs,
    spec_artist_detail_songs, spec_middle_indices,
};
use crate::server_picker::{wrap_down, wrap_down_row, wrap_up};
use crate::state::history::MiddleMode;
use crate::state::requests::{next_id, PendingRequest};
use crate::state::selection::{ascending, rows_of, set_contains, set_insert, set_remove, Selection, SelectionContext};
use crate::state::server::PendingOp;
use crate::state::sources::Sources;
use crate::state::ui::{ActionItem, ActionKind, ActionOrigin, ColumnFocus, Cursor, Screen};
use crate::text::push_char;
use crate::tls::push_str;

verus! {

// ---------------------------------------------------------------------
// Reading a selection
// ---------------------------------------------------------------------

/// Rows of column `ctx` that a selection indexes: the middle pane's
/// filtered rows, or every queue row.
pub open spec fn spec_selection_row_count(s: Sources, ctx: SelectionContext) -> int {
    match ctx {
        SelectionContext::Middle => spec_middle_indices(s).len() as int,
        SelectionContext::Queue => s.queue.items@.len() as int,
    }
}

pub fn selection_row_count(s: &Sources, ctx: SelectionContext) -> (n: usize)
    ensures
        n == spec_selection_row_count(*s, ctx),
{
    match ctx {
        SelectionContext::Middle => middle_filtered_indices(s).len(),
        SelectionContext::Queue => s.queue.items.len(),
    }
}

/// Every song as a present row.
pub open spec fn present(v: Seq<Song>) -> Seq<Option<Song>> {
    v.map_values(|x: Song| Some(x))
}

/// The song rows selection indices point into for column `ctx`: the
/// loaded playlist's slots, an album's songs, an artist's top songs,
/// the song results of a search, or the queue.
pub open spec fn selection_rows(s: Sources, ctx: SelectionContext) -> Seq<Option<Song>> {
    match ctx {
        SelectionContext::Middle => match s.history.mode {
            MiddleMode::PlaylistSongs => s.playlist_tracks.songs@,
            MiddleMode::AlbumDetail { awaiting_seq, .. } => match spec_album_detail_songs(awaiting_seq, s.responses.by_seq@) {
                Some(v) => present(v),
                None => Seq::empty(),
            },
            MiddleMode::ArtistDetail { awaiting_seq, .. } => match spec_artist_detail_songs(awaiting_seq, s.responses.by_seq@) {
                Some(v) => present(v),
                None => Seq::empty(),
            },
            MiddleMode::SearchResults { .. } => present(s.search.songs@),
        },
        SelectionContext::Queue => present(s.queue.items@),
    }
}

/// Ids of the songs at rows `sel`, in order, skipping rows that hold no
/// song.
pub open spec fn ids_at(sel: Seq<usize>, rows: Seq<Option<Song>>) -> Seq<String>
    decreases sel.len(),
{
    if sel.len() == 0 {
        Seq::empty()
    } else {
        let rest = ids_at(sel.drop_last(), rows);
        let i = sel.last() as int;
        if i < rows.len() && rows[i] is Some { rest.push(rows[i]->0.id) } else { rest }
    }
}

/// Ids of the selected songs of column `ctx`, in row order.
pub open spec fn gathered(s: Sources, ctx: SelectionContext) -> Seq<String> {
    ids_at(s.selection.selected@, selection_rows(s, ctx))
}

fn ids_from_slots(sel: &Vec<usize>, rows: &Vec<Option<Song>>) -> (r: Vec<String>)
    ensures
        r@ == ids_at(sel@, rows@),
{
    let mut out: Vec<String> = Vec::new();
    let mut k: usize = 0;
    while k < sel.len()
        invariant
            k <= sel@.len(),
            out@ == ids_at(sel@.take(k as int), rows@),
        decreases sel@.len() - k,
    {
        proof {
            assert(sel@.take(k + 1).drop_last() =~= sel@.take(k as int));
        }
        let i = sel[k];
        if i < rows.len() {
            match &rows[i] {
                Some(song) => out.push(song.id.clone()),
                None => {},
            }
        }
        k = k + 1;
    }
    assert(sel@.take(sel@.len() as int) =~= sel@);
    out
}

fn ids_from_songs(sel: &Vec<usize>, rows: &Vec<Song>) -> (r: Vec<String>)
    ensures
        r@ == ids_at(sel@, present(rows@)),
{
    let mut out: Vec<String> = Vec::new();
    let mut k: usize = 0;
    while k < sel.len()
        invariant
            k <= sel@.len(),
            out@ == ids_at(sel@.take(k as int), present(rows@)),
        decreases sel@.len() - k,
    {
        proof {
            assert(sel@.take(k + 1).drop_last() =~= sel@.take(k as int));
        }
        let i = sel[k];
        if i < rows.len() {
            out.push(rows[i].id.clone());
        }
        k = k + 1;
    }
    assert(sel@.take(sel@.len() as int) =~= sel@);
    out
}

/// Ids of the selected songs of column `ctx`, in row order.
pub fn gather_selection_song_ids(s: &Sources, ctx: SelectionContext) -> (r: Vec<String>)
    ensures
        r@ == gathered(*s, ctx),
{
    let sel = &s.selection.selected;
    match ctx {
        SelectionContext::Middle => match &s.history.mode {
            MiddleMode::PlaylistSongs => ids_from_slots(sel, &s.playlist_tracks.songs),
            MiddleMode::AlbumDetail { awaiting_seq, .. } => match album_detail_songs(*awaiting_seq, &s.responses.by_seq) {
                Some(v) => ids_from_songs(sel, v),
                None => {
                    proof {
                        lemma_ids_at_empty(sel@);
                    }
                    Vec::new()
                },
            },
            MiddleMode::ArtistDetail { awaiting_seq, .. } => match artist_detail_songs(*awaiting_seq, &s.responses.by_seq) {
                Some(v) => ids_from_songs(sel, v),
                None => {
                    proof {
                        lemma_ids_at_empty(sel@);
                    }
                    Vec::new()
                },
            },
            MiddleMode::SearchResults { .. } => ids_from_songs(sel, &s.search.songs),
        },
        SelectionContext::Queue => ids_from_songs(sel, &s.queue.items),
    }
}

proof fn lemma_ids_at_empty(sel: Seq<usize>)
    ensures
        ids_at(sel, Seq::empty()) == Seq::<String>::empty(),
    decreases sel.len(),
{
    if sel.len() > 0 {
        lemma_ids_at_empty(sel.drop_last());
    }
}

// ---------------------------------------------------------------------
// Entering, leaving and editing a selection
// ---------------------------------------------------------------------

/// The cursor of column `ctx`.
pub open spec fn pane_cursor(s: Sources, ctx: SelectionContext) -> usize {
    match ctx {
        SelectionContext::Middle => s.cursor.middle,
        SelectionContext::Queue => s.cursor.queue,
    }
}

/// `s` with column `ctx`'s cursor at `row`.
pub open spec fn with_pane_cursor(s: Sources, ctx: SelectionContext, row: usize) -> Sources {
    match ctx {
        SelectionContext::Middle => Sources { cursor: Cursor { middle: row, ..s.cursor }, ..s },
        SelectionContext::Queue => Sources { cursor: Cursor { queue: row, ..s.cursor }, ..s },
    }
}

fn get_pane_cursor(s: &Sources, ctx: SelectionContext) -> (r: usize)
    ensures
        r == pane_cursor(*s, ctx),
{
    match ctx {
        SelectionContext::Middle => s.cursor.middle,
        SelectionContext::Queue => s.cursor.queue,
    }
}

fn set_pane_cursor(s: &mut Sources, ctx: SelectionContext, row: usize)
    ensures
        *final(s) == with_pane_cursor(*old(s), ctx, row),
{
    match ctx {
        SelectionContext::Middle => s.cursor.middle = row,
        SelectionContext::Queue => s.cursor.queue = row,
    }
}

/// What `toggle_selection_for_focused` does to the sources.
pub open spec fn toggle_selection_for_focused_effect(pre: Sources, post: Sources) -> bool {
    &&& (({
        let pre = pre;
        let post = post;
        match pre.cursor.focus {
            ColumnFocus::Left => post == pre,
            _ => {
                let ctx = if pre.cursor.focus == ColumnFocus::Middle {
                    SelectionContext::Middle
                } else {
                    SelectionContext::Queue
                };
                &&& post == (Sources { selection: post.selection, ..pre })
                &&& post.selection.wf()
                &&& pre.selection.context is Some ==> post.selection.is_reset()
                &&& pre.selection.context is None ==> post.selection.context == Some(ctx)
                    && post.selection.selected@.len() == 0 && post.selection.range_anchor is None
                    && post.selection.range_selected@.len() == 0
            },
        }
    }))
}

/// `M`: selection mode on the focused middle or queue column is
/// toggled; the left column has none.
pub fn toggle_selection_for_focused(sources: &mut Sources)
    ensures
        toggle_selection_for_focused_effect(*old(sources), *final(sources)),
{
    let ctx = match sources.cursor.focus {
        ColumnFocus::Middle => SelectionContext::Middle,
        ColumnFocus::Queue => SelectionContext::Queue,
        ColumnFocus::Left => return,
    };
    if sources.selection.is_active() {
        sources.selection.clear();
    } else {
        sources.selection.begin(ctx);
    }
}

/// What `selection_add` does to the sources.
pub open spec fn selection_add_effect(pre: Sources, post: Sources) -> bool {
    &&& (post.selection.wf())
    &&& (match pre.selection.context {
        Some(ctx) => {
            let n = spec_selection_row_count(pre, ctx);
            let cur = pane_cursor(pre, ctx);
            if n == 0 {
                post == pre
            } else {
                &&& rows_of(post.selection.selected@) == rows_of(pre.selection.selected@).insert(cur)
                &&& post.selection == (Selection { selected: post.selection.selected, ..pre.selection })
                &&& post == with_pane_cursor(
                    Sources { selection: post.selection, ..pre },
                    ctx,
                    if cur + 1 < n { (cur + 1) as usize } else { (n - 1) as usize },
                )
            }
        },
        None => post == pre,
    })
}

/// Select the row under the cursor and step the cursor down.
pub fn selection_add(sources: &mut Sources)
    requires
        old(sources).selection.wf(),
    ensures
        selection_add_effect(*old(sources), *final(sources)),
{
    let ctx = match sources.selection.context {
        Some(c) => c,
        None => return,
    };
    let n = selection_row_count(sources, ctx);
    if n == 0 {
        return;
    }
    let cur = get_pane_cursor(sources, ctx);
    sources.selection.add(cur);
    let next = if cur < n - 1 { cur + 1 } else { n - 1 };
    set_pane_cursor(sources, ctx, next);
}

/// What `selection_remove` does to the sources.
pub open spec fn selection_remove_effect(pre: Sources, post: Sources) -> bool {
    &&& (post.selection.wf())
    &&& (match pre.selection.context {
        Some(ctx) => {
            &&& rows_of(post.selection.selected@) == rows_of(pre.selection.selected@).remove(
                pane_cursor(pre, ctx),
            )
            &&& post.selection == (Selection { selected: post.selection.selected, ..pre.selection })
            &&& post == (Sources { selection: post.selection, ..pre })
        },
        None => post == pre,
    })
}

/// Unselect the row under the cursor.
pub fn selection_remove(sources: &mut Sources)
    requires
        old(sources).selection.wf(),
    ensures
        selection_remove_effect(*old(sources), *final(sources)),
{
    let ctx = match sources.selection.context {
        Some(c) => c,
        None => return,
    };
    let cur = get_pane_cursor(sources, ctx);
    sources.selection.remove(cur);
}

/// What `selection_toggle_anchor` does to the sources.
pub open spec fn selection_toggle_anchor_effect(pre: Sources, post: Sources) -> bool {
    &&& (post.selection.wf())
    &&& (match pre.selection.context {
        Some(ctx) => {
            let a = pre.selection;
            let b = post.selection;
            let cur = pane_cursor(pre, ctx);
            &&& post == (Sources { selection: b, ..pre })
            &&& b.context == a.context
            &&& if a.range_anchor is Some {
                b.range_anchor is None && b.range_selected@.len() == 0 && b.selected == a.selected
            } else {
                &&& b.range_anchor == Some(cur)
                &&& rows_of(b.selected@) == rows_of(a.selected@).insert(cur)
                &&& b.range_selected@ =~= seq![cur]
            }
        },
        None => post == pre,
    })
}

/// Start a range at the cursor (selecting that row), or finish the
/// live range, keeping what it selected.
pub fn selection_toggle_anchor(sources: &mut Sources)
    requires
        old(sources).selection.wf(),
    ensures
        selection_toggle_anchor_effect(*old(sources), *final(sources)),
{
    let ctx = match sources.selection.context {
        Some(c) => c,
        None => return,
    };
    let cur = get_pane_cursor(sources, ctx);
    if sources.selection.range_anchor.is_some() {
        sources.selection.range_anchor = None;
        sources.selection.range_selected = Vec::new();
        return;
    }
    sources.selection.range_anchor = Some(cur);
    sources.selection.add(cur);
    sources.selection.range_selected = vec![cur];
}

/// The rows from `lo` to `hi`, both included.
pub open spec fn span(lo: usize, hi: usize) -> Set<usize> {
    Set::new(|i: usize| lo <= i <= hi)
}

/// The selection after the cursor moved to `cur` with a live range
/// anchored at `anchor`: rows the old range added but the new span no
/// longer covers are unselected, every row of the span is selected,
/// and the span becomes the range.
pub open spec fn range_updated(pre: Selection, post: Selection, anchor: usize, cur: usize) -> bool {
    let lo = if anchor <= cur { anchor } else { cur };
    let hi = if anchor <= cur { cur } else { anchor };
    &&& rows_of(post.selected@) == rows_of(pre.selected@).difference(rows_of(pre.range_selected@).difference(span(lo, hi))).union(
        span(lo, hi),
    )
    &&& rows_of(post.range_selected@) == span(lo, hi)
    &&& post.context == pre.context
    &&& post.range_anchor == pre.range_anchor
}

/// Follow the cursor with the live range, if there is one.
pub fn update_range_selection(sources: &mut Sources)
    requires
        old(sources).selection.wf(),
    ensures
        final(sources).selection.wf(),
        *final(sources) == (Sources { selection: final(sources).selection, ..*old(sources) }),
        match (old(sources).selection.context, old(sources).selection.range_anchor) {
            (Some(ctx), Some(anchor)) => range_updated(
                old(sources).selection,
                final(sources).selection,
                anchor,
                pane_cursor(*old(sources), ctx),
            ),
            _ => *final(sources) == *old(sources),
        },
{
    let ctx = match sources.selection.context {
        Some(c) => c,
        None => return,
    };
    let anchor = match sources.selection.range_anchor {
        Some(a) => a,
        None => return,
    };
    let cur = get_pane_cursor(sources, ctx);
    let lo = if anchor <= cur { anchor } else { cur };
    let hi = if anchor <= cur { cur } else { anchor };
    let ghost pre = sources.selection;
    let mut prev: Vec<usize> = Vec::new();
    std::mem::swap(&mut prev, &mut sources.selection.range_selected);
    let mut k: usize = 0;
    while k < prev.len()
        invariant
            k <= prev@.len(),
            prev@ == pre.range_selected@,
            ascending(sources.selection.selected@),
            rows_of(sources.selection.selected@) == rows_of(pre.selected@).difference(
                rows_of(prev@.take(k as int)).difference(span(lo, hi)),
            ),
            sources.selection.context == pre.context,
            sources.selection.range_anchor == pre.range_anchor,
            *sources == (Sources { selection: sources.selection, ..*old(sources) }),
        decreases prev@.len() - k,
    {
        let i = prev[k];
        proof {
            assert(prev@.take(k + 1) =~= prev@.take(k as int).push(i));
            assert(rows_of(prev@.take(k + 1)) =~= rows_of(prev@.take(k as int)).insert(i)) by {
                prev@.take(k as int).lemma_push_to_set_commute(i);
            }
        }
        if !(lo <= i && i <= hi) {
            set_remove(&mut sources.selection.selected, i);
        }
        k = k + 1;
        proof {
            assert(rows_of(sources.selection.selected@) =~= rows_of(pre.selected@).difference(
                rows_of(prev@.take(k as int)).difference(span(lo, hi)),
            ));
        }
    }
    proof {
        assert(prev@.take(prev@.len() as int) =~= prev@);
    }
    let ghost removed = sources.selection.selected@;
    let mut range: Vec<usize> = Vec::new();
    let mut j: usize = lo;
    while j < hi
        invariant
            lo <= j <= hi,
            ascending(sources.selection.selected@),
            forall|t: int| 0 <= t < range@.len() ==> range@[t] == lo + t,
            range@.len() == j - lo,
            rows_of(sources.selection.selected@) == rows_of(removed).union(Set::new(|i: usize| lo <= i < j)),
            sources.selection.context == pre.context,
            sources.selection.range_anchor == pre.range_anchor,
            *sources == (Sources { selection: sources.selection, ..*old(sources) }),
        decreases hi - j,
    {
        set_insert(&mut sources.selection.selected, j);
        range.push(j);
        proof {
            assert(rows_of(sources.selection.selected@) =~= rows_of(removed).union(Set::new(|i: usize| lo <= i < j + 1)));
        }
        j = j + 1;
    }
    set_insert(&mut sources.selection.selected, hi);
    range.push(hi);
    proof {
        assert(rows_of(sources.selection.selected@) =~= rows_of(removed).union(span(lo, hi)));
        assert forall|a: int, b: int| 0 <= a < b < range@.len() implies range@[a] < range@[b] by {
        }
        assert(rows_of(range@) =~= span(lo, hi)) by {
            assert forall|y: usize| span(lo, hi).contains(y) implies rows_of(range@).contains(y) by {
                assert(range@[(y - lo) as int] == y);
                assert(range@.to_set().contains(range@[(y - lo) as int]));
            }
            assert forall|y: usize| rows_of(range@).contains(y) implies span(lo, hi).contains(y) by {
                let t = choose|t: int| 0 <= t < range@.len() && range@[t] == y;
            }
        }
    }
    sources.selection.range_selected = range;
}

/// What `selection_move_up` does to the sources.
pub open spec fn selection_move_up_effect(pre: Sources, post: Sources) -> bool {
    &&& (post.selection.wf())
    &&& (match pre.selection.context {
        Some(ctx) => if spec_selection_row_count(pre, ctx) == 0 {
            post == pre
        } else {
            let mid = with_pane_cursor(pre, ctx, crate::panes::row_up(pane_cursor(pre, ctx)));
            &&& post == (Sources { selection: post.selection, ..mid })
            &&& match mid.selection.range_anchor {
                Some(anchor) => range_updated(mid.selection, post.selection, anchor, pane_cursor(mid, ctx)),
                None => post.selection == mid.selection,
            }
        },
        None => post == pre,
    })
}

/// Selection-mode cursor up, following with the live range.
pub fn selection_move_up(sources: &mut Sources)
    requires
        old(sources).selection.wf(),
    ensures
        selection_move_up_effect(*old(sources), *final(sources)),
{
    let ctx = match sources.selection.context {
        Some(c) => c,
        None => return,
    };
    if selection_row_count(sources, ctx) == 0 {
        return;
    }
    let cur = get_pane_cursor(sources, ctx);
    set_pane_cursor(sources, ctx, cur.saturating_sub(1));
    update_range_selection(sources);
}

/// What `selection_move_down` does to the sources.
pub open spec fn selection_move_down_effect(pre: Sources, post: Sources) -> bool {
    &&& (post.selection.wf())
    &&& (match pre.selection.context {
        Some(ctx) => {
            let n = spec_selection_row_count(pre, ctx);
            if n == 0 {
                post == pre
            } else {
                let mid = with_pane_cursor(pre, ctx, crate::panes::row_down(pane_cursor(pre, ctx), n));
                &&& post == (Sources { selection: post.selection, ..mid })
                &&& match mid.selection.range_anchor {
                    Some(anchor) => range_updated(mid.selection, post.selection, anchor, pane_cursor(mid, ctx)),
                    None => post.selection == mid.selection,
                }
            }
        },
        None => post == pre,
    })
}

/// Selection-mode cursor down, following with the live range.
pub fn selection_move_down(sources: &mut Sources)
    requires
        old(sources).selection.wf(),
    ensures
        selection_move_down_effect(*old(sources), *final(sources)),
{
    let ctx = match sources.selection.context {
        Some(c) => c,
        None => return,
    };
    let n = selection_row_count(sources, ctx);
    if n == 0 {
        return;
    }
    let cur = get_pane_cursor(sources, ctx);
    if cur < n - 1 {
        set_pane_cursor(sources, ctx, cur + 1);
    }
    update_range_selection(sources);
}

// ---------------------------------------------------------------------
// Acting on a selection
// ---------------------------------------------------------------------

/// A play request of songs `ids` at `position` was queued.
pub open spec fn songs_played(pre: Sources, post: Sources, ids: Seq<String>, position: QueuePosition) -> bool {
    let seq = next_id(pre.requests.last_seq);
    &&& post.requests.pending@ == pre.requests.pending@.push(post.requests.pending@.last())
    &&& post.requests.pending@.last().seq == seq && post.requests.pending@.last().task_id is None
    &&& post.requests.pending@.last().msg matches ClientMsg::PlaySongs { song_ids, position: p } && song_ids@ == ids
        && p == position
    &&& post.requests.last_seq == seq && post.requests.last_task == pre.requests.last_task
}

/// What `selection_play_reset` does to the sources.
pub open spec fn selection_play_reset_effect(pre: Sources, post: Sources) -> bool {
    &&& (match pre.selection.context {
        Some(ctx) => {
            let ids = gathered(pre, ctx);
            &&& post.selection.is_reset()
            &&& post.selection.wf()
            &&& ids.len() > 0 ==> songs_played(pre, post, ids, QueuePosition::Reset)
                && post == (Sources {
                requests: post.requests,
                selection: post.selection,
                ..pre
            })
            &&& ids.len() == 0 ==> post == (Sources { selection: post.selection, ..pre })
        },
        None => post == pre,
    })
}

/// Enter in selection mode: play the selected songs, replacing the
/// queue, and leave selection mode.
pub fn selection_play_reset(sources: &mut Sources)
    ensures
        selection_play_reset_effect(*old(sources), *final(sources)),
{
    let ctx = match sources.selection.context {
        Some(c) => c,
        None => return,
    };
    let song_ids = gather_selection_song_ids(sources, ctx);
    if song_ids.len() > 0 {
        sources.requests.push(ClientMsg::PlaySongs { song_ids, position: QueuePosition::Reset }, None);
    }
    sources.selection.clear();
}

/// Entries of the bulk-action menu: play next, play last and add to a
/// playlist; delete for a queue selection, or for a middle selection
/// over a playlist's tracks.
pub open spec fn spec_selection_menu(s: Sources) -> Seq<char> {
    let base = seq!['n', 'e', 'a'];
    match s.selection.context {
        Some(SelectionContext::Queue) => base.push('d'),
        Some(SelectionContext::Middle) => if s.history.mode is PlaylistSongs { base.push('d') } else { base },
        None => base,
    }
}

/// The bulk-action menu's keys, in order.
pub fn selection_action_menu(s: &Sources) -> (r: Vec<char>)
    ensures
        r@ == spec_selection_menu(*s),
{
    let mut v = vec!['n', 'e', 'a'];
    match s.selection.context {
        Some(SelectionContext::Queue) => v.push('d'),
        Some(SelectionContext::Middle) => {
            if let MiddleMode::PlaylistSongs = s.history.mode {
                v.push('d');
            }
        },
        None => {},
    }
    v
}

/// `s` with the bulk-action menu's highlight at `row`.
pub open spec fn with_bulk_row(s: Sources, row: usize) -> Sources {
    Sources { screen: Screen::SelectionActionModal { selected: row }, ..s }
}

/// What `selection_action_cursor_up` does to the sources.
pub open spec fn selection_action_cursor_up_effect(pre: Sources, post: Sources) -> bool {
    &&& (pre.screen matches Screen::SelectionActionModal { selected } ==> post == with_bulk_row(
        pre,
        wrap_up(selected, spec_selection_menu(pre).len() as usize),
    ))
    &&& (!(pre.screen is SelectionActionModal) ==> post == pre)
}

pub fn selection_action_cursor_up(sources: &mut Sources)
    ensures
        selection_action_cursor_up_effect(*old(sources), *final(sources)),
{
    let n = selection_action_menu(sources).len();
    if let Screen::SelectionActionModal { selected } = sources.screen {
        sources.screen = Screen::SelectionActionModal { selected: if selected == 0 { n - 1 } else { selected - 1 } };
    }
}

/// What `selection_action_cursor_down` does to the sources.
pub open spec fn selection_action_cursor_down_effect(pre: Sources, post: Sources) -> bool {
    &&& (pre.screen matches Screen::SelectionActionModal { selected } ==> post == with_bulk_row(
        pre,
        wrap_down(selected, spec_selection_menu(pre).len() as usize),
    ))
    &&& (!(pre.screen is SelectionActionModal) ==> post == pre)
}

pub fn selection_action_cursor_down(sources: &mut Sources)
    ensures
        selection_action_cursor_down_effect(*old(sources), *final(sources)),
{
    let n = selection_action_menu(sources).len();
    if let Screen::SelectionActionModal { selected } = sources.screen {
        sources.screen = Screen::SelectionActionModal { selected: wrap_down_row(selected, n) };
    }
}

/// Decimal digits of `n`.
pub open spec fn decimal(n: nat) -> Seq<char>
    decreases n,
{
    if n < 10 {
        seq![(48 + n) as char]
    } else {
        decimal(n / 10).push((48 + n % 10) as char)
    }
}

pub fn decimal_text(n: usize) -> (r: String)
    ensures
        r@ == decimal(n as nat),
    decreases n,
{
    if n < 10 {
        let mut s = String::new();
        push_char(&mut s, ((48 + n) as u8) as char);
        assert(s@ =~= decimal(n as nat));
        s
    } else {
        let mut s = decimal_text(n / 10);
        push_char(&mut s, ((48 + n % 10) as u8) as char);
        s
    }
}

/// The row a bulk add stands for: `n` songs.
pub open spec fn bulk_item(item: ActionItem, n: nat) -> bool {
    &&& item.id@.len() == 0
    &&& item.kind == ActionKind::Song
    &&& item.label@ == decimal(n) + " songs"@
    &&& item.album_id is None && item.album_title is None
    &&& item.artist_id is None && item.artist_label is None
    &&& item.playlist_id is None && item.view_index is None
    &&& item.origin == ActionOrigin::OtherMiddle
}

/// The queue removals of rows `sel`, in order, skipping rows with no
/// entry id.
pub open spec fn removals(s: Sources, sel: Seq<usize>) -> Seq<ClientMsg>
    decreases sel.len(),
{
    if sel.len() == 0 {
        Seq::empty()
    } else {
        let rest = removals(s, sel.drop_last());
        match removal_of(s, sel.last() as int) {
            Some(m) => rest.push(m),
            None => rest,
        }
    }
}

/// The pending requests and last seq after queuing `msgs` in order.
pub open spec fn queued_all(pending: Seq<PendingRequest>, last: u64, msgs: Seq<ClientMsg>) -> (Seq<PendingRequest>, u64)
    decreases msgs.len(),
{
    if msgs.len() == 0 {
        (pending, last)
    } else {
        let (p, l) = queued_all(pending, last, msgs.drop_last());
        let seq = next_id(l);
        (p.push(PendingRequest { seq, task_id: None, msg: msgs.last() }), seq)
    }
}

/// `(song id, row)` of every selected row of the loaded playlist that
/// holds a song, in row order.
pub open spec fn slot_items(sel: Seq<usize>, rows: Seq<Option<Song>>) -> Seq<(String, usize)>
    decreases sel.len(),
{
    if sel.len() == 0 {
        Seq::empty()
    } else {
        let rest = slot_items(sel.drop_last(), rows);
        let i = sel.last() as int;
        if i < rows.len() && rows[i] is Some { rest.push((rows[i]->0.id, sel.last())) } else { rest }
    }
}

/// What bulk delete does in column `ctx`: in the queue, every selected
/// row with an entry id is removed, in row order; over a loaded
/// playlist's tracks, the selected songs are removed in one request and
/// hidden at once; the selection ends and the menu closes. Over a
/// playlist view with no playlist loaded only the menu closes.
pub open spec fn bulk_deleted(pre: Sources, post: Sources, ctx: SelectionContext) -> bool {
    match ctx {
        SelectionContext::Queue => {
            let (p, l) = queued_all(pre.requests.pending@, pre.requests.last_seq, removals(pre, pre.selection.selected@));
            &&& post.requests.pending@ == p && post.requests.last_seq == l
            &&& post.requests.last_task == pre.requests.last_task
            &&& post.selection.is_reset() && post.selection.wf()
            &&& post == (Sources {
                requests: post.requests,
                selection: post.selection,
                screen: Screen::NowPlaying,
                ..pre
            })
        },
        SelectionContext::Middle => match pre.history.mode {
            MiddleMode::PlaylistSongs => match pre.playlist_tracks.playlist_id {
                None => post == (Sources { screen: Screen::NowPlaying, ..pre }),
                Some(pid) => {
                    let items = slot_items(pre.selection.selected@, pre.playlist_tracks.songs@);
                    &&& post.selection.is_reset() && post.selection.wf()
                    &&& post.screen is NowPlaying
                    &&& if items.len() == 0 {
                        post == (Sources { selection: post.selection, screen: post.screen, ..pre })
                    } else {
                        let seq = next_id(pre.requests.last_seq);
                        &&& post.requests.pending@ == pre.requests.pending@.push(post.requests.pending@.last())
                        &&& post.requests.pending@.last().seq == seq && post.requests.pending@.last().task_id is None
                        &&& post.requests.pending@.last().msg matches ClientMsg::RemoveFromPlaylist { playlist_id, items: its }
                            && playlist_id == pid && its@ == items
                        &&& post.requests.last_seq == seq && post.requests.last_task == pre.requests.last_task
                        &&& post.pending_playlists.removing@.len() == pre.pending_playlists.removing@.len() + items.len()
                        &&& post.pending_playlists.removing@.take(pre.pending_playlists.removing@.len() as int)
                            == pre.pending_playlists.removing@
                        &&& forall|k: int| 0 <= k < items.len() ==> #[trigger] post.pending_playlists.removing@[pre.pending_playlists.removing@.len() + k]
                            == (PendingOp { seq, playlist_id: pid, detail: items[k].0 })
                        &&& post.pending_playlists == (crate::state::server::PendingPlaylists {
                            removing: post.pending_playlists.removing,
                            ..pre.pending_playlists
                        })
                        &&& post == (Sources {
                            requests: post.requests,
                            pending_playlists: post.pending_playlists,
                            selection: post.selection,
                            screen: post.screen,
                            ..pre
                        })
                    }
                },
            },
            _ => post.selection.is_reset() && post.selection.wf() && post == (Sources {
                selection: post.selection,
                screen: Screen::NowPlaying,
                ..pre
            }),
        },
    }
}

proof fn lemma_removals_step(s: Sources, sel: Seq<usize>, k: int)
    requires
        0 <= k < sel.len(),
    ensures
        removals(s, sel.take(k + 1)) == match removal_of(s, sel[k] as int) {
            Some(m) => removals(s, sel.take(k)).push(m),
            None => removals(s, sel.take(k)),
        },
{
    assert(sel.take(k + 1).drop_last() =~= sel.take(k));
}

/// Bulk delete in column `ctx`.
pub fn selection_action_delete(sources: &mut Sources, ctx: SelectionContext)
    ensures
        bulk_deleted(*old(sources), *final(sources), ctx),
{
    match ctx {
        SelectionContext::Queue => {
            let indices = sources.selection.selected.clone();
            let ghost pre = *sources;
            let mut k: usize = 0;
            while k < indices.len()
                invariant
                    k <= indices@.len(),
                    indices@ == pre.selection.selected@,
                    *sources == (Sources { requests: sources.requests, ..pre }),
                    ({
                        let (p, l) = queued_all(pre.requests.pending@, pre.requests.last_seq, removals(pre, indices@.take(k as int)));
                        sources.requests.pending@ == p && sources.requests.last_seq == l
                    }),
                    sources.requests.last_task == pre.requests.last_task,
                decreases indices@.len() - k,
            {
                proof {
                    lemma_removals_step(pre, indices@, k as int);
                    let msgs = removals(pre, indices@.take(k as int));
                    match removal_of(pre, indices@[k as int] as int) {
                        Some(m) => {
                            assert(msgs.push(m).drop_last() =~= msgs);
                        },
                        None => {},
                    }
                }
                remove_queue_entry(sources, indices[k]);
                k = k + 1;
            }
            proof {
                assert(indices@.take(indices@.len() as int) =~= indices@);
            }
            sources.selection.clear();
            sources.screen = Screen::NowPlaying;
        },
        SelectionContext::Middle => {
            match &sources.history.mode {
                MiddleMode::PlaylistSongs => {
                    let pid = match &sources.playlist_tracks.playlist_id {
                        Some(p) => p.clone(),
                        None => {
                            sources.screen = Screen::NowPlaying;
                            return;
                        },
                    };
                    let sel = &sources.selection.selected;
                    let rows = &sources.playlist_tracks.songs;
                    let mut items: Vec<(String, usize)> = Vec::new();
                    let mut ids: Vec<String> = Vec::new();
                    let mut k: usize = 0;
                    while k < sel.len()
                        invariant
                            k <= sel@.len(),
                            items@ == slot_items(sel@.take(k as int), rows@),
                            ids@.len() == items@.len(),
                            forall|t: int| 0 <= t < ids@.len() ==> ids@[t] == items@[t].0,
                        decreases sel@.len() - k,
                    {
                        proof {
                            assert(sel@.take(k + 1).drop_last() =~= sel@.take(k as int));
                        }
                        let i = sel[k];
                        if i < rows.len() {
                            match &rows[i] {
                                Some(song) => {
                                    items.push((song.id.clone(), i));
                                    ids.push(song.id.clone());
                                },
                                None => {},
                            }
                        }
                        k = k + 1;
                    }
                    proof {
                        assert(sel@.take(sel@.len() as int) =~= sel@);
                    }
                    if items.len() > 0 {
                        let ghost gitems = items@;
                        let seq = sources.requests.push(
                            ClientMsg::RemoveFromPlaylist { playlist_id: pid.clone(), items },
                            None,
                        );
                        sources.pending_playlists.add_removing(seq, pid, ids);
                    }
                },
                _ => {},
            }
            sources.selection.clear();
            sources.screen = Screen::NowPlaying;
        },
    }
}

/// What bulk-menu key `choice` does: play the selected songs next or
/// last, or open the playlist picker for them (only with at least one
/// song selected), or delete; play ends the selection. Anything else,
/// and a menu without a selection, just closes the menu.
pub open spec fn bulk_applied(pre: Sources, post: Sources, choice: char) -> bool {
    match pre.selection.context {
        None => post == (Sources { screen: Screen::NowPlaying, ..pre }),
        Some(ctx) => {
            let ids = gathered(pre, ctx);
            if (choice == 'n' || choice == 'e') && ids.len() > 0 {
                &&& songs_played(pre, post, ids, if choice == 'n' { QueuePosition::Next } else { QueuePosition::Last })
                &&& post.selection.is_reset() && post.selection.wf()
                &&& post == (Sources {
                    requests: post.requests,
                    selection: post.selection,
                    screen: Screen::NowPlaying,
                    ..pre
                })
            } else if choice == 'a' && ids.len() > 0 {
                &&& post.screen matches Screen::PlaylistPicker { item, selected } && selected == 0 && bulk_item(item, ids.len())
                &&& post == (Sources { screen: post.screen, ..pre })
            } else if choice == 'd' {
                bulk_deleted(pre, post, ctx)
            } else {
                post == (Sources { screen: Screen::NowPlaying, ..pre })
            }
        },
    }
}

/// A bulk-menu key.
pub fn selection_action_apply(sources: &mut Sources, choice: char)
    ensures
        bulk_applied(*old(sources), *final(sources), choice),
{
    let ctx = match sources.selection.context {
        Some(c) => c,
        None => {
            sources.screen = Screen::NowPlaying;
            return;
        },
    };
    let song_ids = gather_selection_song_ids(sources, ctx);
    let n = song_ids.len();
    if (choice == 'n' || choice == 'e') && n > 0 {
        let position = if choice == 'n' { QueuePosition::Next } else { QueuePosition::Last };
        sources.requests.push(ClientMsg::PlaySongs { song_ids, position }, None);
        sources.selection.clear();
        sources.screen = Screen::NowPlaying;
    } else if choice == 'a' && n > 0 {
        let mut label = decimal_text(n);
        push_str(&mut label, " songs");
        let item = ActionItem {
            id: String::new(),
            kind: ActionKind::Song,
            label,
            album_id: None,
            album_title: None,
            artist_id: None,
            artist_label: None,
            playlist_id: None,
            view_index: None,
            origin: ActionOrigin::OtherMiddle,
        };
        sources.screen = Screen::PlaylistPicker { item, selected: 0 };
    } else if choice == 'd' {
        selection_action_delete(sources, ctx);
    } else {
        sources.screen = Screen::NowPlaying;
    }
}

} // verus!
