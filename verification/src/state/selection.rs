//! Multi-row selection in the middle or queue column: the chosen rows,
//! and the live range between an anchor and the cursor.

use vstd::prelude::*;

verus! {

/// Which column a selection lives in.
#[derive(PartialEq, Eq, Structural, Clone, Copy, Debug)]
pub enum SelectionContext {
    Middle,
    Queue,
}

/// Strictly ascending, so each row occurs once and iteration is in row
/// order.
pub open spec fn ascending(s: Seq<usize>) -> bool {
    forall|i: int, j: int| 0 <= i < j < s.len() ==> s[i] < s[j]
}

/// The selection source. Row sets are kept strictly ascending.
pub struct Selection {
    pub context: Option<SelectionContext>,
    pub selected: Vec<usize>,
    pub range_anchor: Option<usize>,
    /// Rows the live range added.
    pub range_selected: Vec<usize>,
}

/// Whether each row of `v` is below the next one.
pub fn strictly_ascending(v: &Vec<usize>) -> (r: bool)
    ensures
        r == ascending(v@),
{
    let mut i: usize = 1;
    while i < v.len()
        invariant
            1 <= i,
            i <= v.len() || v.len() == 0,
            forall|a: int, b: int| 0 <= a < b < i && b < v.len() ==> v@[a] < v@[b],
        decreases v.len() - i,
    {
        if v[i - 1] >= v[i] {
            return false;
        }
        proof {
            assert forall|a: int, b: int| 0 <= a < b < i + 1 && b < v.len() implies v@[a] < v@[b] by {
                if b == i as int && a < i - 1 {
                    assert(v@[a] < v@[i - 1]);
                }
            }
        }
        i = i + 1;
    }
    true
}

/// The rows of `s` as a set.
pub open spec fn rows_of(s: Seq<usize>) -> Set<usize> {
    s.to_set()
}

impl Selection {
    pub open spec fn wf(self) -> bool {
        ascending(self.selected@) && ascending(self.range_selected@)
    }

    /// No selection: no column, no rows, no range.
    pub open spec fn is_reset(self) -> bool {
        &&& self.context is None
        &&& self.selected@.len() == 0
        &&& self.range_anchor is None
        &&& self.range_selected@.len() == 0
    }

    pub fn new() -> (s: Self)
        ensures
            s.is_reset(),
            s.wf(),
    {
        Selection { context: None, selected: Vec::new(), range_anchor: None, range_selected: Vec::new() }
    }

    /// Whether both row lists are strictly ascending.
    pub fn is_well_formed(&self) -> (r: bool)
        ensures
            r == self.wf(),
    {
        strictly_ascending(&self.selected) && strictly_ascending(&self.range_selected)
    }

    /// Selection mode is on.
    pub fn is_active(&self) -> (r: bool)
        ensures
            r == self.context is Some,
    {
        self.context.is_some()
    }

    /// Leave selection mode, dropping every row.
    pub fn clear(&mut self)
        ensures
            final(self).is_reset(),
            final(self).wf(),
    {
        *self = Selection::new();
    }

    /// Enter selection mode in column `ctx` with nothing selected.
    pub fn begin(&mut self, ctx: SelectionContext)
        ensures
            *final(self) == (Selection { context: Some(ctx), ..*final(self) }),
            final(self).context == Some(ctx),
            final(self).selected@.len() == 0,
            final(self).range_anchor is None,
            final(self).range_selected@.len() == 0,
            final(self).wf(),
    {
        *self = Selection { context: Some(ctx), selected: Vec::new(), range_anchor: None, range_selected: Vec::new() };
    }

    /// Select row `i`.
    pub fn add(&mut self, i: usize)
        requires
            old(self).wf(),
        ensures
            final(self).wf(),
            rows_of(final(self).selected@) == rows_of(old(self).selected@).insert(i),
            final(self).context == old(self).context,
            final(self).range_anchor == old(self).range_anchor,
            final(self).range_selected == old(self).range_selected,
    {
        set_insert(&mut self.selected, i);
    }

    /// Unselect row `i`.
    pub fn remove(&mut self, i: usize)
        requires
            old(self).wf(),
        ensures
            final(self).wf(),
            rows_of(final(self).selected@) == rows_of(old(self).selected@).remove(i),
            final(self).context == old(self).context,
            final(self).range_anchor == old(self).range_anchor,
            final(self).range_selected == old(self).range_selected,
    {
        set_remove(&mut self.selected, i);
    }
}

/// Whether ascending `v` holds `x`.
pub fn set_contains(v: &Vec<usize>, x: usize) -> (r: bool)
    ensures
        r == rows_of(v@).contains(x),
{
    let mut k: usize = 0;
    while k < v.len()
        invariant
            k <= v@.len(),
            forall|j: int| 0 <= j < k ==> v@[j] != x,
        decreases v@.len() - k,
    {
        if v[k] == x {
            assert(v@.to_set().contains(v@[k as int]));
            return true;
        }
        k = k + 1;
    }
    assert(!v@.to_set().contains(x)) by {
        if v@.to_set().contains(x) {
            let j = choose|j: int| 0 <= j < v@.len() && v@[j] == x;
        }
    }
    false
}

/// Add `x` to ascending `v`, keeping it ascending.
pub fn set_insert(v: &mut Vec<usize>, x: usize)
    requires
        ascending(old(v)@),
    ensures
        ascending(final(v)@),
        rows_of(final(v)@) == rows_of(old(v)@).insert(x),
{
    let mut k: usize = 0;
    while k < v.len() && v[k] < x
        invariant
            k <= v@.len(),
            ascending(v@),
            v@ == old(v)@,
            forall|j: int| 0 <= j < k ==> v@[j] < x,
        decreases v@.len() - k,
    {
        k = k + 1;
    }
    if k < v.len() && v[k] == x {
        assert(rows_of(v@).insert(x) =~= rows_of(v@)) by {
            assert(v@.to_set().contains(v@[k as int]));
        }
        return;
    }
    let ghost pre = v@;
    assert(k < pre.len() ==> pre[k as int] > x);
    v.insert(k, x);
    assert forall|t: int| 0 <= t < v@.len() implies #[trigger] v@[t] == (if t < k { pre[t] } else if t == k { x } else { pre[t - 1] }) by {
    }
    assert forall|i: int, j: int| 0 <= i < j < v@.len() implies v@[i] < v@[j] by {
        assert(v@[i] == (if i < k { pre[i] } else if i == k { x } else { pre[i - 1] }));
        assert(v@[j] == (if j < k { pre[j] } else if j == k { x } else { pre[j - 1] }));
        if i == k {
            assert(pre[k as int] <= pre[j - 1]) by {
                if k < j - 1 {
                    assert(pre[k as int] < pre[j - 1]);
                }
            }
        }
    }
    assert(rows_of(v@) =~= rows_of(pre).insert(x)) by {
        assert forall|y: usize| rows_of(v@).contains(y) implies rows_of(pre).insert(x).contains(y) by {
            let j = choose|j: int| 0 <= j < v@.len() && v@[j] == y;
            assert(v@[j] == (if j < k { pre[j] } else if j == k { x } else { pre[j - 1] }));
            if j < k {
                assert(pre.to_set().contains(pre[j]));
            } else if j > k {
                assert(pre.to_set().contains(pre[j - 1]));
            }
        }
        assert forall|y: usize| rows_of(pre).insert(x).contains(y) implies rows_of(v@).contains(y) by {
            if y == x {
                assert(v@[k as int] == x);
                assert(v@.to_set().contains(v@[k as int]));
            } else {
                let j = choose|j: int| 0 <= j < pre.len() && pre[j] == y;
                if j < k {
                    assert(v@[j] == y);
                    assert(v@.to_set().contains(v@[j]));
                } else {
                    assert(v@[j + 1] == y);
                    assert(v@.to_set().contains(v@[j + 1]));
                }
            }
        }
    }
}

/// Drop `x` from ascending `v`, keeping it ascending.
pub fn set_remove(v: &mut Vec<usize>, x: usize)
    requires
        ascending(old(v)@),
    ensures
        ascending(final(v)@),
        rows_of(final(v)@) == rows_of(old(v)@).remove(x),
{
    let mut k: usize = 0;
    while k < v.len() && v[k] != x
        invariant
            k <= v@.len(),
            v@ == old(v)@,
            forall|j: int| 0 <= j < k ==> v@[j] != x,
        decreases v@.len() - k,
    {
        k = k + 1;
    }
    if k == v.len() {
        assert(rows_of(v@).remove(x) =~= rows_of(v@)) by {
            if rows_of(v@).contains(x) {
                let j = choose|j: int| 0 <= j < v@.len() && v@[j] == x;
            }
        }
        return;
    }
    let ghost pre = v@;
    v.remove(k);
    assert(v@ =~= pre.take(k as int) + pre.skip(k + 1));
    assert forall|i: int, j: int| 0 <= i < j < v@.len() implies v@[i] < v@[j] by {
        let pi = if i < k { i } else { i + 1 };
        let pj = if j < k { j } else { j + 1 };
        assert(v@[i] == pre[pi]);
        assert(v@[j] == pre[pj]);
    }
    assert(rows_of(v@) =~= rows_of(pre).remove(x)) by {
        assert forall|y: usize| rows_of(v@).contains(y) implies rows_of(pre).remove(x).contains(y) by {
            let j = choose|j: int| 0 <= j < v@.len() && v@[j] == y;
            let pj = if j < k { j } else { j + 1 };
            assert(pre[pj] == y);
            if y == x {
                assert(pre[k as int] == x);
                assert(pj != k);
                if pj < k {
                    assert(pre[pj] < pre[k as int]);
                } else {
                    assert(pre[k as int] < pre[pj]);
                }
            }
        }
        assert forall|y: usize| rows_of(pre).remove(x).contains(y) implies rows_of(v@).contains(y) by {
            let j = choose|j: int| 0 <= j < pre.len() && pre[j] == y;
            assert(j != k);
            if j < k {
                assert(v@[j] == y);
            } else {
                assert(v@[j - 1] == y);
            }
        }
    }
}

} // verus!
