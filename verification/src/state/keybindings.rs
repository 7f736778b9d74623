//! The key table: for each key context, its actions in the order the
//! editor lists them, each with the keys bound to it and the keys it
//! ships with.

use vstd::prelude::*;
use crate::seqs::first_index;

verus! {

/// How long the keybinding notices stay up, in milliseconds.
pub const KEY_TOAST_MS: u64 = 3000;

/// A key press: the character and its modifiers.
#[derive(PartialEq, Eq, Structural, Clone, Copy, Debug)]
pub struct KeyChord {
    pub code: char,
    pub ctrl: bool,
    pub alt: bool,
}

impl KeyChord {
    /// A plain character key.
    pub fn char(c: char) -> (k: KeyChord)
        ensures
            k == (KeyChord { code: c, ctrl: false, alt: false }),
    {
        KeyChord { code: c, ctrl: false, alt: false }
    }
}

/// One action of a context: its id, its keys and its shipped keys.
pub struct ActionKeys {
    pub action: u32,
    pub keys: Vec<KeyChord>,
    pub defaults: Vec<KeyChord>,
}

/// The actions of one key context, in listing order.
pub struct ContextKeys {
    pub actions: Vec<ActionKeys>,
}

/// The key table, one entry per key context.
pub struct Keybindings {
    pub contexts: Vec<ContextKeys>,
}

/// An action's bindings as values.
pub struct ActionModel {
    pub action: u32,
    pub keys: Seq<KeyChord>,
    pub defaults: Seq<KeyChord>,
}

impl ActionKeys {
    pub open spec fn model(self) -> ActionModel {
        ActionModel { action: self.action, keys: self.keys@, defaults: self.defaults@ }
    }
}

impl ContextKeys {
    pub open spec fn model(self) -> Seq<ActionModel> {
        self.actions@.map_values(|a: ActionKeys| a.model())
    }
}

/// The table with the keys of action `i` of context `ctx` set to
/// `keys`.
pub open spec fn with_keys(m: Seq<Seq<ActionModel>>, ctx: int, i: int, keys: Seq<KeyChord>) -> Seq<Seq<ActionModel>> {
    m.update(ctx, m[ctx].update(i, ActionModel { keys, ..m[ctx][i] }))
}

/// `keys` with `key` appended unless it is already there.
pub open spec fn keys_added(keys: Seq<KeyChord>, key: KeyChord) -> Seq<KeyChord> {
    if keys.contains(key) { keys } else { keys.push(key) }
}

/// Whether action `i` of context `ctx` exists in `m`.
pub open spec fn has_action(m: Seq<Seq<ActionModel>>, ctx: int, i: int) -> bool {
    0 <= ctx < m.len() && 0 <= i < m[ctx].len()
}

/// A copy of a list of keys.
fn copy_chords(v: &Vec<KeyChord>) -> (r: Vec<KeyChord>)
    ensures
        r@ == v@,
{
    let mut r: Vec<KeyChord> = Vec::new();
    let mut i: usize = 0;
    while i < v.len()
        invariant
            i <= v@.len(),
            r@ == v@.take(i as int),
        decreases v@.len() - i,
    {
        r.push(v[i]);
        assert(v@.take(i + 1) =~= v@.take(i as int).push(v@[i as int]));
        i = i + 1;
    }
    assert(v@.take(v@.len() as int) =~= v@);
    r
}

impl ActionKeys {
    pub fn duplicate(&self) -> (r: ActionKeys)
        ensures
            r.model() == self.model(),
    {
        ActionKeys { action: self.action, keys: copy_chords(&self.keys), defaults: copy_chords(&self.defaults) }
    }
}

impl ContextKeys {
    pub fn duplicate(&self) -> (r: ContextKeys)
        ensures
            r.model() == self.model(),
    {
        let mut out: Vec<ActionKeys> = Vec::new();
        let mut i: usize = 0;
        while i < self.actions.len()
            invariant
                i <= self.actions@.len(),
                out@.len() == i,
                forall|k: int| 0 <= k < i ==> #[trigger] out@[k].model() == self.actions@[k].model(),
            decreases self.actions@.len() - i,
        {
            out.push(self.actions[i].duplicate());
            i = i + 1;
        }
        let r = ContextKeys { actions: out };
        assert(r.model() =~= self.model());
        r
    }
}

impl Keybindings {
    pub open spec fn model(self) -> Seq<Seq<ActionModel>> {
        self.contexts@.map_values(|c: ContextKeys| c.model())
    }

    /// A table with no context.
    pub fn new() -> (k: Self)
        ensures
            k.model().len() == 0,
    {
        Keybindings { contexts: Vec::new() }
    }

    pub fn duplicate(&self) -> (r: Keybindings)
        ensures
            r.model() == self.model(),
    {
        let mut out: Vec<ContextKeys> = Vec::new();
        let mut i: usize = 0;
        while i < self.contexts.len()
            invariant
                i <= self.contexts@.len(),
                out@.len() == i,
                forall|k: int| 0 <= k < i ==> #[trigger] out@[k].model() == self.contexts@[k].model(),
            decreases self.contexts@.len() - i,
        {
            out.push(self.contexts[i].duplicate());
            i = i + 1;
        }
        let r = Keybindings { contexts: out };
        assert(r.model() =~= self.model());
        r
    }

    /// Number of key contexts.
    pub fn n_contexts(&self) -> (n: usize)
        ensures
            n == self.model().len(),
    {
        self.contexts.len()
    }

    /// Number of actions listed for context `ctx` (none for a context
    /// that does not exist).
    pub fn n_actions(&self, ctx: usize) -> (n: usize)
        ensures
            n == (if ctx < self.model().len() { self.model()[ctx as int].len() } else { 0 }),
    {
        if ctx < self.contexts.len() {
            self.contexts[ctx].actions.len()
        } else {
            0
        }
    }

    /// The action listed at row `i` of context `ctx`.
    pub fn action_at(&self, ctx: usize, i: usize) -> (r: Option<u32>)
        ensures
            r == (if has_action(self.model(), ctx as int, i as int) {
                Some(self.model()[ctx as int][i as int].action)
            } else {
                None
            }),
    {
        if ctx < self.contexts.len() && i < self.contexts[ctx].actions.len() {
            Some(self.contexts[ctx].actions[i].action)
        } else {
            None
        }
    }

    /// The row of `action` in context `ctx`.
    pub fn position_of(&self, ctx: usize, action: u32) -> (r: Option<usize>)
        ensures
            match r {
                Some(i) => has_action(self.model(), ctx as int, i as int)
                    && self.model()[ctx as int][i as int].action == action
                    && forall|j: int| 0 <= j < i ==> self.model()[ctx as int][j].action != action,
                None => forall|j: int|
                    has_action(self.model(), ctx as int, j) ==> self.model()[ctx as int][j].action != action,
            },
    {
        if ctx >= self.contexts.len() {
            return None;
        }
        let acts = &self.contexts[ctx].actions;
        let mut i: usize = 0;
        while i < acts.len()
            invariant
                ctx < self.model().len(),
                acts@ == self.contexts@[ctx as int].actions@,
                i <= acts@.len(),
                forall|j: int| 0 <= j < i ==> self.model()[ctx as int][j].action != action,
            decreases acts@.len() - i,
        {
            if acts[i].action == action {
                return Some(i);
            }
            i = i + 1;
        }
        None
    }

    /// The keys bound to row `i` of context `ctx`, none when it does
    /// not exist.
    pub fn keys_at(&self, ctx: usize, i: usize) -> (r: Vec<KeyChord>)
        ensures
            r@ == (if has_action(self.model(), ctx as int, i as int) {
                self.model()[ctx as int][i as int].keys
            } else {
                Seq::empty()
            }),
    {
        if ctx < self.contexts.len() && i < self.contexts[ctx].actions.len() {
            copy_chords(&self.contexts[ctx].actions[i].keys)
        } else {
            Vec::new()
        }
    }

    /// Bind row `i` of context `ctx` to exactly `keys`.
    pub fn set_keys(&mut self, ctx: usize, i: usize, keys: Vec<KeyChord>)
        requires
            has_action(old(self).model(), ctx as int, i as int),
        ensures
            final(self).model() == with_keys(old(self).model(), ctx as int, i as int, keys@),
    {
        let ghost m = self.model();
        let mut cx = self.contexts.remove(ctx);
        let mut ak = cx.actions.remove(i);
        ak.keys = keys;
        cx.actions.insert(i, ak);
        assert(cx.model() =~= m[ctx as int].update(i as int, ActionModel { keys: keys@, ..m[ctx as int][i as int] }));
        self.contexts.insert(ctx, cx);
        assert(self.model() =~= with_keys(m, ctx as int, i as int, keys@));
    }

    /// Put row `i` of context `ctx` back to its shipped keys.
    pub fn reset_at(&mut self, ctx: usize, i: usize)
        requires
            has_action(old(self).model(), ctx as int, i as int),
        ensures
            final(self).model() == with_keys(
                old(self).model(),
                ctx as int,
                i as int,
                old(self).model()[ctx as int][i as int].defaults,
            ),
    {
        let d = copy_chords(&self.contexts[ctx].actions[i].defaults);
        self.set_keys(ctx, i, d);
    }

    /// Bind row `i` of context `ctx` to `key` alone.
    pub fn replace_at(&mut self, ctx: usize, i: usize, key: KeyChord)
        requires
            has_action(old(self).model(), ctx as int, i as int),
        ensures
            final(self).model() == with_keys(old(self).model(), ctx as int, i as int, seq![key]),
    {
        let mut v: Vec<KeyChord> = Vec::new();
        v.push(key);
        assert(v@ =~= seq![key]);
        self.set_keys(ctx, i, v);
    }

    /// Also bind row `i` of context `ctx` to `key`.
    pub fn add_at(&mut self, ctx: usize, i: usize, key: KeyChord)
        requires
            has_action(old(self).model(), ctx as int, i as int),
        ensures
            final(self).model() == with_keys(
                old(self).model(),
                ctx as int,
                i as int,
                keys_added(old(self).model()[ctx as int][i as int].keys, key),
            ),
    {
        let mut v = copy_chords(&self.contexts[ctx].actions[i].keys);
        let mut j: usize = 0;
        let mut found = false;
        while j < v.len()
            invariant
                j <= v@.len(),
                found <==> exists|k: int| 0 <= k < j && v@[k] == key,
            decreases v@.len() - j,
        {
            if v[j] == key {
                found = true;
            }
            j = j + 1;
        }
        proof {
            if found {
                let k = choose|k: int| 0 <= k < v@.len() && v@[k] == key;
                assert(v@.contains(key));
            } else {
                assert(!v@.contains(key));
            }
        }
        if !found {
            v.push(key);
        }
        self.set_keys(ctx, i, v);
    }
}

/// Whether an action model is for `action`.
pub open spec fn is_action(action: u32) -> spec_fn(ActionModel) -> bool {
    |a: ActionModel| a.action == action
}

/// A shipped action with its keys taken from the stored context, when
/// that context lists the action.
pub open spec fn merged_action(d: ActionModel, stored: Option<Seq<ActionModel>>) -> ActionModel {
    ActionModel {
        keys: match stored {
            Some(sc) => match first_index(sc, is_action(d.action)) {
                Some(i) => sc[i].keys,
                None => d.keys,
            },
            None => d.keys,
        },
        ..d
    }
}

/// The shipped table with the stored keys laid over it: same contexts,
/// actions and shipped keys; each action keeps the keys the stored
/// table gives it in the same context, else its shipped ones.
pub open spec fn merged_table(d: Seq<Seq<ActionModel>>, s: Seq<Seq<ActionModel>>) -> Seq<Seq<ActionModel>> {
    Seq::new(
        d.len(),
        |c: int| Seq::new(d[c].len(), |i: int| merged_action(d[c][i], if c < s.len() { Some(s[c]) } else { None })),
    )
}

impl Keybindings {
    /// `defaults` with the keys of `stored` laid over it, so actions
    /// added since the table was stored appear with their shipped keys
    /// and stale ones drop out.
    pub fn merged(defaults: &Keybindings, stored: &Keybindings) -> (r: Keybindings)
        ensures
            r.model() == merged_table(defaults.model(), stored.model()),
    {
        let ghost dm = defaults.model();
        let ghost sm = stored.model();
        let mut out: Vec<ContextKeys> = Vec::new();
        let mut c: usize = 0;
        while c < defaults.contexts.len()
            invariant
                c <= defaults.contexts@.len(),
                dm == defaults.model(),
                sm == stored.model(),
                out@.len() == c,
                forall|k: int| 0 <= k < c ==> #[trigger] out@[k].model() == merged_table(dm, sm)[k],
            decreases defaults.contexts@.len() - c,
        {
            let dc = &defaults.contexts[c];
            let mut acts: Vec<ActionKeys> = Vec::new();
            let mut i: usize = 0;
            while i < dc.actions.len()
                invariant
                    c < defaults.contexts@.len(),
                    dc == &defaults.contexts@[c as int],
                    dm == defaults.model(),
                    sm == stored.model(),
                    i <= dc.actions@.len(),
                    acts@.len() == i,
                    forall|k: int| 0 <= k < i ==> #[trigger] acts@[k].model() == merged_table(dm, sm)[c as int][k],
                decreases dc.actions@.len() - i,
            {
                let d = &dc.actions[i];
                let found = stored.position_of(c, d.action);
                proof {
                    if (c as int) < sm.len() {
                        let p = is_action(d.action);
                        match found {
                            Some(j) => crate::seqs::lemma_is_first_index(sm[c as int], p, j as int),
                            None => {
                                assert forall|j: int| 0 <= j < sm[c as int].len() implies !p(sm[c as int][j]) by {
                                    assert(has_action(sm, c as int, j));
                                }
                                crate::seqs::lemma_none_index(sm[c as int], p);
                            },
                        }
                    }
                }
                let keys = match found {
                    Some(j) => stored.keys_at(c, j),
                    None => copy_chords(&d.keys),
                };
                acts.push(ActionKeys { action: d.action, keys, defaults: copy_chords(&d.defaults) });
                i = i + 1;
            }
            let cx = ContextKeys { actions: acts };
            assert(cx.model() =~= merged_table(dm, sm)[c as int]);
            out.push(cx);
            c = c + 1;
        }
        let r = Keybindings { contexts: out };
        assert(r.model() =~= merged_table(dm, sm));
        r
    }
}

/// The keybinding editor: a draft of the table, the selected context
/// and row, which column has focus, and whether it waits for a key to
/// add or to bind.
pub struct KeybindingsEditorState {
    pub draft: Keybindings,
    pub selected_context: usize,
    pub selected_binding: usize,
    pub focus_right: bool,
    pub adding: bool,
    pub listening: bool,
    /// Scroll of the help overlay to return to.
    pub help_scroll: u16,
}

} // verus!
