//! The keybinding editor: opened from the help overlay on a draft of
//! the key table, navigated by context and action, edited by binding,
//! adding or resetting keys, and saved through the persist driver. The
//! active table only changes when a save is acknowledged.

use vstd::prelude::*;
use crate::persist::{LoadKey, LoadKeyModel, PersistCmd};
use crate::state::keybindings::{
    has_action, keys_added, with_keys, KeyChord, KeybindingsEditorState, ActionModel, KEY_TOAST_MS,
};
use crate::state::link::sat_add;
use crate::state::sources::Sources;
use crate::state::ui::Screen;

verus! {

/// `n - 1`, held at zero.
pub open spec fn dec(n: usize) -> usize {
    if n == 0 { 0 } else { (n - 1) as usize }
}

/// Number of actions of context `ctx` in table `m`.
pub open spec fn actions_in(m: Seq<Seq<ActionModel>>, ctx: int) -> int {
    if 0 <= ctx < m.len() { m[ctx].len() as int } else { 0 }
}

/// `a + 1` held at `limit`, both taken as rows.
pub open spec fn step_to(a: usize, limit: int) -> usize {
    if (a as int) + 1 <= limit { (a + 1) as usize } else if a as int <= limit { a } else { limit as usize }
}

/// The first row of context `ctx` whose action is `action`.
pub open spec fn action_row(m: Seq<Seq<ActionModel>>, ctx: int, action: u32) -> Option<int> {
    if 0 <= ctx < m.len() {
        crate::seqs::first_index(m[ctx], |a: ActionModel| a.action == action)
    } else {
        None
    }
}

/// What opening the editor does: only from the help overlay, and only
/// once the table has loaded; while it loads, a notice says so.
pub open spec fn open_keybindings_editor_effect(pre: Sources, post: Sources) -> bool {
    match pre.screen {
        Screen::HelpOverlay { scroll } => if pre.persist.loads_in_flight.contents().contains(LoadKeyModel::Keybindings) {
            &&& post.toast.message matches Some(m) && m@ == "Keybindings are still loading"@
            &&& post.toast.expires_at == Some(sat_add(pre.now, KEY_TOAST_MS))
            &&& post == (Sources { toast: post.toast, ..pre })
        } else {
            &&& post.screen matches Screen::KeybindingsEditor(st) && st.draft.model() == pre.keybindings.model()
                && st.selected_context == 0 && st.selected_binding == 0 && !st.focus_right && !st.adding
                && !st.listening && st.help_scroll == scroll
            &&& post == (Sources { screen: post.screen, ..pre })
        },
        _ => post == pre,
    }
}

pub fn open_keybindings_editor(sources: &mut Sources)
    ensures
        open_keybindings_editor_effect(*old(sources), *final(sources)),
{
    let scroll = match &sources.screen {
        Screen::HelpOverlay { scroll } => *scroll,
        _ => return,
    };
    if sources.persist.is_loading(&LoadKey::Keybindings) {
        let until = sources.now.saturating_add(KEY_TOAST_MS);
        sources.toast.show("Keybindings are still loading".to_owned(), until);
        return;
    }
    sources.screen = Screen::KeybindingsEditor(
        KeybindingsEditorState {
            draft: sources.keybindings.duplicate(),
            selected_context: 0,
            selected_binding: 0,
            focus_right: false,
            adding: false,
            listening: false,
            help_scroll: scroll,
        },
    );
}

/// What closing the editor does: back to the help overlay where it was
/// opened, the draft dropped.
pub open spec fn close_keybindings_editor_effect(pre: Sources, post: Sources) -> bool {
    match pre.screen {
        Screen::KeybindingsEditor(st) => post == (Sources { screen: Screen::HelpOverlay { scroll: st.help_scroll }, ..pre }),
        _ => post == pre,
    }
}

pub fn close_keybindings_editor(sources: &mut Sources)
    ensures
        close_keybindings_editor_effect(*old(sources), *final(sources)),
{
    let scroll = match &sources.screen {
        Screen::KeybindingsEditor(st) => st.help_scroll,
        _ => return,
    };
    sources.screen = Screen::HelpOverlay { scroll };
}

/// The editor after key `c`: `k`/`j` move through contexts (left) or
/// actions (right), `h`/`l` move focus, `g`/`G` jump to the first or
/// last action, `a` arms adding a key, `d` resets the action to its
/// shipped keys.
pub open spec fn editor_typed(st: KeybindingsEditorState, post: KeybindingsEditorState, c: char) -> bool {
    let m = st.draft.model();
    let ctx = st.selected_context as int;
    let n = actions_in(m, ctx);
    let sb = st.selected_binding;
    if c == 'k' && st.focus_right {
        post == (KeybindingsEditorState { selected_binding: dec(sb), ..st })
    } else if c == 'k' {
        post == (KeybindingsEditorState { selected_context: dec(st.selected_context), selected_binding: 0, ..st })
    } else if c == 'j' && st.focus_right {
        post == (KeybindingsEditorState { selected_binding: step_to(sb, if n == 0 { 0 } else { n - 1 }), ..st })
    } else if c == 'j' {
        post == (KeybindingsEditorState {
            selected_context: step_to(st.selected_context, if m.len() == 0 { 0 } else { m.len() - 1 }),
            selected_binding: 0,
            ..st
        })
    } else if c == 'l' {
        post == (KeybindingsEditorState { focus_right: true, ..st })
    } else if c == 'h' {
        post == (KeybindingsEditorState { focus_right: false, ..st })
    } else if c == 'a' && st.focus_right {
        post == (KeybindingsEditorState { adding: true, ..st })
    } else if c == 'd' && st.focus_right && has_action(m, ctx, sb as int) {
        &&& post.draft.model() == with_keys(m, ctx, sb as int, m[ctx][sb as int].defaults)
        &&& post == (KeybindingsEditorState { draft: post.draft, ..st })
    } else if c == 'g' && st.focus_right {
        post == (KeybindingsEditorState { selected_binding: 0, ..st })
    } else if c == 'G' && st.focus_right {
        post == (KeybindingsEditorState { selected_binding: if n == 0 { 0 } else { (n - 1) as usize }, ..st })
    } else {
        post == st
    }
}

/// An editor step on the sources: the editor state changes as `step`
/// says; nothing else does, and without the editor nothing happens.
pub open spec fn in_editor(pre: Sources, post: Sources, step: spec_fn(KeybindingsEditorState, KeybindingsEditorState) -> bool) -> bool {
    match pre.screen {
        Screen::KeybindingsEditor(st) => {
            &&& post.screen matches Screen::KeybindingsEditor(p) && step(st, p)
            &&& post == (Sources { screen: post.screen, ..pre })
        },
        _ => post == pre,
    }
}

/// Take the editor off the screen, leaving the now-playing view in its
/// place.
fn take_editor(sources: &mut Sources) -> (r: Option<KeybindingsEditorState>)
    ensures
        match old(sources).screen {
            Screen::KeybindingsEditor(st) => r == Some(st) && *final(sources) == (Sources { screen: Screen::NowPlaying, ..*old(sources) }),
            _ => r is None && *final(sources) == *old(sources),
        },
{
    if !matches!(sources.screen, Screen::KeybindingsEditor(_)) {
        return None;
    }
    let mut screen = Screen::NowPlaying;
    std::mem::swap(&mut screen, &mut sources.screen);
    match screen {
        Screen::KeybindingsEditor(st) => Some(st),
        _ => None,
    }
}

pub fn keybindings_editor_type(sources: &mut Sources, c: char)
    ensures
        in_editor(*old(sources), *final(sources), |a: KeybindingsEditorState, b: KeybindingsEditorState| editor_typed(a, b, c)),
{
    let mut st = match take_editor(sources) {
        Some(st) => st,
        None => return,
    };
    let ghost st0 = st;
    let ctx = st.selected_context;
    let n = st.draft.n_actions(ctx);
    if c == 'k' && st.focus_right {
        st.selected_binding = st.selected_binding.saturating_sub(1);
    } else if c == 'k' {
        st.selected_context = st.selected_context.saturating_sub(1);
        st.selected_binding = 0;
    } else if c == 'j' && st.focus_right {
        let max = n.saturating_sub(1);
        let next = st.selected_binding.saturating_add(1);
        st.selected_binding = if next <= max { next } else if st.selected_binding <= max { st.selected_binding } else { max };
    } else if c == 'j' {
        let max = st.draft.n_contexts().saturating_sub(1);
        let next = st.selected_context.saturating_add(1);
        st.selected_context = if next <= max { next } else if st.selected_context <= max { st.selected_context } else { max };
        st.selected_binding = 0;
    } else if c == 'l' {
        st.focus_right = true;
    } else if c == 'h' {
        st.focus_right = false;
    } else if c == 'a' && st.focus_right {
        st.adding = true;
    } else if c == 'd' && st.focus_right && st.selected_binding < n {
        let sb = st.selected_binding;
        st.draft.reset_at(ctx, sb);
    } else if c == 'g' && st.focus_right {
        st.selected_binding = 0;
    } else if c == 'G' && st.focus_right {
        st.selected_binding = n.saturating_sub(1);
    }
    assert(editor_typed(st0, st, c));
    sources.screen = Screen::KeybindingsEditor(st);
}

/// Choosing action `action` in the right column selects its row and
/// waits for a key.
pub open spec fn editor_selected(st: KeybindingsEditorState, post: KeybindingsEditorState, action: u32) -> bool {
    match action_row(st.draft.model(), st.selected_context as int, action) {
        Some(i) if st.focus_right => post == (KeybindingsEditorState { selected_binding: i as usize, listening: true, ..st }),
        _ => post == st,
    }
}

pub fn keybindings_editor_select(sources: &mut Sources, action: u32)
    ensures
        in_editor(*old(sources), *final(sources), |a: KeybindingsEditorState, b: KeybindingsEditorState| editor_selected(a, b, action)),
{
    let mut st = match take_editor(sources) {
        Some(st) => st,
        None => return,
    };
    let ghost st0 = st;
    if st.focus_right {
        let found = st.draft.position_of(st.selected_context, action);
        proof {
            let m = st0.draft.model();
            let ctx = st0.selected_context as int;
            if 0 <= ctx < m.len() {
                let p = |a: ActionModel| a.action == action;
                match found {
                    Some(i) => crate::seqs::lemma_is_first_index(m[ctx], p, i as int),
                    None => {
                        assert forall|j: int| 0 <= j < m[ctx].len() implies !p(m[ctx][j]) by {
                            assert(has_action(m, ctx, j));
                        }
                        crate::seqs::lemma_none_index(m[ctx], p);
                    },
                }
            }
        }
        if let Some(i) = found {
            st.selected_binding = i;
            st.listening = true;
        }
    }
    assert(editor_selected(st0, st, action));
    sources.screen = Screen::KeybindingsEditor(st);
}

/// A key pressed while the editor waits binds it to the selected
/// action: added to its keys when adding was armed, in place of them
/// otherwise. The wait ends either way.
pub open spec fn editor_bound(st: KeybindingsEditorState, post: KeybindingsEditorState, key: KeyChord) -> bool {
    let m = st.draft.model();
    let ctx = st.selected_context as int;
    let sb = st.selected_binding as int;
    &&& post.draft.model() == (if has_action(m, ctx, sb) {
        with_keys(m, ctx, sb, if st.adding { keys_added(m[ctx][sb].keys, key) } else { seq![key] })
    } else {
        m
    })
    &&& post == (KeybindingsEditorState { draft: post.draft, listening: false, adding: false, ..st })
}

pub fn keybindings_editor_bind(sources: &mut Sources, key: KeyChord)
    ensures
        in_editor(*old(sources), *final(sources), |a: KeybindingsEditorState, b: KeybindingsEditorState| editor_bound(a, b, key)),
{
    let mut st = match take_editor(sources) {
        Some(st) => st,
        None => return,
    };
    let ghost st0 = st;
    let ctx = st.selected_context;
    let sb = st.selected_binding;
    if sb < st.draft.n_actions(ctx) {
        if st.adding {
            st.draft.add_at(ctx, sb, key);
        } else {
            st.draft.replace_at(ctx, sb, key);
        }
    }
    st.listening = false;
    st.adding = false;
    assert(editor_bound(st0, st, key));
    sources.screen = Screen::KeybindingsEditor(st);
}

/// Saving asks the persist driver to store the draft; the active table
/// changes when the save is acknowledged.
pub fn keybindings_editor_save(sources: &Sources) -> (cmd: Option<PersistCmd>)
    ensures
        match sources.screen {
            Screen::KeybindingsEditor(st) => cmd matches Some(PersistCmd::SaveKeybindings { keybindings })
                && keybindings.model() == st.draft.model(),
            _ => cmd is None,
        },
{
    match &sources.screen {
        Screen::KeybindingsEditor(st) => Some(PersistCmd::SaveKeybindings { keybindings: st.draft.duplicate() }),
        _ => None,
    }
}

} // verus!
