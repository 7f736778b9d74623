use mkpclient::ingest::ingest_persist;
use mkpclient::keybindings_editor::{
    close_keybindings_editor, keybindings_editor_bind, keybindings_editor_save, keybindings_editor_select,
    keybindings_editor_type, open_keybindings_editor,
};
use mkpclient::persist::{LoadKey, PersistCmd, PersistEvent};
use mkpclient::state::keybindings::{ActionKeys, ContextKeys, KeyChord, Keybindings};
use mkpclient::state::sources::Sources;
use mkpclient::state::ui::Screen;

const PLAY_PAUSE: u32 = 1;
const MOVE_UP: u32 = 2;

fn table() -> Keybindings {
    Keybindings {
        contexts: vec![
            ContextKeys {
                actions: vec![
                    ActionKeys { action: PLAY_PAUSE, keys: vec![KeyChord::char(' ')], defaults: vec![KeyChord::char(' ')] },
                    ActionKeys { action: MOVE_UP, keys: vec![KeyChord::char('k')], defaults: vec![KeyChord::char('k')] },
                ],
            },
            ContextKeys {
                actions: vec![ActionKeys { action: 9, keys: vec![KeyChord::char('q')], defaults: vec![KeyChord::char('q')] }],
            },
        ],
    }
}

fn loaded() -> Sources {
    let mut s = Sources::new(0, false);
    s.keybindings = table();
    s
}

fn draft(s: &Sources) -> &Keybindings {
    match &s.screen {
        Screen::KeybindingsEditor(st) => &st.draft,
        _ => panic!("editor not open"),
    }
}

#[test]
fn keybindings_editor_edits_draft_without_changing_active_bindings() {
    let mut sources = loaded();
    sources.screen = Screen::HelpOverlay { scroll: 0 };
    open_keybindings_editor(&mut sources);
    keybindings_editor_type(&mut sources, 'l');
    keybindings_editor_select(&mut sources, PLAY_PAUSE);
    keybindings_editor_bind(&mut sources, KeyChord::char('v'));
    assert_eq!(draft(&sources).keys_at(0, 0), vec![KeyChord::char('v')]);
    assert_ne!(sources.keybindings.keys_at(0, 0), vec![KeyChord::char('v')]);
}

#[test]
fn closing_editor_discards_unsaved_draft() {
    let mut sources = loaded();
    sources.screen = Screen::HelpOverlay { scroll: 7 };
    open_keybindings_editor(&mut sources);
    if let Screen::KeybindingsEditor(state) = &mut sources.screen {
        state.draft.replace_at(0, 0, KeyChord::char('p'));
    }
    close_keybindings_editor(&mut sources);
    assert_eq!(sources.keybindings.keys_at(0, 0), vec![KeyChord::char(' ')]);
    assert!(matches!(sources.screen, Screen::HelpOverlay { scroll: 7 }));
}

#[test]
fn editor_does_not_open_before_keybindings_finish_loading() {
    let mut sources = loaded();
    sources.screen = Screen::HelpOverlay { scroll: 4 };
    sources.persist.loads_in_flight.insert(LoadKey::Keybindings);
    open_keybindings_editor(&mut sources);
    assert!(matches!(sources.screen, Screen::HelpOverlay { scroll: 4 }));
    assert_eq!(sources.toast.message.as_deref(), Some("Keybindings are still loading"));
}

#[test]
fn save_ack_activates_bindings_and_reports_success() {
    let mut sources = loaded();
    let mut saved = table();
    saved.replace_at(0, 0, KeyChord::char('p'));
    ingest_persist(&mut sources, PersistEvent::KeybindingsSaved { keybindings: saved });
    assert_eq!(sources.keybindings.keys_at(0, 0), vec![KeyChord::char('p')]);
    assert_eq!(sources.toast.message.as_deref(), Some("Keybindings saved"));
}

#[test]
fn save_failure_keeps_active_bindings_and_reports_failure() {
    let mut sources = loaded();
    ingest_persist(
        &mut sources,
        PersistEvent::SaveFailed { op: "save_keybindings".to_string(), err: "disk full".to_string() },
    );
    assert_eq!(sources.keybindings.keys_at(0, 0), vec![KeyChord::char(' ')]);
    assert_eq!(sources.toast.message.as_deref(), Some("Failed to save keybindings"));
}

#[test]
fn other_save_failures_show_nothing() {
    let mut sources = loaded();
    ingest_persist(&mut sources, PersistEvent::SaveFailed { op: "save_view".to_string(), err: "x".to_string() });
    assert_eq!(sources.toast.message, None);
}

#[test]
fn a_loaded_table_becomes_active_and_ends_the_load() {
    let mut sources = Sources::new(0, false);
    sources.persist.loads_in_flight.insert(LoadKey::Keybindings);
    ingest_persist(&mut sources, PersistEvent::KeybindingsLoaded { keybindings: table() });
    assert!(!sources.persist.is_loading(&LoadKey::Keybindings));
    assert_eq!(sources.keybindings.n_contexts(), 2);
}

#[test]
fn editor_keys_move_between_contexts_and_actions() {
    let mut sources = loaded();
    sources.screen = Screen::HelpOverlay { scroll: 0 };
    open_keybindings_editor(&mut sources);
    let sel = |s: &Sources| match &s.screen {
        Screen::KeybindingsEditor(st) => (st.selected_context, st.selected_binding, st.focus_right),
        _ => panic!(),
    };
    keybindings_editor_type(&mut sources, 'j');
    assert_eq!(sel(&sources), (1, 0, false));
    keybindings_editor_type(&mut sources, 'j');
    assert_eq!(sel(&sources), (1, 0, false));
    keybindings_editor_type(&mut sources, 'k');
    keybindings_editor_type(&mut sources, 'l');
    keybindings_editor_type(&mut sources, 'G');
    assert_eq!(sel(&sources), (0, 1, true));
    keybindings_editor_type(&mut sources, 'j');
    assert_eq!(sel(&sources), (0, 1, true));
    keybindings_editor_type(&mut sources, 'g');
    assert_eq!(sel(&sources), (0, 0, true));
    keybindings_editor_type(&mut sources, 'a');
    keybindings_editor_bind(&mut sources, KeyChord::char('x'));
    assert_eq!(draft(&sources).keys_at(0, 0), vec![KeyChord::char(' '), KeyChord::char('x')]);
    keybindings_editor_type(&mut sources, 'd');
    assert_eq!(draft(&sources).keys_at(0, 0), vec![KeyChord::char(' ')]);
}

#[test]
fn saving_ships_the_draft_to_the_persist_driver() {
    let mut sources = loaded();
    assert!(keybindings_editor_save(&sources).is_none());
    sources.screen = Screen::HelpOverlay { scroll: 0 };
    open_keybindings_editor(&mut sources);
    keybindings_editor_type(&mut sources, 'l');
    keybindings_editor_bind(&mut sources, KeyChord::char('z'));
    match keybindings_editor_save(&sources) {
        Some(PersistCmd::SaveKeybindings { keybindings }) => assert_eq!(keybindings.keys_at(0, 0), vec![KeyChord::char('z')]),
        _ => panic!("expected a save"),
    }
}

#[test]
fn stored_keys_are_laid_over_the_shipped_table() {
    let defaults = table();
    let stored = Keybindings {
        contexts: vec![ContextKeys {
            actions: vec![
                ActionKeys { action: MOVE_UP, keys: vec![KeyChord::char('w')], defaults: vec![KeyChord::char('k')] },
                ActionKeys { action: 77, keys: vec![KeyChord::char('z')], defaults: vec![] },
            ],
        }],
    };
    let m = Keybindings::merged(&defaults, &stored);
    assert_eq!(m.n_contexts(), 2);
    assert_eq!(m.n_actions(0), 2);
    assert_eq!(m.action_at(0, 0), Some(PLAY_PAUSE));
    assert_eq!(m.keys_at(0, 0), vec![KeyChord::char(' ')]);
    assert_eq!(m.keys_at(0, 1), vec![KeyChord::char('w')]);
    assert_eq!(m.position_of(0, 77), None);
    assert_eq!(m.keys_at(1, 0), vec![KeyChord::char('q')]);
}
