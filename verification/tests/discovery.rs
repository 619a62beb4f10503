use quorp_tui::action_discovery::{
    filter_action_deck_entries, ActionDeckCommand, ActionDiscoveryModel, CommandDeckEntry,
    ModelsPaneEntry, OverlayTextInput,
};
use quorp_tui::keys::{KeyCodeInput, KeyInput, KeyMods};
use quorp_tui::panes::LeafId;
use std::path::PathBuf;

fn mods(shift: bool, control: bool, alt: bool) -> KeyMods {
    KeyMods { shift, control, alt, other: false }
}

#[test]
fn overlay_titles() {
    assert_eq!(ActionDiscoveryModel::overlay_title(), "Keybindings");
    assert_eq!(ActionDiscoveryModel::quick_open_title(), "Quick Open");
    assert_eq!(ActionDiscoveryModel::new_thread_title(), "New Thread");
    assert_eq!(ActionDiscoveryModel::model_picker_title(), "Model Selector");
    assert_eq!(ActionDiscoveryModel::slash_command_title(), "Slash Commands");
    assert_eq!(ActionDiscoveryModel::action_deck_title(), "Control Deck");
}

#[test]
fn text_overlay_keys() {
    let key = |code, m| KeyInput::new(code, m);
    let none = mods(false, false, false);
    assert_eq!(ActionDiscoveryModel::parse_text_overlay_input(&key(KeyCodeInput::Esc, none)), OverlayTextInput::Close);
    assert_eq!(ActionDiscoveryModel::parse_text_overlay_input(&key(KeyCodeInput::Up, none)), OverlayTextInput::MoveUp);
    assert_eq!(ActionDiscoveryModel::parse_text_overlay_input(&key(KeyCodeInput::Down, none)), OverlayTextInput::MoveDown);
    assert_eq!(ActionDiscoveryModel::parse_text_overlay_input(&key(KeyCodeInput::Enter, none)), OverlayTextInput::Confirm);
    assert_eq!(ActionDiscoveryModel::parse_text_overlay_input(&key(KeyCodeInput::Backspace, none)), OverlayTextInput::Backspace);
    assert_eq!(ActionDiscoveryModel::parse_text_overlay_input(&key(KeyCodeInput::Char('q'), none)), OverlayTextInput::InsertChar('q'));
    assert_eq!(ActionDiscoveryModel::parse_text_overlay_input(&key(KeyCodeInput::Char('q'), mods(false, true, false))), OverlayTextInput::Ignore);
    assert_eq!(ActionDiscoveryModel::parse_text_overlay_input(&key(KeyCodeInput::Esc, mods(true, false, false))), OverlayTextInput::Ignore);
    assert_eq!(ActionDiscoveryModel::parse_text_overlay_input(&key(KeyCodeInput::Enter, mods(false, false, true))), OverlayTextInput::Ignore);
    assert_eq!(ActionDiscoveryModel::parse_text_overlay_input(&key(KeyCodeInput::Backspace, mods(false, true, false))), OverlayTextInput::Backspace);
    assert_eq!(ActionDiscoveryModel::parse_text_overlay_input(&key(KeyCodeInput::Tab, none)), OverlayTextInput::Ignore);
}

#[test]
fn context_hints_by_pane_and_layout() {
    assert_eq!(
        ActionDiscoveryModel::context_hint(LeafId(0), false),
        "Enter open  Tab next focus  Alt+2 preview  Ctrl+b hide files  ? help"
    );
    assert_eq!(
        ActionDiscoveryModel::context_hint(LeafId(3), false),
        "Enter send  PgUp/PgDn results  Alt+a/p/x mode  Ctrl+t new chat  Ctrl+m models"
    );
    assert_eq!(
        ActionDiscoveryModel::context_hint(LeafId(3), true),
        "Enter send  PgUp/PgDn results  Alt+a/p/x mode  Ctrl+t new chat  Esc close overlay"
    );
    assert_eq!(ActionDiscoveryModel::context_hint(LeafId(2), true), "Terminal");
    assert_eq!(
        ActionDiscoveryModel::context_hint(LeafId(42), false),
        "Tab next focus  Alt+1..4 jump  Ctrl+b files  Ctrl+` terminal  ? help"
    );
}

#[test]
fn help_overlay_lists_popup_bindings() {
    let lines = ActionDiscoveryModel::shell_overlay_lines();
    assert_eq!(lines.len(), 7);
    assert_eq!(lines[0], "Tab / Shift+Tab      cycle focus islands");
    assert_eq!(lines[6], "/                    workflow deck (empty composer)");
    let overlay = ActionDiscoveryModel::help_overlay_snapshot();
    assert_eq!(overlay.title, "Keybindings");
    assert_eq!(overlay.lines, lines.iter().map(|line| line.to_string()).collect::<Vec<_>>());
    assert_eq!(ActionDiscoveryModel::help_hint(true), "Press ? or Esc to close help");
    assert_eq!(ActionDiscoveryModel::help_hint(false), "Press ? for help");
}

#[test]
fn action_deck_filter_is_case_insensitive() {
    let all = filter_action_deck_entries("   ");
    assert_eq!(all.len(), 17);
    let hits = filter_action_deck_entries("  WATCHPOINT ");
    assert_eq!(hits.len(), 4);
    assert!(hits.iter().all(|entry| matches!(entry.command, ActionDeckCommand::AddWatchpoint(_))));
    let rollback = filter_action_deck_entries("rollback");
    let labels: Vec<&str> = rollback.iter().map(|entry| entry.label).collect();
    assert_eq!(labels, vec!["Diff Lens", "Trace Lens"]);
    assert!(filter_action_deck_entries("no such action").is_empty());
}

#[test]
fn quick_open_lines_mark_selection() {
    let matches = vec![
        ("src/main.rs".to_string(), PathBuf::from("/p/src/main.rs")),
        ("README.md".to_string(), PathBuf::from("/p/README.md")),
    ];
    assert_eq!(
        ActionDiscoveryModel::quick_open_overlay_lines("ma", &matches, 1),
        vec!["Search: ma".to_string(), "  src/main.rs".to_string(), "> README.md".to_string()]
    );
    assert_eq!(
        ActionDiscoveryModel::quick_open_overlay_lines("zz", &[], 0),
        vec!["Search: zz".to_string(), "No files match the current query.".to_string()]
    );
    let overlay = ActionDiscoveryModel::quick_open_overlay_snapshot("ma", &matches, 0);
    assert_eq!(overlay.title, "Quick Open");
    assert_eq!(overlay.lines[1], "> src/main.rs");
}

#[test]
fn new_thread_lines_mark_selection() {
    let matches = vec![("alpha".to_string(), PathBuf::from("/alpha"))];
    let overlay = ActionDiscoveryModel::new_thread_overlay_snapshot("al", &matches, 0);
    assert_eq!(overlay.title, "New Thread");
    assert_eq!(
        overlay.lines,
        vec![
            "Type folder name and use ↑/↓ to select. Enter to open. Esc to cancel.".to_string(),
            "Query: al".to_string(),
            "▸ alpha".to_string(),
        ]
    );
}

#[test]
fn slash_command_lines() {
    let entries = vec![CommandDeckEntry {
        label: "/agent".to_string(),
        safety_mode: "act".to_string(),
        target_scope: "workspace".to_string(),
        expected_outcome: "autonomous run".to_string(),
    }];
    let overlay = ActionDiscoveryModel::slash_command_overlay_snapshot("ag", &entries, 0);
    assert_eq!(overlay.title, "Slash Commands");
    assert_eq!(
        overlay.lines,
        vec![
            "Type to filter. Enter inserts the command. Esc closes the deck.".to_string(),
            "Query: /ag".to_string(),
            "▸ /agent  act  ·  workspace  ·  autonomous run".to_string(),
        ]
    );
    let empty = ActionDiscoveryModel::slash_command_overlay_lines("x", &[], 0);
    assert_eq!(empty[2], "No slash commands match the current query.");
}

#[test]
fn action_deck_lines() {
    let entries = filter_action_deck_entries("timeline");
    let lines = ActionDiscoveryModel::action_deck_overlay_lines("timeline", &entries, 3);
    assert_eq!(
        lines,
        vec![
            "Type to filter. Enter executes the action. Esc closes the deck.".to_string(),
            "Query: timeline".to_string(),
            "  Timeline  Scrub checkpoints, stop reason, and exported artifacts.".to_string(),
        ]
    );
    let snapshot = ActionDiscoveryModel::action_deck_overlay_snapshot("q", &[], 0);
    assert_eq!(snapshot.title, "Control Deck");
    assert_eq!(snapshot.lines[2], "No control deck actions match the current query.");
}

#[test]
fn model_picker_marks_selected_model() {
    let entries = vec![
        ModelsPaneEntry { title: "Qwen".to_string(), subtitle: "local".to_string() },
        ModelsPaneEntry { title: "GPT".to_string(), subtitle: "remote".to_string() },
    ];
    let overlay = ActionDiscoveryModel::model_picker_overlay_snapshot(&entries, 1);
    assert_eq!(overlay.title, "Model Selector");
    assert_eq!(overlay.lines, vec!["  Qwen  local".to_string(), "> GPT  remote".to_string()]);
}
