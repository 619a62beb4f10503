use quorp_tui::attention::{AttentionLease, LeaseSeverity};
use quorp_tui::bridge::{crossterm_key_event_to_keystroke, TuiKeyModifiers};
use quorp_tui::keys::{KeyCodeInput, KeyInput, KeyMods, KeyPhase};

fn key(code: KeyCodeInput, control: bool, alt: bool, shift: bool) -> KeyInput {
    KeyInput::new(code, KeyMods { shift, control, alt, other: false })
}

#[test]
fn keystrokes_name_their_keys() {
    let stroke = crossterm_key_event_to_keystroke(&key(KeyCodeInput::Char('A'), false, false, false))
        .expect("named key");
    assert_eq!(stroke.key, "a");
    assert_eq!(stroke.modifiers, TuiKeyModifiers { control: false, alt: false, shift: true });
    let stroke = crossterm_key_event_to_keystroke(&key(KeyCodeInput::Char(' '), true, false, false))
        .expect("space");
    assert_eq!(stroke.key, "space");
    assert!(stroke.modifiers.control);
    let stroke = crossterm_key_event_to_keystroke(&key(KeyCodeInput::BackTab, false, false, false))
        .expect("backtab");
    assert_eq!(stroke.key, "tab");
    assert!(stroke.modifiers.shift);
    let stroke = crossterm_key_event_to_keystroke(&key(KeyCodeInput::F(12), false, true, false))
        .expect("function key");
    assert_eq!(stroke.key, "f12");
    assert!(stroke.modifiers.alt);
    assert_eq!(
        crossterm_key_event_to_keystroke(&key(KeyCodeInput::Esc, false, false, false)).unwrap().key,
        "escape"
    );
    assert_eq!(
        crossterm_key_event_to_keystroke(&key(KeyCodeInput::PageDown, false, false, false)).unwrap().key,
        "pagedown"
    );
}

#[test]
fn released_and_unnamed_keys_send_nothing() {
    let released = KeyInput { code: KeyCodeInput::Enter, modifiers: KeyMods::none(), phase: KeyPhase::Release };
    assert!(crossterm_key_event_to_keystroke(&released).is_none());
    assert!(crossterm_key_event_to_keystroke(&key(KeyCodeInput::Null, false, false, false)).is_none());
    assert!(crossterm_key_event_to_keystroke(&key(KeyCodeInput::Other, false, false, false)).is_none());
    let repeat = KeyInput { code: KeyCodeInput::Enter, modifiers: KeyMods::none(), phase: KeyPhase::Repeat };
    assert_eq!(crossterm_key_event_to_keystroke(&repeat).unwrap().key, "enter");
}

#[test]
fn attention_lease_offers_three_options() {
    let lease = AttentionLease::new("Apply patch?".to_string(), "Touches 3 files".to_string(), LeaseSeverity::Warning);
    assert_eq!(lease.options, vec!["Accept".to_string(), "Reject".to_string(), "Modify".to_string()]);
    assert_eq!(lease.severity, LeaseSeverity::Warning);
    assert_eq!(
        lease.render_text(),
        vec![
            "ATTENTION LEASE".to_string(),
            "? Apply patch?".to_string(),
            "│ Touches 3 files".to_string(),
            "├─ OPTIONS".to_string(),
            "│ [1] Accept".to_string(),
            "│ [2] Reject".to_string(),
            "│ [3] Modify".to_string(),
            "└────────────".to_string(),
        ]
    );
}
