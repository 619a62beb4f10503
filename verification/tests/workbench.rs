use quorp_tui::feed::FeedScroll;
use quorp_tui::focus::{bootstrap_key_flow, FocusState, KeyFlow, TerminalEffect};
use quorp_tui::keys::{KeyCodeInput, KeyInput, KeyMods, KeyPhase};
use quorp_tui::overlay::{
    apply_text_overlay_backspace, handle_overlay_key_event, move_overlay_selection_index,
    OverlayKeyOutcome, TextOverlayState,
};
use quorp_tui::panes::{LeafId, Overlay};
use quorp_tui::status::{
    indexing_status_suffix, shell_control_hint, shell_experience_mode, status_bar_text,
    ShellExperienceMode,
};
use quorp_tui::action_discovery::RailMode;

fn mods(shift: bool, control: bool, alt: bool) -> KeyMods {
    KeyMods { shift, control, alt, other: false }
}

fn press(code: KeyCodeInput) -> KeyInput {
    KeyInput::new(code, KeyMods::none())
}

fn ctrl(code: KeyCodeInput) -> KeyInput {
    KeyInput::new(code, mods(false, true, false))
}

fn focus_state(focused: usize) -> FocusState {
    FocusState {
        focused: LeafId(focused),
        tab_strip_focus: None,
        compact_ui: false,
        last_left_pane: LeafId(1),
        right_pane: LeafId(3),
        overlay: Overlay::Closed,
        explorer_collapsed: false,
        terminal_dock_open: false,
    }
}

#[test]
fn selection_moves_within_list() {
    let mut index = 0;
    assert!(!move_overlay_selection_index(&mut index, 3, -1));
    assert!(move_overlay_selection_index(&mut index, 3, 1));
    assert!(move_overlay_selection_index(&mut index, 3, 1));
    assert_eq!(index, 2);
    assert!(!move_overlay_selection_index(&mut index, 3, 1));
    assert!(move_overlay_selection_index(&mut index, 3, -1));
    assert_eq!(index, 1);
    assert!(!move_overlay_selection_index(&mut index, 3, 2));
    let mut empty = 0;
    assert!(!move_overlay_selection_index(&mut empty, 0, 1));
}

#[test]
fn backspace_edits_overlay_query() {
    let mut query = "abc".to_string();
    assert!(apply_text_overlay_backspace(&mut query, &press(KeyCodeInput::Backspace), true));
    assert_eq!(query, "ab");
    assert!(apply_text_overlay_backspace(&mut query, &ctrl(KeyCodeInput::Backspace), false));
    assert_eq!(query, "a");
    assert!(apply_text_overlay_backspace(&mut query, &ctrl(KeyCodeInput::Backspace), true));
    assert_eq!(query, "");
    assert!(!apply_text_overlay_backspace(&mut query, &press(KeyCodeInput::Backspace), true));
}

#[test]
fn overlay_keys_by_overlay() {
    let mut state = TextOverlayState { query: "ma".to_string(), selected_index: 0 };
    assert_eq!(handle_overlay_key_event(Overlay::Closed, &press(KeyCodeInput::Esc), &mut state, 2), OverlayKeyOutcome::NotHandled);
    assert_eq!(handle_overlay_key_event(Overlay::Help, &press(KeyCodeInput::Char('?')), &mut state, 2), OverlayKeyOutcome::Close);
    assert_eq!(handle_overlay_key_event(Overlay::Help, &press(KeyCodeInput::Char('x')), &mut state, 2), OverlayKeyOutcome::Handled);
    assert_eq!(handle_overlay_key_event(Overlay::Explorer, &ctrl(KeyCodeInput::Char('b')), &mut state, 2), OverlayKeyOutcome::Close);
    assert_eq!(handle_overlay_key_event(Overlay::Explorer, &press(KeyCodeInput::Char('b')), &mut state, 2), OverlayKeyOutcome::NotHandled);
    assert_eq!(handle_overlay_key_event(Overlay::ModelPicker, &press(KeyCodeInput::Char('j')), &mut state, 2), OverlayKeyOutcome::ModelDown);
    assert_eq!(handle_overlay_key_event(Overlay::ModelPicker, &press(KeyCodeInput::Enter), &mut state, 2), OverlayKeyOutcome::ModelConfirm);
    assert_eq!(handle_overlay_key_event(Overlay::QuickOpen, &press(KeyCodeInput::Down), &mut state, 2), OverlayKeyOutcome::SelectionMoved);
    assert_eq!(state.selected_index, 1);
    assert_eq!(handle_overlay_key_event(Overlay::QuickOpen, &press(KeyCodeInput::Down), &mut state, 2), OverlayKeyOutcome::Handled);
    assert_eq!(handle_overlay_key_event(Overlay::QuickOpen, &press(KeyCodeInput::Char('i')), &mut state, 2), OverlayKeyOutcome::QueryChanged);
    assert_eq!(state.query, "mai");
    assert_eq!(handle_overlay_key_event(Overlay::ActionDeck, &press(KeyCodeInput::Enter), &mut state, 2), OverlayKeyOutcome::Confirm);
    assert_eq!(handle_overlay_key_event(Overlay::NewThreadPrompt, &press(KeyCodeInput::Esc), &mut state, 2), OverlayKeyOutcome::CloseNewThread);
    assert_eq!(handle_overlay_key_event(Overlay::NewThreadPrompt, &ctrl(KeyCodeInput::Backspace), &mut state, 2), OverlayKeyOutcome::QueryChanged);
    assert_eq!(state.query, "");
    assert_eq!(handle_overlay_key_event(Overlay::SlashCommandDeck, &KeyInput::new(KeyCodeInput::Enter, mods(true, false, false)), &mut state, 2), OverlayKeyOutcome::Handled);
}

#[test]
fn bootstrap_keys() {
    assert_eq!(bootstrap_key_flow(&press(KeyCodeInput::Char('q'))), KeyFlow::Break);
    assert_eq!(bootstrap_key_flow(&press(KeyCodeInput::Esc)), KeyFlow::Break);
    assert_eq!(bootstrap_key_flow(&ctrl(KeyCodeInput::Char('c'))), KeyFlow::Break);
    assert_eq!(bootstrap_key_flow(&press(KeyCodeInput::Char('c'))), KeyFlow::Continue);
    let released = KeyInput { code: KeyCodeInput::Char('q'), modifiers: KeyMods::none(), phase: KeyPhase::Release };
    assert_eq!(bootstrap_key_flow(&released), KeyFlow::Continue);
}

#[test]
fn ctrl_l_from_file_tree_returns_to_last_left() {
    let mut state = focus_state(0);
    state.last_left_pane = LeafId(3);
    assert!(state.try_handle_vim_pane_navigation(&ctrl(KeyCodeInput::Char('l'))).is_some());
    assert_eq!(state.focused, LeafId(3));
}

#[test]
fn ctrl_h_navigates_from_editor_pane_to_file_tree() {
    let mut state = focus_state(1);
    assert!(state.try_handle_vim_pane_navigation(&ctrl(KeyCodeInput::Char('h'))).is_some());
    assert_eq!(state.focused, LeafId(0));
}

#[test]
fn vi_navigation_ctrl_j_moves_down_left_column() {
    let mut state = focus_state(1);
    state.last_left_pane = LeafId(1);
    assert!(state.try_handle_vim_pane_navigation(&ctrl(KeyCodeInput::Char('j'))).is_some());
    assert_eq!(state.focused, LeafId(2));
    state.focused = LeafId(3);
    assert!(state.try_handle_vim_pane_navigation(&ctrl(KeyCodeInput::Char('j'))).is_some());
    assert_eq!(state.focused, LeafId(3));
}

#[test]
fn ctrl_h_then_ctrl_l_returns_to_terminal() {
    let mut state = focus_state(2);
    let effect = state.try_handle_vim_pane_navigation(&ctrl(KeyCodeInput::Char('h'))).expect("handled");
    assert_eq!(state.focused, LeafId(0));
    assert_eq!(effect.focus_notice, Some(false));
    state.try_handle_vim_pane_navigation(&ctrl(KeyCodeInput::Char('l')));
    assert_eq!(state.focused, LeafId(2));
}

#[test]
fn vim_navigation_moves_between_panes() {
    let mut state = focus_state(1);
    let effect = state.try_handle_vim_pane_navigation(&ctrl(KeyCodeInput::Char('j'))).expect("handled");
    assert_eq!(state.focused, LeafId(2));
    assert_eq!(effect, TerminalEffect { enter_capture: true, enter_navigation: false, focus_notice: Some(true) });
    state.try_handle_vim_pane_navigation(&ctrl(KeyCodeInput::Down));
    assert_eq!(state.focused, LeafId(3));
    state.try_handle_vim_pane_navigation(&ctrl(KeyCodeInput::Char('K')));
    assert_eq!(state.focused, LeafId(2));
    assert!(state.try_handle_vim_pane_navigation(&press(KeyCodeInput::Char('k'))).is_none());
    let mut files = focus_state(0);
    assert_eq!(files.try_handle_vim_pane_navigation(&ctrl(KeyCodeInput::Char('h'))), Some(TerminalEffect { enter_capture: false, enter_navigation: false, focus_notice: None }));
    assert_eq!(files.focused, LeafId(0));
}

#[test]
fn tab_and_backtab_move_focus() {
    let mut state = focus_state(3);
    state.cycle_focus_with_tab(&press(KeyCodeInput::Tab));
    assert_eq!(state.focused, LeafId(0));
    state.cycle_focus_with_tab(&press(KeyCodeInput::BackTab));
    assert_eq!(state.focused, LeafId(3));
    state.cycle_focus_with_tab(&KeyInput::new(KeyCodeInput::Tab, mods(true, false, false)));
    assert_eq!(state.focused, LeafId(2));
    state.tab_strip_focus = Some(LeafId(2));
    state.cycle_focus_with_tab(&press(KeyCodeInput::Tab));
    assert_eq!(state.focused, LeafId(2));
    assert!(state.cycle_focus_with_tab(&press(KeyCodeInput::Enter)).is_none());
}

#[test]
fn alt_digits_jump_and_toggles() {
    let mut state = focus_state(3);
    state.compact_ui = true;
    state.jump_with_alt('1');
    assert_eq!(state.focused, LeafId(0));
    assert_eq!(state.overlay, Overlay::Explorer);
    state.jump_with_alt('4');
    assert_eq!(state.focused, LeafId(2));
    assert!(state.terminal_dock_open);
    assert_eq!(state.overlay, Overlay::Closed);
    assert!(state.jump_with_alt('9').is_none());
    let mut wide = focus_state(0);
    wide.toggle_explorer();
    assert!(wide.explorer_collapsed);
    assert_eq!(wide.focused, LeafId(1));
    let mut dock = focus_state(1);
    dock.toggle_terminal_dock(false);
    assert!(dock.terminal_dock_open);
    assert_eq!(dock.focused, LeafId(2));
    let effect = dock.toggle_terminal_dock(true);
    assert!(!dock.terminal_dock_open);
    assert!(effect.enter_navigation);
    assert_eq!(dock.focused, LeafId(1));
}

#[test]
fn compact_layout_shows_agent_as_assistant() {
    let mut state = focus_state(1);
    state.compact_ui = true;
    state.set_focus(LeafId(4));
    assert_eq!(state.focused, LeafId(3));
}

#[test]
fn escape_releases_tab_strip_then_quits() {
    let mut state = focus_state(1);
    state.tab_strip_focus = Some(LeafId(1));
    assert_eq!(state.escape(false, false), (KeyFlow::Continue, false));
    assert!(state.tab_strip_focus.is_none());
    assert_eq!(state.escape(true, false), (KeyFlow::Continue, true));
    assert_eq!(state.escape(true, true), (KeyFlow::Break, false));
    assert_eq!(state.escape(false, false), (KeyFlow::Break, false));
}

#[test]
fn feed_scrolling() {
    let mut feed = FeedScroll { scroll_top: 0, follow_latest: false, total_lines: 100, viewport_lines: 10 };
    assert_eq!(feed.max_scroll(), 90);
    assert_eq!(feed.page_step(), 9);
    assert_eq!(feed.line_step(), 3);
    feed.page_down();
    assert_eq!(feed.scroll_top, 9);
    feed.scroll_down_lines(100);
    assert_eq!(feed.scroll_top, 90);
    assert!(feed.follow_latest);
    feed.page_up();
    assert_eq!(feed.scroll_top, 81);
    assert!(!feed.follow_latest);
    feed.scroll_up_lines(1000);
    assert_eq!(feed.scroll_top, 0);
    feed.jump_to_scrollbar_row(15, 10, 10);
    assert_eq!(feed.scroll_top, 45);
    assert!(!feed.follow_latest);
    feed.scroll_to_bottom();
    assert_eq!(feed.scroll_top, 90);
    let mut short = FeedScroll { scroll_top: 5, follow_latest: false, total_lines: 3, viewport_lines: 10 };
    short.clamp();
    assert_eq!(short.scroll_top, 0);
}

#[test]
fn status_line_and_hints() {
    assert_eq!(
        status_bar_text(LeafId(3), "qwen", "src/main.rs", Overlay::Closed),
        "Mode: Assistant | Model: qwen | Path: src/main.rs | Press ? for help"
    );
    assert_eq!(
        status_bar_text(LeafId(1), "m", "p", Overlay::Help),
        "Mode: Preview | Model: m | Path: p | Press ? or Esc to close help"
    );
    assert_eq!(shell_experience_mode(true, true, None), ShellExperienceMode::LegacyWorkbench);
    assert_eq!(shell_experience_mode(false, true, None), ShellExperienceMode::Bootstrap);
    assert_eq!(shell_experience_mode(false, false, Some(RailMode::TraceLens)), ShellExperienceMode::TraceLens);
    assert_eq!(shell_experience_mode(false, false, Some(RailMode::MemoryViewport)), ShellExperienceMode::CommandCenter);
    assert_eq!(
        shell_control_hint(ShellExperienceMode::Timeline, LeafId(3), false),
        "/ workflow deck  ·  Ctrl+k control deck  ·  Alt+↓ target  Alt+Enter open  D diff lens  ·  . jump live  [ / ] scrub replay"
    );
    assert!(shell_control_hint(ShellExperienceMode::LegacyWorkbench, LeafId(2), false).ends_with("  ·  Terminal"));
    assert_eq!(indexing_status_suffix(false, 5, 0), None);
    assert_eq!(indexing_status_suffix(true, 512, 1), Some("Idx/ 512".to_string()));
    assert_eq!(indexing_status_suffix(true, 12345, 7), Some("Idx\\ 12k".to_string()));
}
