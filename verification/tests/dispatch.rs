use quorp_tui::action_discovery::RailMode;
use quorp_tui::dispatch::{KeyContext, KeyHandler, KeyStage, KeyStep, PasteTarget, TabCommand, WorkbenchAction};
use quorp_tui::focus::{FocusState, KeyFlow, TerminalEffect};
use quorp_tui::keys::{KeyCodeInput, KeyInput, KeyMods, KeyPhase};
use quorp_tui::chat::cycle_index;
use quorp_tui::composer::ComposerOutcome;
use quorp_tui::panes::{LeafId, Overlay};
use quorp_tui::thread::ChatSession;

/// A workbench whose parts decline every key offered to them, but for the handlers
/// listed in `taking`; the terminal follows the capture and navigation effects.
struct Bench {
    focus: FocusState,
    ctx: KeyContext,
    taking: Vec<KeyHandler>,
    offers: Vec<KeyHandler>,
    actions: Vec<WorkbenchAction>,
}

fn bench(focused: usize) -> Bench {
    Bench {
        focus: FocusState {
            focused: LeafId(focused),
            tab_strip_focus: None,
            compact_ui: false,
            last_left_pane: LeafId(1),
            right_pane: LeafId(3),
            overlay: Overlay::Closed,
            explorer_collapsed: false,
            terminal_dock_open: false,
        },
        ctx: KeyContext {
            bootstrap: false,
            terminal_capture: true,
            mention_popup_open: false,
            composer_empty: true,
            rail_override: false,
            legacy_workbench: false,
        },
        taking: Vec::new(),
        offers: Vec::new(),
        actions: Vec::new(),
    }
}

fn apply_effect(b: &mut Bench, effect: TerminalEffect) {
    if effect.enter_capture {
        b.ctx.terminal_capture = true;
    }
    if effect.enter_navigation {
        b.ctx.terminal_capture = false;
    }
}

fn send(b: &mut Bench, key: KeyInput) -> KeyFlow {
    let mut stage = KeyStage::Start;
    loop {
        match b.focus.step_key(&b.ctx, &key, stage) {
            KeyStep::Done { flow, effect } => {
                apply_effect(b, effect);
                return flow;
            }
            KeyStep::Act { action } => {
                b.actions.push(action);
                return KeyFlow::Continue;
            }
            KeyStep::Offer { handler, resume } => {
                b.offers.push(handler);
                if b.taking.contains(&handler) {
                    return KeyFlow::Continue;
                }
                stage = resume;
            }
        }
    }
}

fn mods(shift: bool, control: bool, alt: bool) -> KeyMods {
    KeyMods { shift, control, alt, other: false }
}

fn key(code: KeyCodeInput) -> KeyInput {
    KeyInput::new(code, KeyMods::none())
}

fn ctrl_char(c: char) -> KeyInput {
    KeyInput::new(KeyCodeInput::Char(c), mods(false, true, false))
}

#[test]
fn esc_quits_from_every_pane() {
    for pane in [1usize, 3, 0] {
        let mut b = bench(pane);
        assert_eq!(send(&mut b, key(KeyCodeInput::Esc)), KeyFlow::Break);
    }
}

#[test]
fn esc_stays_in_terminal_capture_mode() {
    let mut b = bench(2);
    b.ctx.terminal_capture = true;
    assert_eq!(send(&mut b, key(KeyCodeInput::Esc)), KeyFlow::Continue);
    assert_eq!(b.focus.focused, LeafId(2));
    assert!(b.ctx.terminal_capture);
}

#[test]
fn ctrl_c_quits_only_from_non_terminal_panes() {
    let mut b = bench(1);
    assert_eq!(send(&mut b, ctrl_char('c')), KeyFlow::Break);
    b.focus.focused = LeafId(2);
    assert_eq!(send(&mut b, ctrl_char('c')), KeyFlow::Continue);
}

#[test]
fn key_release_ignored() {
    let mut b = bench(3);
    let release = KeyInput { code: KeyCodeInput::Char('q'), modifiers: KeyMods::none(), phase: KeyPhase::Release };
    assert_eq!(send(&mut b, release), KeyFlow::Continue);
}

#[test]
fn q_does_not_quit_when_terminal_focused() {
    let mut b = bench(2);
    assert_eq!(send(&mut b, key(KeyCodeInput::Char('q'))), KeyFlow::Continue);
}

#[test]
fn shift_tab_moves_back() {
    let mut b = bench(3);
    let shift_tab = KeyInput::new(KeyCodeInput::Tab, mods(true, false, false));
    assert_eq!(send(&mut b, shift_tab), KeyFlow::Continue);
    assert_eq!(b.focus.focused, LeafId(2));
}

#[test]
fn tab_switches_pane_when_file_tree_focused() {
    let mut b = bench(0);
    assert_eq!(send(&mut b, key(KeyCodeInput::Tab)), KeyFlow::Continue);
    assert_eq!(b.focus.focused, LeafId(1));
}

#[test]
fn tab_still_moves_focus_when_chat_focused() {
    let mut b = bench(3);
    assert_eq!(send(&mut b, key(KeyCodeInput::Tab)), KeyFlow::Continue);
    assert_eq!(b.focus.focused, LeafId(0));
}

#[test]
fn handle_event_many_keys_no_panic_terminal_focus_unchanged() {
    let mut b = bench(2);
    for _ in 0..1000 {
        assert_eq!(send(&mut b, key(KeyCodeInput::Char('a'))), KeyFlow::Continue);
    }
    assert_eq!(b.focus.focused, LeafId(2));
}

#[test]
fn vi_navigation_escapes_terminal_pane() {
    let mut b = bench(2);
    b.ctx.terminal_capture = true;
    assert_eq!(send(&mut b, ctrl_char('g')), KeyFlow::Continue);
    assert_eq!(send(&mut b, ctrl_char('l')), KeyFlow::Continue);
    assert_eq!(b.focus.focused, LeafId(3));
}

#[test]
fn ctrl_j_escapes_terminal_pane() {
    let mut b = bench(2);
    b.focus.last_left_pane = LeafId(2);
    b.ctx.terminal_capture = true;
    assert_eq!(send(&mut b, ctrl_char('g')), KeyFlow::Continue);
    assert_eq!(send(&mut b, ctrl_char('j')), KeyFlow::Continue);
    assert_eq!(b.focus.focused, LeafId(3));
}

#[test]
fn ctrl_k_escapes_terminal_pane() {
    let mut b = bench(2);
    b.focus.last_left_pane = LeafId(2);
    b.ctx.terminal_capture = true;
    assert_eq!(send(&mut b, ctrl_char('g')), KeyFlow::Continue);
    assert_eq!(send(&mut b, ctrl_char('k')), KeyFlow::Continue);
    assert_eq!(b.focus.focused, LeafId(2));
    assert_eq!(b.focus.overlay, Overlay::ActionDeck);
}

#[test]
fn help_toggle_from_terminal() {
    let mut b = bench(2);
    assert_eq!(send(&mut b, key(KeyCodeInput::Char('?'))), KeyFlow::Continue);
    assert_eq!(b.focus.overlay, Overlay::Closed);
    assert_eq!(b.focus.focused, LeafId(2));
}

#[test]
fn help_toggle_from_terminal_navigation_mode() {
    let mut b = bench(2);
    b.ctx.terminal_capture = false;
    assert_eq!(send(&mut b, key(KeyCodeInput::Char('?'))), KeyFlow::Continue);
    assert_eq!(b.focus.overlay, Overlay::Help);
}

#[test]
fn help_toggle_from_chat() {
    let mut b = bench(3);
    assert_eq!(send(&mut b, key(KeyCodeInput::Char('?'))), KeyFlow::Continue);
    assert_eq!(b.focus.overlay, Overlay::Help);
}

#[test]
fn help_overlay_toggles_with_question_mark() {
    let mut b = bench(3);
    assert_eq!(send(&mut b, key(KeyCodeInput::Char('?'))), KeyFlow::Continue);
    assert_eq!(b.focus.overlay, Overlay::Help);
    assert_eq!(send(&mut b, key(KeyCodeInput::Char('?'))), KeyFlow::Continue);
    assert_eq!(b.focus.overlay, Overlay::Closed);
}

#[test]
fn bootstrap_screen_only_quits() {
    let mut b = bench(3);
    b.ctx.bootstrap = true;
    assert_eq!(send(&mut b, key(KeyCodeInput::Tab)), KeyFlow::Continue);
    assert_eq!(b.focus.focused, LeafId(3));
    assert_eq!(send(&mut b, key(KeyCodeInput::Char('q'))), KeyFlow::Break);
}

#[test]
fn keys_are_offered_in_order_until_taken() {
    let mut b = bench(1);
    b.ctx.terminal_capture = false;
    assert_eq!(send(&mut b, key(KeyCodeInput::Char('x'))), KeyFlow::Continue);
    assert_eq!(b.offers, vec![KeyHandler::Editor]);
    let mut b = bench(1);
    b.taking = vec![KeyHandler::DiffLens];
    assert_eq!(send(&mut b, key(KeyCodeInput::Char('d'))), KeyFlow::Continue);
    assert_eq!(b.offers, vec![KeyHandler::DiffLens]);
    let mut b = bench(1);
    assert_eq!(send(&mut b, key(KeyCodeInput::Char('d'))), KeyFlow::Continue);
    assert_eq!(b.actions, vec![WorkbenchAction::SetRailMode(RailMode::DiffReactor)]);
}

#[test]
fn overlays_and_actions_open_from_keys() {
    let mut b = bench(3);
    assert_eq!(send(&mut b, key(KeyCodeInput::Char('/'))), KeyFlow::Continue);
    assert_eq!(b.focus.overlay, Overlay::SlashCommandDeck);
    assert_eq!(b.actions, vec![WorkbenchAction::FillSlashCommands]);

    let mut b = bench(3);
    b.ctx.composer_empty = false;
    b.taking = vec![KeyHandler::Chat];
    assert_eq!(send(&mut b, key(KeyCodeInput::Char('/'))), KeyFlow::Continue);
    assert_eq!(b.focus.overlay, Overlay::Closed);
    assert_eq!(b.offers, vec![KeyHandler::Chat]);

    let mut b = bench(1);
    assert_eq!(send(&mut b, ctrl_char('m')), KeyFlow::Continue);
    assert_eq!(b.focus.overlay, Overlay::ModelPicker);
    assert_eq!(b.actions, vec![WorkbenchAction::FillModelPicker]);

    let mut b = bench(1);
    b.ctx.rail_override = true;
    assert_eq!(send(&mut b, key(KeyCodeInput::Esc)), KeyFlow::Continue);
    assert_eq!(b.actions, vec![WorkbenchAction::ClearRailMode]);

    let mut b = bench(3);
    let alt_down = KeyInput::new(KeyCodeInput::Down, mods(false, false, true));
    assert_eq!(send(&mut b, alt_down), KeyFlow::Continue);
    assert_eq!(b.actions, vec![WorkbenchAction::MoveEngageTarget { down: true }]);
}

#[test]
fn terminal_capture_follows_focus_and_enter() {
    let mut b = bench(1);
    b.ctx.terminal_capture = false;
    let alt_four = KeyInput::new(KeyCodeInput::Char('4'), mods(false, false, true));
    assert_eq!(send(&mut b, alt_four), KeyFlow::Continue);
    assert_eq!(b.focus.focused, LeafId(2));
    assert!(b.focus.terminal_dock_open);
    assert!(b.ctx.terminal_capture);

    assert_eq!(send(&mut b, ctrl_char('`')), KeyFlow::Continue);
    assert!(!b.focus.terminal_dock_open);
    assert_eq!(b.focus.focused, LeafId(1));
    assert!(!b.ctx.terminal_capture);

    let mut b = bench(2);
    b.ctx.terminal_capture = false;
    assert_eq!(send(&mut b, key(KeyCodeInput::Enter)), KeyFlow::Continue);
    assert!(b.ctx.terminal_capture);
}

#[test]
fn opened_file_focuses_the_preview() {
    let mut f = bench(0).focus;
    let ctx = bench(0).ctx;
    let step = f.step_key(&ctx, &key(KeyCodeInput::Enter), KeyStage::Start);
    assert_eq!(step, KeyStep::Offer { handler: KeyHandler::FileTree, resume: KeyStage::AfterFileTree });
    let step = f.step_key(&ctx, &key(KeyCodeInput::Enter), KeyStage::FileOpened);
    assert_eq!(f.focused, LeafId(1));
    assert_eq!(f.last_left_pane, LeafId(1));
    assert!(matches!(step, KeyStep::Done { flow: KeyFlow::Continue, .. }));
}

#[test]
fn focused_tab_strip_works_its_tabs() {
    let mut b = bench(3);
    b.focus.tab_strip_focus = Some(LeafId(3));
    assert_eq!(send(&mut b, key(KeyCodeInput::Right)), KeyFlow::Continue);
    assert_eq!(send(&mut b, ctrl_char('w')), KeyFlow::Continue);
    let ctrl_shift_w = KeyInput::new(KeyCodeInput::Char('w'), mods(true, true, false));
    assert_eq!(send(&mut b, ctrl_shift_w), KeyFlow::Continue);
    assert_eq!(send(&mut b, key(KeyCodeInput::Tab)), KeyFlow::Continue);
    assert_eq!(b.focus.focused, LeafId(3));
    assert_eq!(
        b.actions,
        vec![
            WorkbenchAction::TabStrip { leaf: LeafId(3), command: TabCommand::Cycle { forward: true } },
            WorkbenchAction::TabStrip { leaf: LeafId(3), command: TabCommand::CloseActive },
            WorkbenchAction::TabStrip { leaf: LeafId(3), command: TabCommand::CloseAll },
        ]
    );
    assert_eq!(send(&mut b, key(KeyCodeInput::Esc)), KeyFlow::Continue);
    assert_eq!(b.focus.tab_strip_focus, None);
    assert_eq!(send(&mut b, key(KeyCodeInput::Esc)), KeyFlow::Break);

    let mut b = bench(1);
    b.focus.tab_strip_focus = Some(LeafId(3));
    assert_eq!(send(&mut b, key(KeyCodeInput::Delete)), KeyFlow::Continue);
    assert_eq!(b.focus.tab_strip_focus, None);
    assert!(b.actions.is_empty());
    // With no popup open, `Alt+Up` moves the engage target; it reaches the tab strip
    // while the mention popup is open.
    let alt_up = KeyInput::new(KeyCodeInput::Up, mods(false, false, true));
    assert_eq!(send(&mut b, alt_up), KeyFlow::Continue);
    assert_eq!(b.actions, vec![WorkbenchAction::MoveEngageTarget { down: false }]);
    b.actions.clear();
    b.ctx.mention_popup_open = true;
    assert_eq!(send(&mut b, alt_up), KeyFlow::Continue);
    assert_eq!(b.focus.tab_strip_focus, Some(LeafId(1)));
    assert_eq!(send(&mut b, key(KeyCodeInput::Delete)), KeyFlow::Continue);
    assert_eq!(b.actions, vec![WorkbenchAction::TabStrip { leaf: LeafId(1), command: TabCommand::CloseActive }]);
}

#[test]
fn chat_bracket_cycles_model_without_changing_focus() {
    let mut b = bench(3);
    let mut session = ChatSession::new("Chat".to_string());
    let models = 3usize;
    let mut model_index = 0usize;
    let before = model_index;
    let bracket = key(KeyCodeInput::Char(']'));
    let mut stage = KeyStage::Start;
    let flow = loop {
        match b.focus.step_key(&b.ctx, &bracket, stage) {
            KeyStep::Done { flow, .. } => break flow,
            KeyStep::Act { .. } => break KeyFlow::Continue,
            KeyStep::Offer { handler, resume } => {
                if handler == KeyHandler::Chat {
                    let mut popup = None;
                    match session.handle_composer_key(&bracket, &mut popup, 10, 1) {
                        ComposerOutcome::NotHandled => {}
                        ComposerOutcome::NextModel => {
                            model_index = cycle_index(model_index, models, 1);
                            break KeyFlow::Continue;
                        }
                        ComposerOutcome::PreviousModel => {
                            model_index = cycle_index(model_index, models, -1);
                            break KeyFlow::Continue;
                        }
                        _ => break KeyFlow::Continue,
                    }
                }
                stage = resume;
            }
        }
    };
    assert_eq!(flow, KeyFlow::Continue);
    assert_ne!(model_index, before);
    assert_eq!(b.focus.focused, LeafId(3));
}

#[test]
fn pasted_text_goes_to_the_focused_pane() {
    let mut b = bench(2);
    assert_eq!(b.focus.paste_target(&b.ctx), PasteTarget::Terminal);
    b.ctx.terminal_capture = false;
    assert_eq!(b.focus.paste_target(&b.ctx), PasteTarget::Nowhere);
    let mut b = bench(2);
    b.focus.overlay = Overlay::QuickOpen;
    assert_eq!(b.focus.paste_target(&b.ctx), PasteTarget::Nowhere);
    let b = bench(3);
    assert_eq!(b.focus.paste_target(&b.ctx), PasteTarget::Composer);
    let b = bench(1);
    assert_eq!(b.focus.paste_target(&b.ctx), PasteTarget::Nowhere);
}
