//! Where a key pressed in the workbench goes. The workbench offers a key to its handlers
//! in a fixed order; between the offers it acts on the global keys itself. A key is
//! worked through in steps: each step either finishes the key, asks the caller to perform
//! a workbench action, or offers the key to a handler, naming the stage to resume at when
//! the handler does not take it.
use vstd::prelude::*;
use crate::action_discovery::RailMode;
use crate::focus::{
    bootstrap_flow, bootstrap_key_flow, focus_after, focus_effect, is_left_pane, navigated,
    no_effect, vim_direction, FocusState, KeyFlow, TerminalEffect,
};
use crate::keys::{KeyCodeInput, KeyInput, KeyPhase};
use crate::panes::{pane_next, pane_prev, LeafId, Overlay};

verus! {

/// What the workbench knows of its parts when a key arrives.
#[derive(Debug, Clone, Copy, PartialEq, Eq, Structural)]
pub struct KeyContext {
    /// The start-up screen is shown.
    pub bootstrap: bool,
    /// The terminal sends keys to its program rather than navigating.
    pub terminal_capture: bool,
    /// The assistant's mention popup is open.
    pub mention_popup_open: bool,
    /// The assistant's composer holds no text.
    pub composer_empty: bool,
    /// The proof rail shows a view the user chose.
    pub rail_override: bool,
    /// The shell runs as the legacy workbench.
    pub legacy_workbench: bool,
}

/// A part of the workbench a key can be offered to.
#[derive(Debug, Clone, Copy, PartialEq, Eq, Structural)]
pub enum KeyHandler {
    /// The open overlay's list and query.
    OverlayContent,
    /// The preview, to show its diff in the rail.
    DiffLens,
    FileTree,
    Editor,
    Chat,
    AgentPane,
    Terminal,
}

/// What the workbench asks its caller to do with a key.
#[derive(Debug, Clone, Copy, PartialEq, Eq, Structural)]
pub enum WorkbenchAction {
    /// Hand the key to the terminal, which captures it.
    ForwardToCapturingTerminal,
    OpenEngageTarget,
    MoveEngageTarget { down: bool },
    /// Fill the action deck, which is now open.
    FillActionDeck,
    /// Fill the quick-open list, which is now open.
    FillQuickOpen,
    /// Fill the new-thread prompt, which is now open.
    FillNewThreadPrompt,
    /// Fill the slash-command deck, which is now open.
    FillSlashCommands,
    /// Fill the model picker, which is now open.
    FillModelPicker,
    /// Attach the selected file to the assistant's context.
    AttachContext,
    NewChatSession,
    PageFeed { down: bool },
    SetRailMode(RailMode),
    StopLocalRuntime,
    ClearRailMode,
    /// Work a tab strip command on the preview's tabs (`leaf` 1) or the assistant's
    /// sessions (`leaf` 3).
    TabStrip { leaf: LeafId, command: TabCommand },
}

/// What a key on a focused tab strip asks of its tabs.
#[derive(Debug, Clone, Copy, PartialEq, Eq, Structural)]
pub enum TabCommand {
    /// Activate the next (`forward`) or the previous tab.
    Cycle { forward: bool },
    CloseActive,
    CloseAll,
}

/// Where the working through of a key stands.
#[derive(Debug, Clone, Copy, PartialEq, Eq, Structural)]
pub enum KeyStage {
    Start,
    AfterOverlay,
    AfterDiffLens,
    AfterFileTree,
    /// The file tree opened the selected file.
    FileOpened,
    AfterEditor,
    AfterChat,
    AfterAgentPane,
    AfterTerminal,
    /// The terminal failed to handle the key.
    AfterTerminalFailure,
}

/// One step of working through a key.
#[derive(Debug, Clone, Copy, PartialEq, Eq, Structural)]
pub enum KeyStep {
    /// The key is done with: the event loop goes on or quits, and the terminal is told
    /// of the effect.
    Done { flow: KeyFlow, effect: TerminalEffect },
    /// The caller performs the action; the key is then done with and the loop goes on.
    Act { action: WorkbenchAction },
    /// The caller offers the key to the handler; where the handler takes it, the key is
    /// done with, else its working through resumes at the stage.
    Offer { handler: KeyHandler, resume: KeyStage },
}

/// The key is done with and the loop goes on, with a terminal effect.
pub open spec fn moved(e: TerminalEffect) -> KeyStep {
    KeyStep::Done { flow: KeyFlow::Continue, effect: e }
}

/// The key is done with, with no terminal effect.
pub open spec fn finished(flow: KeyFlow) -> KeyStep {
    KeyStep::Done { flow, effect: no_effect() }
}

/// The caller performs an action.
pub open spec fn act(action: WorkbenchAction) -> KeyStep {
    KeyStep::Act { action }
}

/// The key offered to a handler.
pub open spec fn offer(handler: KeyHandler, resume: KeyStage) -> KeyStep {
    KeyStep::Offer { handler, resume }
}

/// The key is the character `c` with no modifier.
pub open spec fn plain(key: KeyInput, c: char) -> bool {
    key.code == KeyCodeInput::Char(c) && key.modifiers.is_empty_spec()
}

/// The key is `Ctrl` with the character `c`.
pub open spec fn with_control(key: KeyInput, c: char) -> bool {
    key.modifiers.control && key.code == KeyCodeInput::Char(c)
}

/// The digit of an `Alt` + `1` to `4` jump.
pub open spec fn alt_digit(key: KeyInput) -> Option<char> {
    if key.modifiers.alt {
        match key.code {
            KeyCodeInput::Char(c) => if c == '1' || c == '2' || c == '3' || c == '4' {
                Some(c)
            } else {
                None
            },
            _ => None,
        }
    } else {
        None
    }
}

/// The state and terminal effect of the `Alt` + `digit` jump: 1 the files (as an overlay
/// in a compact layout), 2 the preview, 3 the assistant, 4 the terminal with its dock
/// open; the jumps to 2, 3 and 4 close any overlay.
pub open spec fn jumped(s: FocusState, digit: char) -> (FocusState, TerminalEffect) {
    if digit == '1' {
        let t = focus_after(s, LeafId(0));
        (
            if s.compact_ui {
                FocusState { overlay: Overlay::Explorer, ..t }
            } else {
                t
            },
            focus_effect(s, LeafId(0)),
        )
    } else if digit == '2' {
        let b = FocusState { overlay: Overlay::Closed, ..s };
        (focus_after(b, LeafId(1)), focus_effect(b, LeafId(1)))
    } else if digit == '3' {
        let b = FocusState { overlay: Overlay::Closed, ..s };
        (focus_after(b, LeafId(3)), focus_effect(b, LeafId(3)))
    } else {
        let b = FocusState { overlay: Overlay::Closed, terminal_dock_open: true, ..s };
        (focus_after(b, LeafId(2)), focus_effect(b, LeafId(2)))
    }
}

/// The state and terminal effect of `Ctrl+b`.
pub open spec fn explorer_toggled(s: FocusState) -> (FocusState, TerminalEffect) {
    if s.compact_ui {
        let b = FocusState {
            overlay: if s.overlay == Overlay::Explorer {
                Overlay::Closed
            } else {
                Overlay::Explorer
            },
            ..s
        };
        (focus_after(b, LeafId(0)), focus_effect(b, LeafId(0)))
    } else {
        let b = FocusState { explorer_collapsed: !s.explorer_collapsed, ..s };
        if b.explorer_collapsed && b.focused.0 == 0 {
            (focus_after(b, LeafId(1)), focus_effect(b, LeafId(1)))
        } else {
            (b, no_effect())
        }
    }
}

/// The state and terminal effect of ``Ctrl+` ``, as the terminal captures keys or not.
pub open spec fn dock_toggled(s: FocusState, capturing: bool) -> (FocusState, TerminalEffect) {
    let b = FocusState { terminal_dock_open: !s.terminal_dock_open, ..s };
    if capturing {
        if !b.terminal_dock_open {
            (focus_after(b, LeafId(1)), TerminalEffect { enter_navigation: true, ..focus_effect(b, LeafId(1)) })
        } else {
            (b, no_effect())
        }
    } else if b.terminal_dock_open {
        (focus_after(b, LeafId(2)), focus_effect(b, LeafId(2)))
    } else if b.focused.0 == 2 {
        (focus_after(b, LeafId(1)), focus_effect(b, LeafId(1)))
    } else {
        (b, no_effect())
    }
}

/// The state and step of a `Ctrl`-move key, which is always taken: the focus moves where
/// it can.
pub open spec fn vim_moved(s: FocusState, d: int) -> (FocusState, KeyStep) {
    match navigated(s, d) {
        Some((t, e)) => (t, moved(e)),
        None => (s, moved(no_effect())),
    }
}

/// The rail view a plain key chooses.
pub open spec fn rail_mode_key(key: KeyInput) -> Option<RailMode> {
    if !key.modifiers.is_empty_spec() {
        None
    } else {
        match key.code {
            KeyCodeInput::Char(c) => if c == 'd' {
                Some(RailMode::DiffReactor)
            } else if c == 'v' {
                Some(RailMode::VerifyRadar)
            } else if c == 'r' {
                Some(RailMode::TraceLens)
            } else if c == 't' {
                Some(RailMode::TimelineScrubber)
            } else if c == 'm' {
                Some(RailMode::MemoryViewport)
            } else if c == 'o' {
                Some(RailMode::ToolOrchestra)
            } else {
                None
            },
            _ => None,
        }
    }
}

/// The last keys, once no handler took the key: `Tab` and `Shift+Tab` move the focus
/// (unless a tab strip has the keyboard), `Ctrl+m` opens or closes the model picker,
/// `Ctrl+s` stops the local runtime, `Esc` lets go of a tab strip, clears a chosen rail
/// view or quits, and `Ctrl+c` quits outside the terminal.
pub open spec fn last_keys(s: FocusState, ctx: KeyContext, key: KeyInput) -> (FocusState, KeyStep) {
    if key.code == KeyCodeInput::Tab || key.code == KeyCodeInput::BackTab {
        if s.tab_strip_focus is Some {
            (s, finished(KeyFlow::Continue))
        } else {
            let target = if key.code == KeyCodeInput::BackTab || key.modifiers.shift {
                pane_prev(s.focused)
            } else {
                pane_next(s.focused)
            };
            (focus_after(s, target), moved(focus_effect(s, target)))
        }
    } else if with_control(key, 'm') {
        if s.overlay == Overlay::ModelPicker {
            (FocusState { overlay: Overlay::Closed, ..s }, finished(KeyFlow::Continue))
        } else {
            (FocusState { overlay: Overlay::ModelPicker, ..s }, act(WorkbenchAction::FillModelPicker))
        }
    } else if with_control(key, 's') {
        (s, act(WorkbenchAction::StopLocalRuntime))
    } else if key.code == KeyCodeInput::Esc {
        if s.tab_strip_focus is Some {
            (FocusState { tab_strip_focus: None, ..s }, finished(KeyFlow::Continue))
        } else if s.overlay == Overlay::Closed && ctx.rail_override && !ctx.legacy_workbench {
            (s, act(WorkbenchAction::ClearRailMode))
        } else {
            (s, finished(KeyFlow::Break))
        }
    } else if with_control(key, 'c') && s.focused.0 != 2 {
        (s, finished(KeyFlow::Break))
    } else {
        (s, finished(KeyFlow::Continue))
    }
}

/// After the terminal declined the key: a `Ctrl`-move, else the last keys.
pub open spec fn after_terminal(s: FocusState, ctx: KeyContext, key: KeyInput) -> (FocusState, KeyStep) {
    if key.modifiers.control && vim_direction(key.code) is Some {
        vim_moved(s, vim_direction(key.code)->0)
    } else {
        last_keys(s, ctx, key)
    }
}

/// After the agent pane: a focused terminal not capturing keys starts capturing on a
/// plain `Enter`, else it is offered the key; otherwise the last keys.
pub open spec fn after_agent_pane(s: FocusState, ctx: KeyContext, key: KeyInput) -> (FocusState, KeyStep) {
    if s.focused.0 == 2 {
        if !ctx.terminal_capture && key.modifiers.is_empty_spec() && key.code == KeyCodeInput::Enter {
            (s, moved(TerminalEffect { enter_capture: true, ..no_effect() }))
        } else {
            (s, offer(KeyHandler::Terminal, KeyStage::AfterTerminal))
        }
    } else {
        last_keys(s, ctx, key)
    }
}

/// After the assistant: the agent pane is offered the key when it has the focus.
pub open spec fn after_chat(s: FocusState, ctx: KeyContext, key: KeyInput) -> (FocusState, KeyStep) {
    if s.focused.0 == 4 {
        (s, offer(KeyHandler::AgentPane, KeyStage::AfterAgentPane))
    } else {
        after_agent_pane(s, ctx, key)
    }
}

/// Whether the assistant has the keyboard to itself: it has the focus, no overlay is
/// open, no tab strip has the keyboard and the mention popup is closed.
pub open spec fn chat_has_keyboard(s: FocusState, ctx: KeyContext) -> bool {
    s.focused.0 == 3 && s.overlay == Overlay::Closed && s.tab_strip_focus is None
        && !ctx.mention_popup_open
}

/// After the preview: a plain `/` in an empty composer opens the slash commands;
/// otherwise the assistant is offered the key when it has the focus.
pub open spec fn after_editor(s: FocusState, ctx: KeyContext, key: KeyInput) -> (FocusState, KeyStep) {
    if chat_has_keyboard(s, ctx) && plain(key, '/') && ctx.composer_empty {
        (FocusState { overlay: Overlay::SlashCommandDeck, ..s }, act(WorkbenchAction::FillSlashCommands))
    } else if s.focused.0 == 3 {
        (s, offer(KeyHandler::Chat, KeyStage::AfterChat))
    } else {
        after_chat(s, ctx, key)
    }
}

/// After the file tree: paging the assistant's feed, choosing a rail view (outside the
/// assistant and the terminal), then offering the key to a focused preview.
pub open spec fn after_file_tree(s: FocusState, ctx: KeyContext, key: KeyInput) -> (FocusState, KeyStep) {
    if chat_has_keyboard(s, ctx) && key.modifiers.is_empty_spec() && (key.code
        == KeyCodeInput::PageUp || key.code == KeyCodeInput::PageDown) {
        (s, act(WorkbenchAction::PageFeed { down: key.code == KeyCodeInput::PageDown }))
    } else if s.overlay == Overlay::Closed && s.tab_strip_focus is None && s.focused.0 != 3
        && s.focused.0 != 2 && rail_mode_key(key) is Some {
        (s, act(WorkbenchAction::SetRailMode(rail_mode_key(key)->0)))
    } else if s.focused.0 == 1 {
        (s, offer(KeyHandler::Editor, KeyStage::AfterEditor))
    } else {
        after_editor(s, ctx, key)
    }
}

/// After the tab strip: `Ctrl+t` in the assistant starts a session; the file tree is
/// offered the key when it has the focus.
pub open spec fn after_tab_strip(s: FocusState, ctx: KeyContext, key: KeyInput) -> (FocusState, KeyStep) {
    if s.focused.0 == 3 && with_control(key, 't') {
        (s, act(WorkbenchAction::NewChatSession))
    } else if s.focused.0 == 0 {
        (s, offer(KeyHandler::FileTree, KeyStage::AfterFileTree))
    } else {
        after_file_tree(s, ctx, key)
    }
}

/// A command on the tabs of the tab strip `leaf`: the preview's and the assistant's
/// strips have tabs the caller works on; the key is taken on any other strip too.
pub open spec fn tab_command(leaf: LeafId, command: TabCommand) -> KeyStep {
    if leaf.0 == 1 || leaf.0 == 3 {
        act(WorkbenchAction::TabStrip { leaf, command })
    } else {
        finished(KeyFlow::Continue)
    }
}

/// The keys of a focused tab strip: a strip whose pane lost the focus lets go of the
/// keyboard and the key goes on; on the strip `Esc` lets go, `Tab` and `Shift+Tab` are
/// kept, `Left` and `Right` cycle the tabs, `Delete` and `Ctrl+w` close the active tab and
/// `Ctrl+Shift+w` closes them all; other keys go on.
pub open spec fn tab_strip_keys(s: FocusState, ctx: KeyContext, key: KeyInput) -> (FocusState, KeyStep) {
    match s.tab_strip_focus {
        None => after_tab_strip(s, ctx, key),
        Some(leaf) => {
            if s.focused != leaf {
                after_tab_strip(FocusState { tab_strip_focus: None, ..s }, ctx, key)
            } else if key.code == KeyCodeInput::Esc {
                (FocusState { tab_strip_focus: None, ..s }, finished(KeyFlow::Continue))
            } else if key.code == KeyCodeInput::Tab || key.code == KeyCodeInput::BackTab {
                (s, finished(KeyFlow::Continue))
            } else if key.code == KeyCodeInput::Left || key.code == KeyCodeInput::Right {
                (s, tab_command(leaf, TabCommand::Cycle { forward: key.code == KeyCodeInput::Right }))
            } else if key.code == KeyCodeInput::Delete {
                (s, tab_command(leaf, TabCommand::CloseActive))
            } else if with_control(key, 'w') {
                (
                    s,
                    tab_command(
                        leaf,
                        if key.modifiers.shift {
                            TabCommand::CloseAll
                        } else {
                            TabCommand::CloseActive
                        },
                    ),
                )
            } else {
                after_tab_strip(s, ctx, key)
            }
        },
    }
}

/// After the diff lens: the `Alt` jumps; `Ctrl` with `k` (action deck), `b` (explorer),
/// `` ` `` (terminal dock), `p` (quick open), `n` (new thread) and, in the terminal, `g`
/// (navigation mode); a space outside the assistant and the terminal attaches the
/// context; a `Ctrl`-move outside the terminal; `Alt+Up` gives the preview's or the
/// assistant's tab strip the keyboard; then the keys of a focused tab strip.
pub open spec fn after_diff_lens(s: FocusState, ctx: KeyContext, key: KeyInput) -> (FocusState, KeyStep) {
    if alt_digit(key) is Some {
        let (t, e) = jumped(s, alt_digit(key)->0);
        (t, moved(e))
    } else if with_control(key, 'k') {
        (FocusState { overlay: Overlay::ActionDeck, ..s }, act(WorkbenchAction::FillActionDeck))
    } else if with_control(key, 'b') {
        let (t, e) = explorer_toggled(s);
        (t, moved(e))
    } else if with_control(key, '`') {
        let (t, e) = dock_toggled(s, false);
        (t, moved(e))
    } else if with_control(key, 'p') {
        (FocusState { overlay: Overlay::QuickOpen, ..s }, act(WorkbenchAction::FillQuickOpen))
    } else if with_control(key, 'n') {
        (FocusState { overlay: Overlay::NewThreadPrompt, ..s }, act(WorkbenchAction::FillNewThreadPrompt))
    } else if with_control(key, 'g') && s.focused.0 == 2 {
        (s, moved(TerminalEffect { enter_navigation: true, ..no_effect() }))
    } else if key.code == KeyCodeInput::Char(' ') && !key.modifiers.control && s.focused.0 != 3
        && s.focused.0 != 2 {
        (s, act(WorkbenchAction::AttachContext))
    } else if s.focused.0 != 2 && key.modifiers.control && vim_direction(key.code) is Some {
        vim_moved(s, vim_direction(key.code)->0)
    } else if (s.focused.0 == 1 || s.focused.0 == 3) && key.code == KeyCodeInput::Up
        && key.modifiers.alt {
        (FocusState { tab_strip_focus: Some(s.focused), ..s }, finished(KeyFlow::Continue))
    } else {
        tab_strip_keys(s, ctx, key)
    }
}

/// After the overlay: a terminal that captures keys keeps them but for the `Alt` jumps,
/// ``Ctrl+` `` and `Ctrl+g`; else a plain `?` opens help; `Alt` with `Enter`, `Down` or
/// `Up` opens or moves the engage target; a plain `d` in the preview is offered to the
/// diff lens.
pub open spec fn after_overlay(s: FocusState, ctx: KeyContext, key: KeyInput) -> (FocusState, KeyStep) {
    if s.focused.0 == 2 && s.overlay == Overlay::Closed && ctx.terminal_capture {
        if alt_digit(key) is Some {
            let (t, e) = jumped(s, alt_digit(key)->0);
            (t, moved(e))
        } else if with_control(key, '`') {
            let (t, e) = dock_toggled(s, true);
            (t, moved(e))
        } else if with_control(key, 'g') {
            (s, moved(TerminalEffect { enter_navigation: true, ..no_effect() }))
        } else {
            (s, act(WorkbenchAction::ForwardToCapturingTerminal))
        }
    } else if plain(key, '?') {
        (FocusState { overlay: Overlay::Help, ..s }, finished(KeyFlow::Continue))
    } else if s.overlay == Overlay::Closed && !ctx.mention_popup_open && key.modifiers.alt && (
    key.code == KeyCodeInput::Enter || key.code == KeyCodeInput::Down || key.code
        == KeyCodeInput::Up) {
        (
            s,
            act(
                if key.code == KeyCodeInput::Enter {
                    WorkbenchAction::OpenEngageTarget
                } else {
                    WorkbenchAction::MoveEngageTarget { down: key.code == KeyCodeInput::Down }
                },
            ),
        )
    } else if s.overlay == Overlay::Closed && s.focused.0 == 1 && s.tab_strip_focus is None && (
    plain(key, 'd') || plain(key, 'D')) {
        (s, offer(KeyHandler::DiffLens, KeyStage::AfterDiffLens))
    } else {
        after_diff_lens(s, ctx, key)
    }
}

/// The start: on the start-up screen only quitting keys count; a released key is
/// ignored; the help overlay closes on `Esc` or `?` and keeps every other key; the
/// explorer overlay closes on `Esc` or `Ctrl+b`; the other overlays are offered the key.
pub open spec fn at_start(s: FocusState, ctx: KeyContext, key: KeyInput) -> (FocusState, KeyStep) {
    if ctx.bootstrap {
        (s, finished(bootstrap_flow(key)))
    } else if key.phase == KeyPhase::Release {
        (s, finished(KeyFlow::Continue))
    } else if s.overlay == Overlay::Help {
        if key.code == KeyCodeInput::Esc || key.code == KeyCodeInput::Char('?') {
            (FocusState { overlay: Overlay::Closed, ..s }, finished(KeyFlow::Continue))
        } else {
            (s, finished(KeyFlow::Continue))
        }
    } else if s.overlay == Overlay::Explorer {
        if key.code == KeyCodeInput::Esc || with_control(key, 'b') {
            (FocusState { overlay: Overlay::Closed, ..s }, finished(KeyFlow::Continue))
        } else {
            after_overlay(s, ctx, key)
        }
    } else if s.overlay != Overlay::Closed {
        (s, offer(KeyHandler::OverlayContent, KeyStage::AfterOverlay))
    } else {
        after_overlay(s, ctx, key)
    }
}

/// One step of working through a key from a stage.
pub open spec fn key_step(s: FocusState, ctx: KeyContext, key: KeyInput, stage: KeyStage) -> (
    FocusState,
    KeyStep,
) {
    match stage {
        KeyStage::Start => at_start(s, ctx, key),
        KeyStage::AfterOverlay => after_overlay(s, ctx, key),
        KeyStage::AfterDiffLens => after_diff_lens(s, ctx, key),
        KeyStage::AfterFileTree => after_file_tree(s, ctx, key),
        KeyStage::FileOpened => (focus_after(s, LeafId(1)), moved(focus_effect(s, LeafId(1)))),
        KeyStage::AfterEditor => after_editor(s, ctx, key),
        KeyStage::AfterChat => after_chat(s, ctx, key),
        KeyStage::AfterAgentPane => after_agent_pane(s, ctx, key),
        KeyStage::AfterTerminal => after_terminal(s, ctx, key),
        KeyStage::AfterTerminalFailure => last_keys(s, ctx, key),
    }
}

/// The digit of an `Alt` + `1` to `4` jump.
fn jump_digit(key: &KeyInput) -> (r: Option<char>)
    ensures
        r == alt_digit(*key),
{
    if key.modifiers.alt {
        match key.code {
            KeyCodeInput::Char(c) => if c == '1' || c == '2' || c == '3' || c == '4' {
                Some(c)
            } else {
                None
            },
            _ => None,
        }
    } else {
        None
    }
}

/// Whether the key is the character `c` with no modifier.
fn is_plain(key: &KeyInput, c: char) -> (r: bool)
    ensures
        r == plain(*key, c),
{
    key.code == KeyCodeInput::Char(c) && key.modifiers.is_empty()
}

/// Whether the key is `Ctrl` with the character `c`.
fn is_control(key: &KeyInput, c: char) -> (r: bool)
    ensures
        r == with_control(*key, c),
{
    key.modifiers.control && key.code == KeyCodeInput::Char(c)
}

/// Whether the key is a `Ctrl`-move.
fn is_vim_move(key: &KeyInput) -> (r: bool)
    ensures
        r == (key.modifiers.control && vim_direction(key.code) is Some),
{
    key.modifiers.control && match key.code {
        KeyCodeInput::Char(c) => c == 'h' || c == 'H' || c == 'l' || c == 'L' || c == 'j' || c
            == 'J' || c == 'k' || c == 'K',
        KeyCodeInput::Left | KeyCodeInput::Right | KeyCodeInput::Down | KeyCodeInput::Up => true,
        _ => false,
    }
}

/// The rail view a plain key chooses.
fn rail_mode_for(key: &KeyInput) -> (r: Option<RailMode>)
    ensures
        r == rail_mode_key(*key),
{
    if !key.modifiers.is_empty() {
        return None;
    }
    match key.code {
        KeyCodeInput::Char(c) => if c == 'd' {
            Some(RailMode::DiffReactor)
        } else if c == 'v' {
            Some(RailMode::VerifyRadar)
        } else if c == 'r' {
            Some(RailMode::TraceLens)
        } else if c == 't' {
            Some(RailMode::TimelineScrubber)
        } else if c == 'm' {
            Some(RailMode::MemoryViewport)
        } else if c == 'o' {
            Some(RailMode::ToolOrchestra)
        } else {
            None
        },
        _ => None,
    }
}

/// A key step that finishes the key with no terminal effect.
fn done(flow: KeyFlow) -> (r: KeyStep)
    ensures
        r == finished(flow),
{
    KeyStep::Done {
        flow,
        effect: TerminalEffect { enter_capture: false, enter_navigation: false, focus_notice: None },
    }
}

/// A key step that finishes the key with a terminal effect.
fn done_with(effect: TerminalEffect) -> (r: KeyStep)
    ensures
        r == moved(effect),
{
    KeyStep::Done { flow: KeyFlow::Continue, effect }
}

/// A key step that only asks the terminal to leave capture mode.
fn navigation_mode() -> (r: KeyStep)
    ensures
        r == moved(TerminalEffect { enter_navigation: true, ..no_effect() }),
{
    done_with(TerminalEffect { enter_capture: false, enter_navigation: true, focus_notice: None })
}

impl FocusState {
    /// An `Alt` + digit jump, for a digit from `1` to `4`.
    fn jump_step(&mut self, digit: char) -> (r: KeyStep)
        requires
            digit == '1' || digit == '2' || digit == '3' || digit == '4',
        ensures
            (*final(self), r) == ({
                let (t, e) = jumped(*old(self), digit);
                (t, moved(e))
            }),
    {
        match self.jump_with_alt(digit) {
            Some(e) => done_with(e),
            None => done(KeyFlow::Continue),
        }
    }

    /// A `Ctrl`-move key, which is always taken.
    fn vim_step(&mut self, key: &KeyInput) -> (r: KeyStep)
        requires
            key.modifiers.control,
            vim_direction(key.code) is Some,
        ensures
            (*final(self), r) == vim_moved(*old(self), vim_direction(key.code)->0),
    {
        match self.try_handle_vim_pane_navigation(key) {
            Some(e) => done_with(e),
            None => done(KeyFlow::Continue),
        }
    }

    /// The last keys, once no handler took the key.
    fn last_key_step(&mut self, ctx: &KeyContext, key: &KeyInput) -> (r: KeyStep)
        ensures
            (*final(self), r) == last_keys(*old(self), *ctx, *key),
    {
        if key.code == KeyCodeInput::Tab || key.code == KeyCodeInput::BackTab {
            if self.tab_strip_focus.is_some() {
                done(KeyFlow::Continue)
            } else {
                match self.cycle_focus_with_tab(key) {
                    Some(e) => done_with(e),
                    None => done(KeyFlow::Continue),
                }
            }
        } else if is_control(key, 'm') {
            if self.overlay == Overlay::ModelPicker {
                self.overlay = Overlay::Closed;
                done(KeyFlow::Continue)
            } else {
                self.overlay = Overlay::ModelPicker;
                KeyStep::Act { action: WorkbenchAction::FillModelPicker }
            }
        } else if is_control(key, 's') {
            KeyStep::Act { action: WorkbenchAction::StopLocalRuntime }
        } else if key.code == KeyCodeInput::Esc {
            let (flow, clear_rail) = self.escape(ctx.rail_override, ctx.legacy_workbench);
            if clear_rail {
                KeyStep::Act { action: WorkbenchAction::ClearRailMode }
            } else {
                done(flow)
            }
        } else if is_control(key, 'c') && self.focused.0 != 2 {
            done(KeyFlow::Break)
        } else {
            done(KeyFlow::Continue)
        }
    }
    /// After the terminal declined the key.
    fn terminal_declined_step(&mut self, ctx: &KeyContext, key: &KeyInput) -> (r: KeyStep)
        ensures
            (*final(self), r) == after_terminal(*old(self), *ctx, *key),
    {
        if is_vim_move(key) {
            self.vim_step(key)
        } else {
            self.last_key_step(ctx, key)
        }
    }

    /// After the agent pane.
    fn agent_pane_declined_step(&mut self, ctx: &KeyContext, key: &KeyInput) -> (r: KeyStep)
        ensures
            (*final(self), r) == after_agent_pane(*old(self), *ctx, *key),
    {
        if self.focused.0 == 2 {
            if !ctx.terminal_capture && key.modifiers.is_empty() && key.code == KeyCodeInput::Enter {
                done_with(TerminalEffect { enter_capture: true, enter_navigation: false, focus_notice: None })
            } else {
                KeyStep::Offer { handler: KeyHandler::Terminal, resume: KeyStage::AfterTerminal }
            }
        } else {
            self.last_key_step(ctx, key)
        }
    }

    /// After the assistant.
    fn chat_declined_step(&mut self, ctx: &KeyContext, key: &KeyInput) -> (r: KeyStep)
        ensures
            (*final(self), r) == after_chat(*old(self), *ctx, *key),
    {
        if self.focused.0 == 4 {
            KeyStep::Offer { handler: KeyHandler::AgentPane, resume: KeyStage::AfterAgentPane }
        } else {
            self.agent_pane_declined_step(ctx, key)
        }
    }

    /// Whether the assistant has the keyboard to itself.
    fn chat_owns_keyboard(&self, ctx: &KeyContext) -> (r: bool)
        ensures
            r == chat_has_keyboard(*self, *ctx),
    {
        self.focused.0 == 3 && self.overlay == Overlay::Closed && self.tab_strip_focus.is_none()
            && !ctx.mention_popup_open
    }

    /// After the preview.
    fn editor_declined_step(&mut self, ctx: &KeyContext, key: &KeyInput) -> (r: KeyStep)
        ensures
            (*final(self), r) == after_editor(*old(self), *ctx, *key),
    {
        if self.chat_owns_keyboard(ctx) && is_plain(key, '/') && ctx.composer_empty {
            self.overlay = Overlay::SlashCommandDeck;
            KeyStep::Act { action: WorkbenchAction::FillSlashCommands }
        } else if self.focused.0 == 3 {
            KeyStep::Offer { handler: KeyHandler::Chat, resume: KeyStage::AfterChat }
        } else {
            self.chat_declined_step(ctx, key)
        }
    }

    /// After the file tree.
    fn file_tree_declined_step(&mut self, ctx: &KeyContext, key: &KeyInput) -> (r: KeyStep)
        ensures
            (*final(self), r) == after_file_tree(*old(self), *ctx, *key),
    {
        if self.chat_owns_keyboard(ctx) && key.modifiers.is_empty() && (key.code
            == KeyCodeInput::PageUp || key.code == KeyCodeInput::PageDown) {
            return KeyStep::Act {
                action: WorkbenchAction::PageFeed { down: key.code == KeyCodeInput::PageDown },
            };
        }
        if self.overlay == Overlay::Closed && self.tab_strip_focus.is_none() && self.focused.0 != 3
            && self.focused.0 != 2 {
            match rail_mode_for(key) {
                Some(mode) => {
                    return KeyStep::Act { action: WorkbenchAction::SetRailMode(mode) };
                },
                None => {},
            }
        }
        if self.focused.0 == 1 {
            KeyStep::Offer { handler: KeyHandler::Editor, resume: KeyStage::AfterEditor }
        } else {
            self.editor_declined_step(ctx, key)
        }
    }

    /// After the tab strip.
    fn tab_strip_declined_step(&mut self, ctx: &KeyContext, key: &KeyInput) -> (r: KeyStep)
        ensures
            (*final(self), r) == after_tab_strip(*old(self), *ctx, *key),
    {
        if self.focused.0 == 3 && is_control(key, 't') {
            KeyStep::Act { action: WorkbenchAction::NewChatSession }
        } else if self.focused.0 == 0 {
            KeyStep::Offer { handler: KeyHandler::FileTree, resume: KeyStage::AfterFileTree }
        } else {
            self.file_tree_declined_step(ctx, key)
        }
    }

    /// The keys of a focused tab strip.
    fn tab_strip_step(&mut self, ctx: &KeyContext, key: &KeyInput) -> (r: KeyStep)
        ensures
            (*final(self), r) == tab_strip_keys(*old(self), *ctx, *key),
    {
        let leaf = match self.tab_strip_focus {
            None => {
                return self.tab_strip_declined_step(ctx, key);
            },
            Some(leaf) => leaf,
        };
        if self.focused != leaf {
            self.tab_strip_focus = None;
            return self.tab_strip_declined_step(ctx, key);
        }
        let command = if key.code == KeyCodeInput::Esc {
            self.tab_strip_focus = None;
            return done(KeyFlow::Continue);
        } else if key.code == KeyCodeInput::Tab || key.code == KeyCodeInput::BackTab {
            return done(KeyFlow::Continue);
        } else if key.code == KeyCodeInput::Left || key.code == KeyCodeInput::Right {
            TabCommand::Cycle { forward: key.code == KeyCodeInput::Right }
        } else if key.code == KeyCodeInput::Delete {
            TabCommand::CloseActive
        } else if is_control(key, 'w') {
            if key.modifiers.shift {
                TabCommand::CloseAll
            } else {
                TabCommand::CloseActive
            }
        } else {
            return self.tab_strip_declined_step(ctx, key);
        };
        if leaf.0 == 1 || leaf.0 == 3 {
            KeyStep::Act { action: WorkbenchAction::TabStrip { leaf, command } }
        } else {
            done(KeyFlow::Continue)
        }
    }

    /// After the diff lens: the global keys.
    fn global_key_step(&mut self, ctx: &KeyContext, key: &KeyInput) -> (r: KeyStep)
        ensures
            (*final(self), r) == after_diff_lens(*old(self), *ctx, *key),
    {
        match jump_digit(key) {
            Some(d) => {
                return self.jump_step(d);
            },
            None => {},
        }
        if is_control(key, 'k') {
            self.overlay = Overlay::ActionDeck;
            KeyStep::Act { action: WorkbenchAction::FillActionDeck }
        } else if is_control(key, 'b') {
            done_with(self.toggle_explorer())
        } else if is_control(key, '`') {
            done_with(self.toggle_terminal_dock(false))
        } else if is_control(key, 'p') {
            self.overlay = Overlay::QuickOpen;
            KeyStep::Act { action: WorkbenchAction::FillQuickOpen }
        } else if is_control(key, 'n') {
            self.overlay = Overlay::NewThreadPrompt;
            KeyStep::Act { action: WorkbenchAction::FillNewThreadPrompt }
        } else if is_control(key, 'g') && self.focused.0 == 2 {
            navigation_mode()
        } else if key.code == KeyCodeInput::Char(' ') && !key.modifiers.control && self.focused.0 != 3
            && self.focused.0 != 2 {
            KeyStep::Act { action: WorkbenchAction::AttachContext }
        } else if self.focused.0 != 2 && is_vim_move(key) {
            self.vim_step(key)
        } else if (self.focused.0 == 1 || self.focused.0 == 3) && key.code == KeyCodeInput::Up
            && key.modifiers.alt {
            self.tab_strip_focus = Some(self.focused);
            done(KeyFlow::Continue)
        } else {
            self.tab_strip_step(ctx, key)
        }
    }

    /// After the overlay.
    fn overlay_declined_step(&mut self, ctx: &KeyContext, key: &KeyInput) -> (r: KeyStep)
        ensures
            (*final(self), r) == after_overlay(*old(self), *ctx, *key),
    {
        if self.focused.0 == 2 && self.overlay == Overlay::Closed && ctx.terminal_capture {
            match jump_digit(key) {
                Some(d) => {
                    return self.jump_step(d);
                },
                None => {},
            }
            if is_control(key, '`') {
                done_with(self.toggle_terminal_dock(true))
            } else if is_control(key, 'g') {
                navigation_mode()
            } else {
                KeyStep::Act { action: WorkbenchAction::ForwardToCapturingTerminal }
            }
        } else if is_plain(key, '?') {
            self.overlay = Overlay::Help;
            done(KeyFlow::Continue)
        } else if self.overlay == Overlay::Closed && !ctx.mention_popup_open && key.modifiers.alt && (
        key.code == KeyCodeInput::Enter || key.code == KeyCodeInput::Down || key.code
            == KeyCodeInput::Up) {
            if key.code == KeyCodeInput::Enter {
                KeyStep::Act { action: WorkbenchAction::OpenEngageTarget }
            } else {
                KeyStep::Act {
                    action: WorkbenchAction::MoveEngageTarget { down: key.code == KeyCodeInput::Down },
                }
            }
        } else if self.overlay == Overlay::Closed && self.focused.0 == 1 && self.tab_strip_focus.is_none()
            && (is_plain(key, 'd') || is_plain(key, 'D')) {
            KeyStep::Offer { handler: KeyHandler::DiffLens, resume: KeyStage::AfterDiffLens }
        } else {
            self.global_key_step(ctx, key)
        }
    }

    /// The start of a key.
    fn first_key_step(&mut self, ctx: &KeyContext, key: &KeyInput) -> (r: KeyStep)
        ensures
            (*final(self), r) == at_start(*old(self), *ctx, *key),
    {
        if ctx.bootstrap {
            done(bootstrap_key_flow(key))
        } else if key.phase == KeyPhase::Release {
            done(KeyFlow::Continue)
        } else if self.overlay == Overlay::Help {
            if key.code == KeyCodeInput::Esc || key.code == KeyCodeInput::Char('?') {
                self.overlay = Overlay::Closed;
            }
            done(KeyFlow::Continue)
        } else if self.overlay == Overlay::Explorer {
            if key.code == KeyCodeInput::Esc || is_control(key, 'b') {
                self.overlay = Overlay::Closed;
                done(KeyFlow::Continue)
            } else {
                self.overlay_declined_step(ctx, key)
            }
        } else if self.overlay != Overlay::Closed {
            KeyStep::Offer { handler: KeyHandler::OverlayContent, resume: KeyStage::AfterOverlay }
        } else {
            self.overlay_declined_step(ctx, key)
        }
    }

    /// Works a key through from `stage`: answers whether it is done with, an action for
    /// the caller to perform, or a handler to offer it to; where the handler declines it,
    /// the caller calls again with the stage named in the offer.
    pub fn step_key(&mut self, ctx: &KeyContext, key: &KeyInput, stage: KeyStage) -> (r: KeyStep)
        ensures
            (*final(self), r) == key_step(*old(self), *ctx, *key, stage),
    {
        match stage {
            KeyStage::Start => self.first_key_step(ctx, key),
            KeyStage::AfterOverlay => self.overlay_declined_step(ctx, key),
            KeyStage::AfterDiffLens => self.global_key_step(ctx, key),
            KeyStage::AfterFileTree => self.file_tree_declined_step(ctx, key),
            KeyStage::FileOpened => done_with(self.set_focus(LeafId(1))),
            KeyStage::AfterEditor => self.editor_declined_step(ctx, key),
            KeyStage::AfterChat => self.chat_declined_step(ctx, key),
            KeyStage::AfterAgentPane => self.agent_pane_declined_step(ctx, key),
            KeyStage::AfterTerminal => self.terminal_declined_step(ctx, key),
            KeyStage::AfterTerminalFailure => self.last_key_step(ctx, key),
        }
    }
}

/// Where pasted text goes.
#[derive(Debug, Clone, Copy, PartialEq, Eq, Structural)]
pub enum PasteTarget {
    /// The terminal, which captures keys, takes the text at once.
    Terminal,
    /// The assistant's composer takes the text character by character, as typed keys.
    Composer,
    /// Nothing takes the text.
    Nowhere,
}

/// Where pasted text goes: to a focused terminal that captures keys while no overlay is
/// open, else to a focused assistant.
pub open spec fn paste_target_of(s: FocusState, ctx: KeyContext) -> PasteTarget {
    if s.focused.0 == 2 && s.overlay == Overlay::Closed && ctx.terminal_capture {
        PasteTarget::Terminal
    } else if s.focused.0 == 3 {
        PasteTarget::Composer
    } else {
        PasteTarget::Nowhere
    }
}

impl FocusState {
    /// Where pasted text goes (see [`paste_target_of`]).
    pub fn paste_target(&self, ctx: &KeyContext) -> (r: PasteTarget)
        ensures
            r == paste_target_of(*self, *ctx),
    {
        if self.focused.0 == 2 && self.overlay == Overlay::Closed && ctx.terminal_capture {
            PasteTarget::Terminal
        } else if self.focused.0 == 3 {
            PasteTarget::Composer
        } else {
            PasteTarget::Nowhere
        }
    }
}

/// A released key changes nothing and lets the loop go on, on the start-up screen too.
pub proof fn lemma_released_key_is_ignored(s: FocusState, ctx: KeyContext, key: KeyInput)
    requires
        key.phase == KeyPhase::Release,
    ensures
        key_step(s, ctx, key, KeyStage::Start) == (s, finished(KeyFlow::Continue)),
{
}

/// While help is open every key is kept from the rest of the workbench: the loop goes
/// on, and the only change is that `Esc` or `?` closes help.
pub proof fn lemma_help_keeps_every_key(s: FocusState, ctx: KeyContext, key: KeyInput)
    requires
        s.overlay == Overlay::Help,
        !ctx.bootstrap,
    ensures
        key_step(s, ctx, key, KeyStage::Start).1 == finished(KeyFlow::Continue),
        key_step(s, ctx, key, KeyStage::Start).0 == s || key_step(s, ctx, key, KeyStage::Start).0
            == (FocusState { overlay: Overlay::Closed, ..s }),
{
}

/// The focus invariants, as kept from `s` to `t`: the last pane left of the files is
/// the preview, the terminal or the assistant, the layout stays, and a compact layout
/// keeps the focus off the agent pane.
pub open spec fn keeps_focus_invariants(s: FocusState, t: FocusState) -> bool {
    &&& is_left_pane(t.last_left_pane)
    &&& t.compact_ui == s.compact_ui
    &&& s.compact_ui ==> t.focused.0 != 4
}

proof fn lemma_moves_keep(s: FocusState, ctx: KeyContext, key: KeyInput)
    requires
        is_left_pane(s.last_left_pane),
        s.compact_ui ==> s.focused.0 != 4,
    ensures
        forall|p: LeafId| #[trigger] keeps_focus_invariants(s, focus_after(s, p)),
        alt_digit(key) is Some ==> keeps_focus_invariants(s, jumped(s, alt_digit(key)->0).0),
        keeps_focus_invariants(s, explorer_toggled(s).0),
        keeps_focus_invariants(s, dock_toggled(s, true).0),
        keeps_focus_invariants(s, dock_toggled(s, false).0),
        vim_direction(key.code) is Some ==> keeps_focus_invariants(
            s,
            vim_moved(s, vim_direction(key.code)->0).0,
        ),
{
}

proof fn lemma_later_stages_keep(s: FocusState, ctx: KeyContext, key: KeyInput)
    requires
        is_left_pane(s.last_left_pane),
        s.compact_ui ==> s.focused.0 != 4,
    ensures
        keeps_focus_invariants(s, last_keys(s, ctx, key).0),
        keeps_focus_invariants(s, after_terminal(s, ctx, key).0),
        keeps_focus_invariants(s, after_agent_pane(s, ctx, key).0),
        keeps_focus_invariants(s, after_chat(s, ctx, key).0),
        keeps_focus_invariants(s, after_editor(s, ctx, key).0),
        keeps_focus_invariants(s, after_file_tree(s, ctx, key).0),
        keeps_focus_invariants(s, after_tab_strip(s, ctx, key).0),
{
    lemma_moves_keep(s, ctx, key);
    let target = if key.code == KeyCodeInput::BackTab || key.modifiers.shift {
        pane_prev(s.focused)
    } else {
        pane_next(s.focused)
    };
    assert(keeps_focus_invariants(s, focus_after(s, target)));
}

proof fn lemma_early_stages_keep(s: FocusState, ctx: KeyContext, key: KeyInput)
    requires
        is_left_pane(s.last_left_pane),
        s.compact_ui ==> s.focused.0 != 4,
    ensures
        keeps_focus_invariants(s, tab_strip_keys(s, ctx, key).0),
        keeps_focus_invariants(s, after_diff_lens(s, ctx, key).0),
        keeps_focus_invariants(s, after_overlay(s, ctx, key).0),
        keeps_focus_invariants(s, at_start(s, ctx, key).0),
{
    lemma_moves_keep(s, ctx, key);
    lemma_later_stages_keep(s, ctx, key);
    let released = FocusState { tab_strip_focus: None, ..s };
    lemma_later_stages_keep(released, ctx, key);
    assert(keeps_focus_invariants(s, tab_strip_keys(s, ctx, key).0));
}

/// Every step of every key keeps the last pane left of the files among the preview, the
/// terminal and the assistant, keeps the layout, and in a compact layout keeps the focus
/// off the agent pane.
pub proof fn lemma_key_step_keeps_focus_invariants(
    s: FocusState,
    ctx: KeyContext,
    key: KeyInput,
    stage: KeyStage,
)
    requires
        is_left_pane(s.last_left_pane),
        s.compact_ui ==> s.focused.0 != 4,
    ensures
        keeps_focus_invariants(s, key_step(s, ctx, key, stage).0),
{
    lemma_moves_keep(s, ctx, key);
    lemma_later_stages_keep(s, ctx, key);
    lemma_early_stages_keep(s, ctx, key);
    assert(keeps_focus_invariants(s, focus_after(s, LeafId(1))));
}

/// Outside the assistant and the terminal, with no overlay open and no tab strip holding
/// the keyboard, a plain letter key that the file tree left alone picks the rail view it
/// names: `d` the diff reactor, `v` the verify radar, `r` the trace lens, `t` the timeline
/// scrubber, `m` the memory viewport and `o` the tool orchestra; any other plain letter
/// picks none.
pub proof fn lemma_rail_keys_pick_their_views(s: FocusState, ctx: KeyContext, key: KeyInput, c: char)
    requires
        s.overlay == Overlay::Closed,
        s.tab_strip_focus is None,
        s.focused.0 != 2,
        s.focused.0 != 3,
        key.code == KeyCodeInput::Char(c),
        key.modifiers.is_empty_spec(),
    ensures
        c == 'd' ==> key_step(s, ctx, key, KeyStage::AfterFileTree).1 == act(
            WorkbenchAction::SetRailMode(RailMode::DiffReactor),
        ),
        c == 'v' ==> key_step(s, ctx, key, KeyStage::AfterFileTree).1 == act(
            WorkbenchAction::SetRailMode(RailMode::VerifyRadar),
        ),
        c == 'r' ==> key_step(s, ctx, key, KeyStage::AfterFileTree).1 == act(
            WorkbenchAction::SetRailMode(RailMode::TraceLens),
        ),
        c == 't' ==> key_step(s, ctx, key, KeyStage::AfterFileTree).1 == act(
            WorkbenchAction::SetRailMode(RailMode::TimelineScrubber),
        ),
        c == 'm' ==> key_step(s, ctx, key, KeyStage::AfterFileTree).1 == act(
            WorkbenchAction::SetRailMode(RailMode::MemoryViewport),
        ),
        c == 'o' ==> key_step(s, ctx, key, KeyStage::AfterFileTree).1 == act(
            WorkbenchAction::SetRailMode(RailMode::ToolOrchestra),
        ),
        c != 'd' && c != 'v' && c != 'r' && c != 't' && c != 'm' && c != 'o' ==> !(key_step(
            s,
            ctx,
            key,
            KeyStage::AfterFileTree,
        ).1 matches KeyStep::Act { action: WorkbenchAction::SetRailMode(_) }),
{
}

/// `Alt` with a digit jumps to the pane it numbers: 1 the files, 2 the preview, 3 the
/// assistant and 4 the terminal, whose dock it opens; the jumps to 2, 3 and 4 close any
/// overlay, and any other digit or a key without `Alt` is no jump.
pub proof fn lemma_alt_digits_jump_to_their_panes(s: FocusState, key: KeyInput, c: char)
    requires
        key.code == KeyCodeInput::Char(c),
        key.modifiers.alt,
    ensures
        c == '1' ==> alt_digit(key) == Some('1') && jumped(s, '1').0.focused == LeafId(0),
        c == '2' ==> alt_digit(key) == Some('2') && jumped(s, '2').0.focused == LeafId(1)
            && jumped(s, '2').0.overlay == Overlay::Closed,
        c == '3' ==> alt_digit(key) == Some('3') && jumped(s, '3').0.focused == LeafId(3)
            && jumped(s, '3').0.overlay == Overlay::Closed,
        c == '4' ==> alt_digit(key) == Some('4') && jumped(s, '4').0.focused == LeafId(2)
            && jumped(s, '4').0.overlay == Overlay::Closed && jumped(s, '4').0.terminal_dock_open,
        c != '1' && c != '2' && c != '3' && c != '4' ==> alt_digit(key) is None,
{
}

/// A `Ctrl` letter move goes the way of its arrow, in either case: `h` left, `l` right,
/// `j` down and `k` up. Left from the preview, the terminal or the assistant reaches the
/// files; down from the preview reaches the terminal, and up from the terminal the preview.
pub proof fn lemma_vim_letters_follow_the_arrows(s: FocusState)
    ensures
        vim_direction(KeyCodeInput::Char('h')) == vim_direction(KeyCodeInput::Left),
        vim_direction(KeyCodeInput::Char('H')) == vim_direction(KeyCodeInput::Left),
        vim_direction(KeyCodeInput::Char('l')) == vim_direction(KeyCodeInput::Right),
        vim_direction(KeyCodeInput::Char('L')) == vim_direction(KeyCodeInput::Right),
        vim_direction(KeyCodeInput::Char('j')) == vim_direction(KeyCodeInput::Down),
        vim_direction(KeyCodeInput::Char('J')) == vim_direction(KeyCodeInput::Down),
        vim_direction(KeyCodeInput::Char('k')) == vim_direction(KeyCodeInput::Up),
        vim_direction(KeyCodeInput::Char('K')) == vim_direction(KeyCodeInput::Up),
        (s.focused.0 == 1 || s.focused.0 == 2 || s.focused.0 == 3) ==> (navigated(
            s,
            vim_direction(KeyCodeInput::Left)->0,
        ) matches Some((t, _)) && t.focused == LeafId(0)),
        s.focused.0 == 1 && !s.compact_ui ==> (navigated(s, vim_direction(KeyCodeInput::Down)->0) matches Some(
            (t, _),
        ) && t.focused == LeafId(2)),
        s.focused.0 == 2 && !s.compact_ui ==> (navigated(s, vim_direction(KeyCodeInput::Up)->0) matches Some(
            (t, _),
        ) && t.focused == LeafId(1)),
{
}

/// `Ctrl+k` opens the action deck, `Ctrl+p` quick open and `Ctrl+n` the new-thread
/// prompt, each asking for its list to be filled; without `Alt`, wherever the key gets
/// this far.
pub proof fn lemma_control_keys_open_their_overlays(s: FocusState, ctx: KeyContext, key: KeyInput, c: char)
    requires
        key.code == KeyCodeInput::Char(c),
        key.modifiers.control,
        !key.modifiers.alt,
    ensures
        c == 'k' ==> key_step(s, ctx, key, KeyStage::AfterDiffLens) == (
            FocusState { overlay: Overlay::ActionDeck, ..s },
            act(WorkbenchAction::FillActionDeck),
        ),
        c == 'p' ==> key_step(s, ctx, key, KeyStage::AfterDiffLens) == (
            FocusState { overlay: Overlay::QuickOpen, ..s },
            act(WorkbenchAction::FillQuickOpen),
        ),
        c == 'n' ==> key_step(s, ctx, key, KeyStage::AfterDiffLens) == (
            FocusState { overlay: Overlay::NewThreadPrompt, ..s },
            act(WorkbenchAction::FillNewThreadPrompt),
        ),
{
}

/// On a tab strip that has the keyboard, of the preview (pane 1) or the assistant (pane
/// 3): `Right` activates the next tab and `Left` the previous one, `Delete` and `Ctrl+w`
/// close the active tab, `Ctrl+Shift+w` closes them all, and `Esc` lets go of the strip.
pub proof fn lemma_tab_strip_keys(s: FocusState, ctx: KeyContext, key: KeyInput)
    requires
        s.focused.0 == 1 || s.focused.0 == 3,
        s.tab_strip_focus == Some(s.focused),
    ensures
        key.code == KeyCodeInput::Right ==> tab_strip_keys(s, ctx, key).1 == act(
            WorkbenchAction::TabStrip { leaf: s.focused, command: TabCommand::Cycle { forward: true } },
        ),
        key.code == KeyCodeInput::Left ==> tab_strip_keys(s, ctx, key).1 == act(
            WorkbenchAction::TabStrip { leaf: s.focused, command: TabCommand::Cycle { forward: false } },
        ),
        key.code == KeyCodeInput::Delete ==> tab_strip_keys(s, ctx, key).1 == act(
            WorkbenchAction::TabStrip { leaf: s.focused, command: TabCommand::CloseActive },
        ),
        key.code == KeyCodeInput::Char('w') && key.modifiers.control && !key.modifiers.shift
            ==> tab_strip_keys(s, ctx, key).1 == act(
            WorkbenchAction::TabStrip { leaf: s.focused, command: TabCommand::CloseActive },
        ),
        key.code == KeyCodeInput::Char('w') && key.modifiers.control && key.modifiers.shift
            ==> tab_strip_keys(s, ctx, key).1 == act(
            WorkbenchAction::TabStrip { leaf: s.focused, command: TabCommand::CloseAll },
        ),
        key.code == KeyCodeInput::Esc ==> tab_strip_keys(s, ctx, key) == (
            FocusState { tab_strip_focus: None, ..s },
            finished(KeyFlow::Continue),
        ),
{
}

} // verus!
