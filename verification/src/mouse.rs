//! What the mouse does in the workbench. The caller finds what lies under the pointer
//! (a splitter, a tab, a row, ...) from the drawn layout; the workbench decides from
//! that where the focus goes and what the caller is to do.
use vstd::prelude::*;
use crate::dispatch::keeps_focus_invariants;
use crate::focus::{focus_after, focus_effect, is_left_pane, no_effect, FocusState, TerminalEffect};
use crate::panes::{LeafId, Overlay, SplitterVisualState};

verus! {

/// A part of the drawn workbench that the pointer can be over.
#[derive(Debug, Clone, Copy, PartialEq, Eq, Structural)]
pub enum ClickTarget {
    /// Tab `tab` of the tab strip of `leaf`.
    LeafTab { leaf: LeafId, tab: usize },
    /// The close button of tab `tab` of the tab strip of `leaf`.
    LeafTabClose { leaf: LeafId, tab: usize },
    /// The body of a pane.
    LeafBody(LeafId),
    AssistantFeed,
    AssistantFeedScrollbar,
    /// Link `index` of the assistant's feed.
    AssistantFeedLink(usize),
    AssistantHeader,
    /// Row `index` of the new-thread chooser.
    NewThreadChooserRow(usize),
    PanelTab { leaf: LeafId },
    ComposerInput(LeafId),
    ExplorerRow(usize),
    ExplorerMenu,
    Activity(usize),
    SidebarNewThread,
    SidebarProject(usize),
    SidebarThread(usize),
    SidebarSettings,
    FileDrawerToggle,
    TerminalDrawerToggle,
    /// A part that does nothing on a click.
    Inert,
}

/// What a mouse event asks the caller to do.
#[derive(Debug, Clone, Copy, PartialEq, Eq, Structural)]
pub enum MouseAction {
    Nothing,
    /// Move splitter `index` to the pointer.
    DragSplitter { index: usize },
    /// Activate tab `tab` of the preview (`leaf` 1) or of the assistant (`leaf` 3).
    ActivateTab { leaf: LeafId, tab: usize },
    /// Close tab `tab` of the preview (`leaf` 1) or of the assistant (`leaf` 3).
    CloseTab { leaf: LeafId, tab: usize },
    /// Scroll the assistant's feed to the pointer's row on its scrollbar.
    JumpFeedScrollbar,
    OpenFeedLink { index: usize },
    /// Confirm row `index` of the new-thread chooser.
    ConfirmNewThreadRow { index: usize },
    /// Fill the new-thread prompt, which is now open.
    FillNewThreadPrompt,
    ActivateSidebarProject { index: usize },
    ActivateSidebarThread { index: usize },
    /// Scroll the assistant's feed up or down by a line step.
    ScrollFeed { up: bool },
    /// Move the file tree's selection up or down.
    ScrollFileTree { up: bool },
}

/// The kind of a mouse event, as far as the workbench tells them apart.
#[derive(Debug, Clone, Copy, PartialEq, Eq, Structural)]
pub enum MouseKind {
    Moved,
    /// A move with the left button held.
    LeftDrag,
    LeftDown,
    LeftUp,
    ScrollUp,
    ScrollDown,
    /// Any other button or event.
    Other,
}

/// The pointer's state in the workbench.
#[derive(Debug, Clone, Copy, PartialEq, Eq, Structural)]
pub struct PointerState {
    pub splitter: SplitterVisualState,
    /// The pointer is over the feed's scrollbar.
    pub feed_scrollbar_hovered: bool,
}

/// The state, action and terminal effect after focusing `pane` from `s`.
pub open spec fn focused_on(s: FocusState, pane: LeafId, action: MouseAction) -> (
    FocusState,
    MouseAction,
    TerminalEffect,
) {
    (focus_after(s, pane), action, focus_effect(s, pane))
}

/// A tab action that only the preview's and the assistant's strips have.
pub open spec fn tab_action(leaf: LeafId, action: MouseAction) -> MouseAction {
    if leaf.0 == 1 || leaf.0 == 3 {
        action
    } else {
        MouseAction::Nothing
    }
}

/// What a click on `target` does when no splitter is under the pointer.
pub open spec fn clicked_target(s: FocusState, target: ClickTarget) -> (
    FocusState,
    MouseAction,
    TerminalEffect,
) {
    let released = FocusState { tab_strip_focus: None, ..s };
    match target {
        ClickTarget::LeafTab { leaf, tab } => focused_on(
            FocusState { tab_strip_focus: Some(leaf), ..s },
            leaf,
            tab_action(leaf, MouseAction::ActivateTab { leaf, tab }),
        ),
        ClickTarget::LeafTabClose { leaf, tab } => focused_on(
            s,
            leaf,
            tab_action(leaf, MouseAction::CloseTab { leaf, tab }),
        ),
        ClickTarget::LeafBody(leaf) => focused_on(released, leaf, MouseAction::Nothing),
        ClickTarget::ComposerInput(leaf) => focused_on(released, leaf, MouseAction::Nothing),
        ClickTarget::AssistantFeed => focused_on(released, LeafId(3), MouseAction::Nothing),
        ClickTarget::AssistantFeedScrollbar => focused_on(
            released,
            LeafId(3),
            MouseAction::JumpFeedScrollbar,
        ),
        ClickTarget::AssistantFeedLink(index) => focused_on(
            released,
            LeafId(3),
            MouseAction::OpenFeedLink { index },
        ),
        ClickTarget::AssistantHeader => focused_on(
            released,
            if s.focused.0 == 1 {
                LeafId(1)
            } else {
                LeafId(3)
            },
            MouseAction::Nothing,
        ),
        ClickTarget::NewThreadChooserRow(index) => (
            s,
            MouseAction::ConfirmNewThreadRow { index },
            no_effect(),
        ),
        ClickTarget::PanelTab { leaf } => focused_on(s, leaf, MouseAction::Nothing),
        ClickTarget::ExplorerRow(_) => focused_on(s, LeafId(0), MouseAction::Nothing),
        ClickTarget::ExplorerMenu => focused_on(s, LeafId(0), MouseAction::Nothing),
        ClickTarget::Activity(_) => focused_on(s, LeafId(0), MouseAction::Nothing),
        ClickTarget::SidebarNewThread => (
            FocusState { overlay: Overlay::NewThreadPrompt, ..s },
            MouseAction::FillNewThreadPrompt,
            no_effect(),
        ),
        ClickTarget::SidebarProject(index) => focused_on(
            s,
            LeafId(3),
            MouseAction::ActivateSidebarProject { index },
        ),
        ClickTarget::SidebarThread(index) => focused_on(
            s,
            LeafId(3),
            MouseAction::ActivateSidebarThread { index },
        ),
        ClickTarget::SidebarSettings => (
            FocusState { overlay: Overlay::Help, ..s },
            MouseAction::Nothing,
            no_effect(),
        ),
        ClickTarget::FileDrawerToggle => {
            let b = FocusState { explorer_collapsed: !s.explorer_collapsed, ..s };
            if !b.explorer_collapsed {
                focused_on(b, LeafId(0), MouseAction::Nothing)
            } else {
                (b, MouseAction::Nothing, no_effect())
            }
        },
        ClickTarget::TerminalDrawerToggle => {
            let b = FocusState { terminal_dock_open: !s.terminal_dock_open, ..s };
            if b.terminal_dock_open {
                focused_on(b, LeafId(2), MouseAction::Nothing)
            } else if b.focused.0 == 2 {
                focused_on(b, LeafId(3), MouseAction::Nothing)
            } else {
                (b, MouseAction::Nothing, no_effect())
            }
        },
        ClickTarget::Inert => (s, MouseAction::Nothing, no_effect()),
    }
}

/// What a left click does: it closes help and does nothing else; on a splitter it
/// starts dragging it; on a part of the workbench it acts on that part.
pub open spec fn clicked(
    s: FocusState,
    pointer: PointerState,
    splitter: Option<usize>,
    target: Option<ClickTarget>,
) -> (FocusState, PointerState, MouseAction, TerminalEffect) {
    if s.overlay == Overlay::Help {
        (FocusState { overlay: Overlay::Closed, ..s }, pointer, MouseAction::Nothing, no_effect())
    } else {
        match splitter {
            Some(index) => (
                s,
                PointerState { splitter: SplitterVisualState::Dragging { index }, ..pointer },
                MouseAction::DragSplitter { index },
                no_effect(),
            ),
            None => match target {
                Some(t) => {
                    let (f, a, e) = clicked_target(s, t);
                    (f, pointer, a, e)
                },
                None => (s, pointer, MouseAction::Nothing, no_effect()),
            },
        }
    }
}

/// What a wheel step over `target` does, with no overlay open: over the feed it focuses
/// the assistant and scrolls the feed; over the files it focuses them and moves their
/// selection.
pub open spec fn scrolled(s: FocusState, target: Option<ClickTarget>, up: bool) -> (
    FocusState,
    MouseAction,
    TerminalEffect,
) {
    if s.overlay != Overlay::Closed {
        (s, MouseAction::Nothing, no_effect())
    } else {
        match target {
            Some(ClickTarget::AssistantFeed) => focused_on(s, LeafId(3), MouseAction::ScrollFeed { up }),
            Some(ClickTarget::AssistantFeedScrollbar) => focused_on(
                s,
                LeafId(3),
                MouseAction::ScrollFeed { up },
            ),
            Some(ClickTarget::ExplorerRow(_)) => focused_on(
                s,
                LeafId(0),
                MouseAction::ScrollFileTree { up },
            ),
            Some(ClickTarget::ExplorerMenu) => focused_on(s, LeafId(0), MouseAction::ScrollFileTree { up }),
            _ => (s, MouseAction::Nothing, no_effect()),
        }
    }
}

/// The splitter state the pointer's position gives when no drag is under way.
pub open spec fn hover_state(splitter: Option<usize>) -> SplitterVisualState {
    match splitter {
        Some(index) => SplitterVisualState::Hover { index },
        None => SplitterVisualState::Idle,
    }
}

/// What a mouse event does. `splitter` is the splitter under the pointer and `target`
/// the part of the workbench under it. While help is open only a left click counts, and
/// it closes help. A move drags the splitter being dragged, or updates the hover state;
/// a drag moves the splitter being dragged; releasing the button ends a drag.
pub open spec fn mouse_step(
    s: FocusState,
    pointer: PointerState,
    kind: MouseKind,
    splitter: Option<usize>,
    target: Option<ClickTarget>,
) -> (FocusState, PointerState, MouseAction, TerminalEffect) {
    if s.overlay == Overlay::Help {
        if kind == MouseKind::LeftDown {
            (FocusState { overlay: Overlay::Closed, ..s }, pointer, MouseAction::Nothing, no_effect())
        } else {
            (s, pointer, MouseAction::Nothing, no_effect())
        }
    } else {
        match kind {
            MouseKind::Moved => match pointer.splitter {
                SplitterVisualState::Dragging { index } => (
                    s,
                    pointer,
                    MouseAction::DragSplitter { index },
                    no_effect(),
                ),
                _ => (
                    s,
                    PointerState {
                        splitter: hover_state(splitter),
                        feed_scrollbar_hovered: target == Some(ClickTarget::AssistantFeedScrollbar),
                    },
                    MouseAction::Nothing,
                    no_effect(),
                ),
            },
            MouseKind::LeftDrag => match pointer.splitter {
                SplitterVisualState::Dragging { index } => (
                    s,
                    pointer,
                    MouseAction::DragSplitter { index },
                    no_effect(),
                ),
                _ => (s, pointer, MouseAction::Nothing, no_effect()),
            },
            MouseKind::LeftDown => clicked(s, pointer, splitter, target),
            MouseKind::ScrollUp => {
                let (f, a, e) = scrolled(s, target, true);
                (f, pointer, a, e)
            },
            MouseKind::ScrollDown => {
                let (f, a, e) = scrolled(s, target, false);
                (f, pointer, a, e)
            },
            MouseKind::LeftUp => match pointer.splitter {
                SplitterVisualState::Dragging { .. } => (
                    s,
                    PointerState { splitter: hover_state(splitter), ..pointer },
                    MouseAction::Nothing,
                    no_effect(),
                ),
                _ => (s, pointer, MouseAction::Nothing, no_effect()),
            },
            MouseKind::Other => (s, pointer, MouseAction::Nothing, no_effect()),
        }
    }
}

/// No terminal effect.
fn quiet() -> (r: TerminalEffect)
    ensures
        r == no_effect(),
{
    TerminalEffect { enter_capture: false, enter_navigation: false, focus_notice: None }
}

/// The splitter state the pointer's position gives when no drag is under way.
fn hover_for(splitter: Option<usize>) -> (r: SplitterVisualState)
    ensures
        r == hover_state(splitter),
{
    match splitter {
        Some(index) => SplitterVisualState::Hover { index },
        None => SplitterVisualState::Idle,
    }
}

impl FocusState {
    /// Focuses `pane` and hands back `action` with what the focus change asks of the
    /// terminal.
    fn focus_then(&mut self, pane: LeafId, action: MouseAction) -> (r: (MouseAction, TerminalEffect))
        ensures
            (*final(self), r.0, r.1) == focused_on(*old(self), pane, action),
    {
        let e = self.set_focus(pane);
        (action, e)
    }

    /// A click on `target`, with no splitter under the pointer.
    pub fn click_target(&mut self, target: ClickTarget) -> (r: (MouseAction, TerminalEffect))
        ensures
            (*final(self), r.0, r.1) == clicked_target(*old(self), target),
    {
        match target {
            ClickTarget::LeafTab { leaf, tab } => {
                self.tab_strip_focus = Some(leaf);
                let action = if leaf.0 == 1 || leaf.0 == 3 {
                    MouseAction::ActivateTab { leaf, tab }
                } else {
                    MouseAction::Nothing
                };
                self.focus_then(leaf, action)
            },
            ClickTarget::LeafTabClose { leaf, tab } => {
                let action = if leaf.0 == 1 || leaf.0 == 3 {
                    MouseAction::CloseTab { leaf, tab }
                } else {
                    MouseAction::Nothing
                };
                self.focus_then(leaf, action)
            },
            ClickTarget::LeafBody(leaf) => {
                self.tab_strip_focus = None;
                self.focus_then(leaf, MouseAction::Nothing)
            },
            ClickTarget::ComposerInput(leaf) => {
                self.tab_strip_focus = None;
                self.focus_then(leaf, MouseAction::Nothing)
            },
            ClickTarget::AssistantFeed => {
                self.tab_strip_focus = None;
                self.focus_then(LeafId(3), MouseAction::Nothing)
            },
            ClickTarget::AssistantFeedScrollbar => {
                self.tab_strip_focus = None;
                self.focus_then(LeafId(3), MouseAction::JumpFeedScrollbar)
            },
            ClickTarget::AssistantFeedLink(index) => {
                self.tab_strip_focus = None;
                self.focus_then(LeafId(3), MouseAction::OpenFeedLink { index })
            },
            ClickTarget::AssistantHeader => {
                self.tab_strip_focus = None;
                let pane = if self.focused.0 == 1 {
                    LeafId(1)
                } else {
                    LeafId(3)
                };
                self.focus_then(pane, MouseAction::Nothing)
            },
            ClickTarget::NewThreadChooserRow(index) => (
                MouseAction::ConfirmNewThreadRow { index },
                quiet(),
            ),
            ClickTarget::PanelTab { leaf } => self.focus_then(leaf, MouseAction::Nothing),
            ClickTarget::ExplorerRow(_) => self.focus_then(LeafId(0), MouseAction::Nothing),
            ClickTarget::ExplorerMenu => self.focus_then(LeafId(0), MouseAction::Nothing),
            ClickTarget::Activity(_) => self.focus_then(LeafId(0), MouseAction::Nothing),
            ClickTarget::SidebarNewThread => {
                self.overlay = Overlay::NewThreadPrompt;
                (MouseAction::FillNewThreadPrompt, quiet())
            },
            ClickTarget::SidebarProject(index) => self.focus_then(
                LeafId(3),
                MouseAction::ActivateSidebarProject { index },
            ),
            ClickTarget::SidebarThread(index) => self.focus_then(
                LeafId(3),
                MouseAction::ActivateSidebarThread { index },
            ),
            ClickTarget::SidebarSettings => {
                self.overlay = Overlay::Help;
                (MouseAction::Nothing, quiet())
            },
            ClickTarget::FileDrawerToggle => {
                self.explorer_collapsed = !self.explorer_collapsed;
                if !self.explorer_collapsed {
                    self.focus_then(LeafId(0), MouseAction::Nothing)
                } else {
                    (MouseAction::Nothing, quiet())
                }
            },
            ClickTarget::TerminalDrawerToggle => {
                self.terminal_dock_open = !self.terminal_dock_open;
                if self.terminal_dock_open {
                    self.focus_then(LeafId(2), MouseAction::Nothing)
                } else if self.focused.0 == 2 {
                    self.focus_then(LeafId(3), MouseAction::Nothing)
                } else {
                    (MouseAction::Nothing, quiet())
                }
            },
            ClickTarget::Inert => (MouseAction::Nothing, quiet()),
        }
    }

    /// A wheel step over `target`, upwards when `up`.
    pub fn handle_mouse_scroll(&mut self, target: Option<ClickTarget>, up: bool) -> (r: (
        MouseAction,
        TerminalEffect,
    ))
        ensures
            (*final(self), r.0, r.1) == scrolled(*old(self), target, up),
    {
        if self.overlay != Overlay::Closed {
            return (MouseAction::Nothing, quiet());
        }
        match target {
            Some(ClickTarget::AssistantFeed) | Some(ClickTarget::AssistantFeedScrollbar) => {
                self.focus_then(LeafId(3), MouseAction::ScrollFeed { up })
            },
            Some(ClickTarget::ExplorerRow(_)) | Some(ClickTarget::ExplorerMenu) => {
                self.focus_then(LeafId(0), MouseAction::ScrollFileTree { up })
            },
            _ => (MouseAction::Nothing, quiet()),
        }
    }

    /// A left click with `splitter` and `target` under the pointer.
    pub fn handle_mouse_click(
        &mut self,
        pointer: &mut PointerState,
        splitter: Option<usize>,
        target: Option<ClickTarget>,
    ) -> (r: (MouseAction, TerminalEffect))
        ensures
            (*final(self), *final(pointer), r.0, r.1) == clicked(*old(self), *old(pointer), splitter, target),
    {
        if self.overlay == Overlay::Help {
            self.overlay = Overlay::Closed;
            return (MouseAction::Nothing, quiet());
        }
        match splitter {
            Some(index) => {
                pointer.splitter = SplitterVisualState::Dragging { index };
                (MouseAction::DragSplitter { index }, quiet())
            },
            None => match target {
                Some(t) => self.click_target(t),
                None => (MouseAction::Nothing, quiet()),
            },
        }
    }

    /// A mouse event of `kind` with `splitter` and `target` under the pointer.
    pub fn handle_mouse_event(
        &mut self,
        pointer: &mut PointerState,
        kind: MouseKind,
        splitter: Option<usize>,
        target: Option<ClickTarget>,
    ) -> (r: (MouseAction, TerminalEffect))
        ensures
            (*final(self), *final(pointer), r.0, r.1) == mouse_step(
                *old(self),
                *old(pointer),
                kind,
                splitter,
                target,
            ),
    {
        if self.overlay == Overlay::Help {
            if kind == MouseKind::LeftDown {
                self.overlay = Overlay::Closed;
            }
            return (MouseAction::Nothing, quiet());
        }
        match kind {
            MouseKind::Moved => match pointer.splitter {
                SplitterVisualState::Dragging { index } => (MouseAction::DragSplitter { index }, quiet()),
                _ => {
                    pointer.splitter = hover_for(splitter);
                    pointer.feed_scrollbar_hovered = match target {
                        Some(ClickTarget::AssistantFeedScrollbar) => true,
                        _ => false,
                    };
                    (MouseAction::Nothing, quiet())
                },
            },
            MouseKind::LeftDrag => match pointer.splitter {
                SplitterVisualState::Dragging { index } => (MouseAction::DragSplitter { index }, quiet()),
                _ => (MouseAction::Nothing, quiet()),
            },
            MouseKind::LeftDown => self.handle_mouse_click(pointer, splitter, target),
            MouseKind::ScrollUp => self.handle_mouse_scroll(target, true),
            MouseKind::ScrollDown => self.handle_mouse_scroll(target, false),
            MouseKind::LeftUp => {
                match pointer.splitter {
                    SplitterVisualState::Dragging { .. } => {
                        pointer.splitter = hover_for(splitter);
                    },
                    _ => {},
                }
                (MouseAction::Nothing, quiet())
            },
            MouseKind::Other => (MouseAction::Nothing, quiet()),
        }
    }
}

/// Pressing on a splitter, dragging and releasing: the press starts dragging that
/// splitter, every drag moves it, and the release ends the drag.
pub proof fn lemma_splitter_drag_cycle(
    s: FocusState,
    pointer: PointerState,
    index: usize,
    drag_splitter: Option<usize>,
    drag_target: Option<ClickTarget>,
    release_splitter: Option<usize>,
    release_target: Option<ClickTarget>,
)
    requires
        s.overlay != Overlay::Help,
    ensures
        ({
            let (s1, p1, a1, _) = mouse_step(s, pointer, MouseKind::LeftDown, Some(index), None);
            let (s2, p2, a2, _) = mouse_step(s1, p1, MouseKind::LeftDrag, drag_splitter, drag_target);
            let (s3, p3, a3, _) = mouse_step(s2, p2, MouseKind::LeftUp, release_splitter, release_target);
            &&& s1 == s && s2 == s && s3 == s
            &&& a1 == MouseAction::DragSplitter { index }
            &&& a2 == MouseAction::DragSplitter { index }
            &&& p3.splitter !is Dragging
            &&& a3 == MouseAction::Nothing
        }),
{
}

/// Every mouse event keeps the last pane left of the files among the preview, the
/// terminal and the assistant, keeps the layout, and in a compact layout keeps the focus
/// off the agent pane.
pub proof fn lemma_mouse_keeps_focus_invariants(
    s: FocusState,
    pointer: PointerState,
    kind: MouseKind,
    splitter: Option<usize>,
    target: Option<ClickTarget>,
)
    requires
        is_left_pane(s.last_left_pane),
        s.compact_ui ==> s.focused.0 != 4,
    ensures
        keeps_focus_invariants(s, mouse_step(s, pointer, kind, splitter, target).0),
{
    assert(forall|b: FocusState, p: LeafId|
        b.last_left_pane == s.last_left_pane && b.compact_ui == s.compact_ui ==> #[trigger] keeps_focus_invariants(s, focus_after(b, p)));
}

} // verus!
