use quorp_tui::focus::FocusState;
use quorp_tui::mouse::{ClickTarget, MouseAction, MouseKind, PointerState};
use quorp_tui::panes::{LeafId, Overlay, SplitterVisualState};

fn state(focused: usize) -> FocusState {
    FocusState {
        focused: LeafId(focused),
        tab_strip_focus: None,
        compact_ui: false,
        last_left_pane: LeafId(1),
        right_pane: LeafId(3),
        overlay: Overlay::Closed,
        explorer_collapsed: false,
        terminal_dock_open: true,
    }
}

fn pointer() -> PointerState {
    PointerState { splitter: SplitterVisualState::Idle, feed_scrollbar_hovered: false }
}

// The explorer, the centre (the assistant's feed) and the dock (the terminal's body),
// as the drawn layout reports them under the pointer.
#[test]
fn mouse_click_focuses_panes() {
    let mut s = state(3);
    s.explorer_collapsed = false;
    s.terminal_dock_open = true;
    let mut p = pointer();
    s.handle_mouse_click(&mut p, None, Some(ClickTarget::ExplorerRow(2)));
    assert_eq!(s.focused, LeafId(0));
    s.handle_mouse_click(&mut p, None, Some(ClickTarget::AssistantFeed));
    assert_eq!(s.focused, LeafId(3));
    let (_, effect) = s.handle_mouse_click(&mut p, None, Some(ClickTarget::LeafBody(LeafId(2))));
    assert_eq!(s.focused, LeafId(2));
    assert!(effect.enter_capture);
    assert_eq!(effect.focus_notice, Some(true));
}

#[test]
fn mouse_click_dismisses_help() {
    let mut s = state(3);
    s.overlay = Overlay::Help;
    let mut p = pointer();
    s.handle_mouse_click(&mut p, None, Some(ClickTarget::SidebarNewThread));
    assert_eq!(s.overlay, Overlay::Closed);
}

#[test]
fn click_with_help_open_does_nothing_else() {
    let mut s = state(3);
    s.overlay = Overlay::Help;
    let mut p = pointer();
    let (action, _) = s.handle_mouse_click(&mut p, Some(0), Some(ClickTarget::LeafBody(LeafId(1))));
    assert_eq!(action, MouseAction::Nothing);
    assert_eq!(s.overlay, Overlay::Closed);
    assert_eq!(s.focused, LeafId(3));
    assert_eq!(p, pointer());
}

#[test]
fn tab_clicks_work_tabs_and_take_the_strip() {
    let mut s = state(1);
    let mut p = pointer();
    let (action, _) = s.handle_mouse_click(&mut p, None, Some(ClickTarget::LeafTab { leaf: LeafId(3), tab: 2 }));
    assert_eq!(action, MouseAction::ActivateTab { leaf: LeafId(3), tab: 2 });
    assert_eq!(s.focused, LeafId(3));
    assert_eq!(s.tab_strip_focus, Some(LeafId(3)));
    let (action, _) = s.handle_mouse_click(&mut p, None, Some(ClickTarget::LeafTabClose { leaf: LeafId(1), tab: 0 }));
    assert_eq!(action, MouseAction::CloseTab { leaf: LeafId(1), tab: 0 });
    assert_eq!(s.focused, LeafId(1));
    assert_eq!(s.tab_strip_focus, None);
    let (action, _) = s.handle_mouse_click(&mut p, None, Some(ClickTarget::LeafTab { leaf: LeafId(4), tab: 0 }));
    assert_eq!(action, MouseAction::Nothing);
    assert_eq!(s.focused, LeafId(4));
}

#[test]
fn splitter_press_drag_release() {
    let mut s = state(1);
    let mut p = pointer();
    let (action, _) = s.handle_mouse_event(&mut p, MouseKind::Moved, Some(1), None);
    assert_eq!(action, MouseAction::Nothing);
    assert_eq!(p.splitter, SplitterVisualState::Hover { index: 1 });
    let (action, _) = s.handle_mouse_event(&mut p, MouseKind::LeftDown, Some(1), None);
    assert_eq!(action, MouseAction::DragSplitter { index: 1 });
    assert_eq!(p.splitter, SplitterVisualState::Dragging { index: 1 });
    let (action, _) = s.handle_mouse_event(&mut p, MouseKind::LeftDrag, None, None);
    assert_eq!(action, MouseAction::DragSplitter { index: 1 });
    let (action, _) = s.handle_mouse_event(&mut p, MouseKind::Moved, None, None);
    assert_eq!(action, MouseAction::DragSplitter { index: 1 });
    s.handle_mouse_event(&mut p, MouseKind::LeftUp, None, Some(ClickTarget::AssistantFeedScrollbar));
    assert_eq!(p.splitter, SplitterVisualState::Idle);
    s.handle_mouse_event(&mut p, MouseKind::Moved, None, Some(ClickTarget::AssistantFeedScrollbar));
    assert!(p.feed_scrollbar_hovered);
    assert_eq!(s.focused, LeafId(1));
}

#[test]
fn wheel_scrolls_the_part_under_the_pointer() {
    let mut s = state(1);
    let mut p = pointer();
    let (action, _) = s.handle_mouse_event(&mut p, MouseKind::ScrollUp, None, Some(ClickTarget::AssistantFeed));
    assert_eq!(action, MouseAction::ScrollFeed { up: true });
    assert_eq!(s.focused, LeafId(3));
    let (action, _) = s.handle_mouse_event(&mut p, MouseKind::ScrollDown, None, Some(ClickTarget::ExplorerMenu));
    assert_eq!(action, MouseAction::ScrollFileTree { up: false });
    assert_eq!(s.focused, LeafId(0));
    let (action, _) = s.handle_mouse_event(&mut p, MouseKind::ScrollDown, None, Some(ClickTarget::LeafBody(LeafId(2))));
    assert_eq!(action, MouseAction::Nothing);
    s.overlay = Overlay::QuickOpen;
    let (action, _) = s.handle_mouse_event(&mut p, MouseKind::ScrollDown, None, Some(ClickTarget::AssistantFeed));
    assert_eq!(action, MouseAction::Nothing);
    assert_eq!(s.focused, LeafId(0));
}

#[test]
fn drawer_toggles_and_sidebar() {
    let mut s = state(2);
    s.handle_mouse_click(&mut pointer(), None, Some(ClickTarget::TerminalDrawerToggle));
    assert!(!s.terminal_dock_open);
    assert_eq!(s.focused, LeafId(3));
    s.explorer_collapsed = true;
    s.handle_mouse_click(&mut pointer(), None, Some(ClickTarget::FileDrawerToggle));
    assert!(!s.explorer_collapsed);
    assert_eq!(s.focused, LeafId(0));
    let (action, _) = s.handle_mouse_click(&mut pointer(), None, Some(ClickTarget::SidebarThread(4)));
    assert_eq!(action, MouseAction::ActivateSidebarThread { index: 4 });
    assert_eq!(s.focused, LeafId(3));
    let (action, _) = s.handle_mouse_click(&mut pointer(), None, Some(ClickTarget::SidebarNewThread));
    assert_eq!(action, MouseAction::FillNewThreadPrompt);
    assert_eq!(s.overlay, Overlay::NewThreadPrompt);
    s.overlay = Overlay::Closed;
    s.handle_mouse_click(&mut pointer(), None, Some(ClickTarget::SidebarSettings));
    assert_eq!(s.overlay, Overlay::Help);
}
