use quorp_tui::panes::{LeafId, Overlay, PaneExt, SplitterVisualState};
use quorp_tui::pane;

#[test]
fn pane_next_prev_cycles() {
    let mut p = pane::editor_pane();
    for _ in 0..4 {
        p = p.next();
    }
    assert_eq!(p, pane::editor_pane());

    let mut p = pane::editor_pane();
    for _ in 0..4 {
        p = p.prev();
    }
    assert_eq!(p, pane::editor_pane());
}

#[test]
fn pane_labels() {
    assert_eq!(pane::display_label(pane::editor_pane()), "Preview");
    assert_eq!(pane::display_label(pane::terminal()), "Terminal");
    assert_eq!(pane::chat().display_label(), "Assistant");
    assert_eq!(pane::agent().display_label(), "Assistant");
    assert_eq!(pane::file_tree().display_label(), "Files");
    assert_eq!(LeafId(9).display_label(), "Unknown");
}

#[test]
fn tab_order_and_agent_pane() {
    assert_eq!(pane::next(pane::editor_pane()), pane::terminal());
    assert_eq!(pane::next(pane::terminal()), pane::chat());
    assert_eq!(pane::next(pane::chat()), pane::file_tree());
    assert_eq!(pane::next(pane::file_tree()), pane::editor_pane());
    assert_eq!(pane::next(pane::agent()), pane::file_tree());
    assert_eq!(pane::prev(pane::agent()), pane::chat());
    assert_eq!(pane::prev(pane::next(pane::agent())), pane::chat());
    assert_eq!(pane::next(LeafId(7)), LeafId(7));
    assert_eq!(pane::prev(LeafId(7)), LeafId(7));
}

#[test]
fn overlays_and_splitters() {
    assert_eq!(Overlay::default(), Overlay::Closed);
    assert!(!Overlay::Closed.is_active());
    assert!(Overlay::Help.is_active());
    assert!(Overlay::Help.is_help());
    assert!(!Overlay::QuickOpen.is_help());
    assert_eq!(SplitterVisualState::default(), SplitterVisualState::Idle);
    assert_ne!(SplitterVisualState::Hover { index: 1 }, SplitterVisualState::Dragging { index: 1 });
}
