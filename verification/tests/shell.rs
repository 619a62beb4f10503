use quorp_tui::feed::FeedScroll;
use quorp_tui::panes::LeafId;
use quorp_tui::shell::{
    handle_resize, lock_after_drag, narrower_feed_width, shell_focus, split_ratios, ShellFocus,
};

fn feed(scroll_top: usize, follow_latest: bool) -> FeedScroll {
    FeedScroll { scroll_top, follow_latest, total_lines: 40, viewport_lines: 10 }
}

#[test]
fn focus_shows_on_the_focused_part() {
    assert_eq!(shell_focus(LeafId(0), false), ShellFocus::Files);
    assert_eq!(shell_focus(LeafId(1), false), ShellFocus::Main);
    assert_eq!(shell_focus(LeafId(2), false), ShellFocus::Terminal);
    assert_eq!(shell_focus(LeafId(3), false), ShellFocus::Feed);
    assert_eq!(shell_focus(LeafId(4), false), ShellFocus::Feed);
    assert_eq!(shell_focus(LeafId(2), true), ShellFocus::Overlay);
}

#[test]
fn overflowing_feed_is_laid_out_one_column_narrower() {
    assert_eq!(narrower_feed_width(80, 30, 20), Some(79));
    assert_eq!(narrower_feed_width(80, 20, 20), None);
    assert_eq!(narrower_feed_width(1, 30, 20), None);
}

#[test]
fn feed_layout_and_content_changes_keep_the_scroll_in_the_feed() {
    let mut f = feed(35, false);
    f.set_layout(20, 0);
    assert_eq!((f.total_lines, f.viewport_lines, f.scroll_top), (20, 1, 19));
    let mut f = feed(5, false);
    let mut link = Some(2);
    f.content_changed(&mut link, true);
    assert_eq!(link, None);
    assert!(f.follow_latest);
    assert_eq!(f.scroll_top, 30);
}

#[test]
fn resize_lets_go_of_locked_ratios() {
    let mut lock = lock_after_drag((5000, 6000), true, 4200);
    assert_eq!(lock, Some((4200, 6000)));
    assert_eq!(lock_after_drag((5000, 6000), false, 4200), Some((5000, 4200)));
    assert_eq!(split_ratios(lock, (5000, 5000)), (4200, 6000));
    let mut f = feed(5, false);
    let mut link = Some(1);
    handle_resize(&mut lock, &mut f, &mut link);
    assert_eq!(lock, None);
    assert_eq!(link, None);
    assert_eq!(f.scroll_top, 5);
    assert!(!f.follow_latest);
    assert_eq!(split_ratios(lock, (5000, 5000)), (5000, 5000));
}
