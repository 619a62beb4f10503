use quorp_tui::engage::{
    move_active_assistant_feed_link, move_active_engage_target, set_default_active_assistant_feed_link,
};

#[test]
fn feed_link_moves_through_visible_links() {
    // Links on rows 2, 5, 9, 14 with the window on rows 4..12: links 1 and 2 are visible.
    let rows = vec![2usize, 5, 9, 14];
    assert_eq!(move_active_assistant_feed_link(&rows, 4, 8, None, 1), Some(2));
    assert_eq!(move_active_assistant_feed_link(&rows, 4, 8, Some(1), 1), Some(2));
    assert_eq!(move_active_assistant_feed_link(&rows, 4, 8, Some(2), 1), Some(2));
    assert_eq!(move_active_assistant_feed_link(&rows, 4, 8, Some(2), -1), Some(1));
    assert_eq!(move_active_assistant_feed_link(&rows, 4, 8, Some(1), -1), Some(1));
    assert_eq!(move_active_assistant_feed_link(&rows, 4, 8, None, -1), Some(1));
    assert_eq!(move_active_assistant_feed_link(&rows, 4, 8, Some(3), -1), Some(1));
    assert_eq!(move_active_assistant_feed_link(&rows, 20, 8, Some(3), 1), None);
    assert_eq!(move_active_assistant_feed_link(&rows, 8, 2, Some(0), -1), Some(2));
    assert_eq!(move_active_assistant_feed_link(&rows, 10, usize::MAX, None, 1), Some(3));
}

#[test]
fn default_feed_link_keeps_a_visible_active_link() {
    let rows = vec![2usize, 5, 9, 14];
    assert_eq!(set_default_active_assistant_feed_link(&rows, 4, 8, Some(2)), Some(2));
    assert_eq!(set_default_active_assistant_feed_link(&rows, 4, 8, Some(3)), Some(1));
    assert_eq!(set_default_active_assistant_feed_link(&rows, 4, 8, Some(7)), Some(1));
    assert_eq!(set_default_active_assistant_feed_link(&rows, 4, 8, None), Some(1));
    assert_eq!(set_default_active_assistant_feed_link(&rows, 15, 8, Some(0)), None);
    assert_eq!(set_default_active_assistant_feed_link(&Vec::new(), 0, 8, Some(0)), None);
}

#[test]
fn engage_target_moves_and_stops_at_the_ends() {
    let keys = vec!["file:a.rs".to_string(), "diff:b.rs".to_string(), "cmd:test".to_string()];
    assert_eq!(move_active_engage_target(&keys, None, 1), Some(0));
    assert_eq!(move_active_engage_target(&keys, None, -1), Some(2));
    assert_eq!(move_active_engage_target(&keys, Some("diff:b.rs"), 1), Some(2));
    assert_eq!(move_active_engage_target(&keys, Some("diff:b.rs"), -1), Some(0));
    assert_eq!(move_active_engage_target(&keys, Some("cmd:test"), 1), Some(2));
    assert_eq!(move_active_engage_target(&keys, Some("file:a.rs"), -1), Some(0));
    assert_eq!(move_active_engage_target(&keys, Some("gone"), -1), Some(2));
    assert_eq!(move_active_engage_target(&Vec::new(), Some("gone"), 1), None);
}
