use quorp_tui::blocks::{AssistantBlock, AssistantTone};
use quorp_tui::feed_items::{shell_feed_item, shell_feed_items, FeedItemTone};

fn block(role: &str, text: &str, tone: AssistantTone) -> AssistantBlock {
    AssistantBlock { role: role.to_string(), text: text.to_string(), tone, rich_lines: None }
}

#[test]
fn roles_give_their_own_tones() {
    let cases = [
        ("User:", FeedItemTone::User),
        ("Reasoning:", FeedItemTone::Reasoning),
        ("Tool:", FeedItemTone::Tool),
        ("Command:", FeedItemTone::Command),
        ("Validation:", FeedItemTone::Validation),
        ("Files:", FeedItemTone::FileChange),
        ("Status:", FeedItemTone::Warning),
        ("Output:", FeedItemTone::Muted),
        ("Error:", FeedItemTone::Error),
    ];
    for (role, tone) in cases {
        let item = shell_feed_item(block(role, "x", AssistantTone::Success));
        assert_eq!(item.tone, tone, "{role}");
        assert_eq!(item.title, role.trim_end_matches(':'));
    }
}

#[test]
fn other_roles_take_the_block_tone() {
    let tones = [
        (AssistantTone::Normal, FeedItemTone::Assistant),
        (AssistantTone::Muted, FeedItemTone::Muted),
        (AssistantTone::Error, FeedItemTone::Error),
        (AssistantTone::Success, FeedItemTone::Success),
    ];
    for (tone, expected) in tones {
        let item = shell_feed_item(block("Assistant:", "hi", tone));
        assert_eq!(item.title, "Assistant");
        assert_eq!(item.tone, expected);
    }
}

#[test]
fn title_loses_every_trailing_colon() {
    let item = shell_feed_item(block("User::", "a", AssistantTone::Normal));
    assert_eq!(item.title, "User");
    assert_eq!(item.tone, FeedItemTone::User);
}

#[test]
fn text_is_split_as_str_lines() {
    let text = "one\r\ntwo\n\nthree\n";
    let item = shell_feed_item(block("Assistant:", text, AssistantTone::Normal));
    let expected: Vec<String> = text.lines().map(ToOwned::to_owned).collect();
    assert_eq!(item.lines, expected);
    assert_eq!(item.lines, vec!["one", "two", "", "three"]);
    let empty = shell_feed_item(block("Assistant:", "", AssistantTone::Normal));
    assert!(empty.lines.is_empty());
}

#[test]
fn empty_feed_shows_the_prompt() {
    let items = shell_feed_items(Vec::new(), &Vec::new(), None);
    assert_eq!(items.len(), 1);
    assert_eq!(items[0].title, "Assistant");
    assert_eq!(
        items[0].lines,
        vec!["Ask about the current file, run a command, or request a summary."]
    );
    assert_eq!(items[0].tone, FeedItemTone::Muted);
    assert!(items[0].rich_lines.is_none());
}

#[test]
fn last_status_line_closes_the_feed() {
    let blocks = vec![
        block("User:", "Explain startup flow", AssistantTone::Normal),
        block("Assistant:", "Quorp starts the runtime.", AssistantTone::Normal),
    ];
    let status = vec!["loading".to_string(), "ready".to_string()];
    let items = shell_feed_items(blocks, &status, None);
    assert_eq!(items.len(), 3);
    assert_eq!(items[0].title, "User");
    assert_eq!(items[0].tone, FeedItemTone::User);
    assert_eq!(items[1].title, "Assistant");
    assert_eq!(items[1].tone, FeedItemTone::Assistant);
    assert_eq!(items[2].title, "Status");
    assert_eq!(items[2].lines, vec!["ready"]);
    assert_eq!(items[2].tone, FeedItemTone::Warning);
}

#[test]
fn status_alone_replaces_the_prompt() {
    let items = shell_feed_items(Vec::new(), &vec!["working".to_string()], None);
    assert_eq!(items.len(), 1);
    assert_eq!(items[0].title, "Status");
    assert_eq!(items[0].lines, vec!["working"]);
}

#[test]
fn preview_focus_shows_only_the_preview() {
    let blocks = vec![block("User:", "hello", AssistantTone::Normal)];
    let preview = ("src/main.rs".to_string(), vec!["fn main() {}".to_string()]);
    let items = shell_feed_items(blocks, &vec!["ready".to_string()], Some(preview));
    assert_eq!(items.len(), 1);
    assert_eq!(items[0].title, "src/main.rs");
    assert_eq!(items[0].lines, vec!["fn main() {}"]);
    assert_eq!(items[0].tone, FeedItemTone::Muted);
    assert!(items[0].rich_lines.is_none());
}
