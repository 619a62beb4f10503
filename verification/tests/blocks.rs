use quorp_tui::blocks::AssistantTone;
use quorp_tui::chat::ChatMessage;
use quorp_tui::highlight::HighlightAssets;
use quorp_tui::thread::ChatSession;

fn session() -> ChatSession {
    let mut s = ChatSession::new("Chat".to_string());
    s.messages.push(ChatMessage::User("run the tests".to_string()));
    s.messages.push(ChatMessage::Assistant(
        "Sure.<think>check first</think><run_command timeout_ms=\"5000\">cargo test</run_command>```rust\nfn main() {}\n```<write_file path=\"notes.md\">hi</write_file>".to_string(),
    ));
    s
}

#[test]
fn feed_blocks_follow_the_conversation() {
    let assets = HighlightAssets::load().expect("bundled highlighting theme");
    let mut s = session();
    s.last_error = Some("stream failed".to_string());
    s.running_command = true;
    s.command_output_lines = vec!["running 3 tests".to_string(), "ok".to_string()];
    let blocks = s.shell_transcript_blocks(&assets);
    let roles: Vec<&str> = blocks.iter().map(|b| b.role.as_str()).collect();
    assert_eq!(
        roles,
        vec![
            "User:", "Assistant:", "Reasoning:", "Validation:", "Assistant:", "Files:", "Error:",
            "Command:", "Output:", "Output:"
        ]
    );
    assert_eq!(blocks[0].text, "run the tests");
    assert_eq!(blocks[0].tone, AssistantTone::Muted);
    assert!(blocks[0].rich_lines.is_none());
    assert!(blocks[1].text.contains("Sure."));
    assert!(blocks[1].rich_lines.is_some());
    assert!(blocks[2].text.contains("check first"));
    assert_eq!(blocks[3].tone, AssistantTone::Success);
    assert!(blocks[3].text.contains("cargo test"));
    assert!(blocks[4].text.contains("fn main"));
    assert!(!blocks[4].text.contains("```"));
    assert!(blocks[5].text.contains("notes.md"));
    assert_eq!(blocks[6].text, "stream failed");
    assert_eq!(blocks[6].tone, AssistantTone::Error);
    assert_eq!(blocks[7].text, "Command running");
    assert_eq!(blocks[8].text, "running 3 tests");
    assert_eq!(blocks[9].text, "ok");
}

#[test]
fn running_command_block_carries_its_name() {
    let assets = HighlightAssets::load().expect("bundled highlighting theme");
    let mut s = ChatSession::new("Chat".to_string());
    s.running_command = true;
    s.running_command_name = Some("Run: echo hi".to_string());
    let blocks = s.shell_transcript_blocks(&assets);
    assert_eq!(blocks.len(), 1);
    assert_eq!(blocks[0].role, "Command:");
    assert_eq!(blocks[0].text, "Run: echo hi");
    assert!(ChatSession::new("Chat".to_string()).shell_transcript_blocks(&assets).is_empty());
}

#[test]
fn transcript_metrics_count_messages_segments_and_code() {
    let s = session();
    assert_eq!(s.transcript_metrics(), (2, 5, 1));
    assert_eq!(ChatSession::new("Chat".to_string()).transcript_metrics(), (0, 0, 0));
}
