use quorp_tui::tabs::ChatSessions;
use quorp_tui::actions::{AgentAction, PendingCommand, PersistedPendingCommand, ValidationPlan};
use quorp_tui::chat::{
    active_mention_token, char_byte_index, char_index_for_byte, clamp_mention_scroll,
    compaction_policy_label, cycle_index, is_validation_command, parse_command_timeout,
    parse_compaction_command, select_or_insert_model, title_from_user_message, ChatMessage,
    PersistedChatMessage, PromptCompactionPolicy,
};
use quorp_tui::patch::{collect_patch_touched_paths, summarize_apply_patch_confirmation};
use quorp_tui::thread::{
    model_index_for_thread, trim_history, AgentMode, ChatSession, PersistedChatThreadSnapshot,
};

fn session_round_trip(session: &ChatSession) -> ChatSession {
    let snapshot = session.export_thread_snapshot("qwen3.5-35b-a3b");
    ChatSession::from_thread_snapshot(snapshot)
}

#[test]
fn legacy_pending_command_snapshot_compatibility_round_trip() {
    let legacy = PersistedPendingCommand {
        kind: None,
        command: "echo hello".to_string(),
        timeout_ms: 12_000,
        query: None,
        limit: None,
        path: None,
        read_start_line: None,
        read_end_line: None,
        content: None,
        patch: None,
        search_block: None,
        replace_block: None,
        mcp_server_name: None,
        mcp_tool_name: None,
        mcp_arguments: None,
        validation_plan: None,
    };
    let snapshot = PersistedChatThreadSnapshot {
        title: "Chat 1".to_string(),
        messages: vec![PersistedChatMessage::User("hi".to_string())],
        transcript_scroll: 0,
        stick_to_bottom: true,
        input: String::new(),
        last_error: None,
        pending_command: Some(legacy),
        pending_commands: Vec::new(),
        running_command: false,
        running_command_name: None,
        command_output_lines: Vec::new(),
        model_id: "qwen3.5-35b-a3b".to_string(),
        mode: AgentMode::Act,
        prompt_compaction_policy: None,
    };
    let session = ChatSession::from_thread_snapshot(snapshot);
    match session.pending_commands.first().cloned().expect("legacy pending") {
        PendingCommand { action: AgentAction::RunCommand { command, timeout_ms } } => {
            assert_eq!(command, "echo hello");
            assert_eq!(timeout_ms, 12_000);
        }
        _ => panic!("legacy pending did not round-trip as run command"),
    };

    let modern = PendingCommand::new(AgentAction::ReadFile {
        path: "src/main.rs".to_string(),
        range: None,
    });
    let persisted = modern.to_persisted();
    let restored = PendingCommand::from_persisted(persisted).expect("restored");
    assert!(matches!(
        restored,
        PendingCommand {
            action: AgentAction::ReadFile { path, range }
        } if path == "src/main.rs" && range.is_none()
    ));

    let search = PendingCommand::new(AgentAction::SearchText {
        query: "AgentTurnResponse".to_string(),
        limit: 4,
    });
    let persisted = search.to_persisted();
    let restored = PendingCommand::from_persisted(persisted).expect("restored search");
    assert!(matches!(
        restored,
        PendingCommand {
            action: AgentAction::SearchText { query, limit }
        } if query == "AgentTurnResponse" && limit == 4
    ));
}

#[test]
fn thread_snapshot_round_trip_preserves_pending_command_queue() {
    let mut session = ChatSession::new("Chat 1".to_string());
    session.messages = vec![ChatMessage::User("u".to_string())];
    session.pending_commands = vec![
        PendingCommand::new(AgentAction::WriteFile {
            path: "README.md".to_string(),
            content: "first".to_string(),
        }),
        PendingCommand::new(AgentAction::RunValidation {
            plan: ValidationPlan { encoded: "{}".to_string() },
        }),
    ];

    let pane = ChatSessions::new(session);
    let snapshot = pane.export_active_thread_snapshot("qwen3.5-35b-a3b");
    let mut restored_pane = ChatSessions::new(ChatSession::new("Chat 1".to_string()));
    restored_pane.import_thread_snapshot(snapshot);
    assert_eq!(restored_pane.sessions.len(), 1);
    assert_eq!(restored_pane.active, 0);
    let restored = &restored_pane.sessions[0];
    assert!(!restored.streaming);

    assert_eq!(restored.pending_commands.len(), 2);
    assert!(matches!(
        restored.pending_commands.first(),
        Some(PendingCommand {
            action: AgentAction::WriteFile { path, .. }
        }) if path == "README.md"
    ));
    assert!(matches!(
        restored.pending_commands.get(1),
        Some(PendingCommand { action: AgentAction::RunValidation { .. } })
    ));
}

#[test]
fn thread_snapshot_round_trip_preserves_prompt_compaction_policy() {
    let mut session = ChatSession::new("Chat 1".to_string());
    session.prompt_compaction_policy = Some(PromptCompactionPolicy::Last6Ledger768);

    let restored = session_round_trip(&session);

    assert_eq!(restored.prompt_compaction_policy, Some(PromptCompactionPolicy::Last6Ledger768));
}

fn last_assistant_text(session: &ChatSession) -> Option<String> {
    session.messages.iter().rev().find_map(|message| match message {
        ChatMessage::Assistant(text) => Some(text.clone()),
        _ => None,
    })
}

#[test]
fn compaction_command_updates_active_session_locally() {
    let mut session = ChatSession::new("Chat 1".to_string());
    session.input = "/compaction last6-ledger768".to_string();

    assert!(session.submit_compaction_input());

    assert_eq!(session.prompt_compaction_policy, Some(PromptCompactionPolicy::Last6Ledger768));
    assert!(last_assistant_text(&session)
        .is_some_and(|text| text.contains("Compaction policy set to last6-ledger768")));

    session.input = "/compaction default".to_string();
    assert!(session.submit_compaction_input());

    assert_eq!(session.prompt_compaction_policy, None);
    assert!(last_assistant_text(&session)
        .is_some_and(|text| text.contains("Compaction policy set to default")));
}

#[test]
fn multi_file_apply_patch_confirmation_lists_touched_files() {
    let patch = [
        "--- a/src/main.rs\n",
        "+++ b/src/main.rs\n",
        "@@ -1 +1 @@\n",
        "-old\n",
        "+new\n",
        "--- a/README.md\n",
        "+++ b/README.md\n",
        "@@ -1 +1 @@\n",
        "-before\n",
        "+after\n",
    ]
    .concat();
    let patch = patch.as_str();
    let rendered = summarize_apply_patch_confirmation("placeholder.txt", patch);
    assert!(rendered.contains("apply_patch 2 files: src/main.rs, README.md"));
    assert!(!rendered.contains("placeholder.txt"));
}

#[test]
fn round_trip_keeps_conversation_and_moves_cursor_to_end() {
    let mut session = ChatSession::new("Plans".to_string());
    session.messages =
        vec![ChatMessage::User("hello".to_string()), ChatMessage::Assistant("hi".to_string())];
    session.input = "draft é".to_string();
    session.cursor_char = 2;
    session.transcript_scroll = 7;
    session.stick_to_bottom = false;
    session.last_error = Some("boom".to_string());
    session.running_command = true;
    session.running_command_name = Some("cargo test".to_string());
    session.command_output_lines = vec!["line 1".to_string()];
    session.mode = AgentMode::Plan;
    session.streaming = true;
    let restored = session_round_trip(&session);
    assert_eq!(restored.title, "Plans");
    assert_eq!(restored.messages, session.messages);
    assert_eq!(restored.input, "draft é");
    assert_eq!(restored.cursor_char, 7);
    assert_eq!(restored.transcript_scroll, 7);
    assert!(!restored.stick_to_bottom);
    assert_eq!(restored.last_error.as_deref(), Some("boom"));
    assert!(restored.running_command);
    assert_eq!(restored.running_command_name.as_deref(), Some("cargo test"));
    assert_eq!(restored.command_output_lines, vec!["line 1".to_string()]);
    assert_eq!(restored.mode, AgentMode::Plan);
    assert!(!restored.streaming);
}

#[test]
fn snapshot_saves_first_pending_command_separately() {
    let mut session = ChatSession::new("Chat".to_string());
    session.pending_commands =
        vec![PendingCommand::new(AgentAction::ListDirectory { path: "src".to_string() })];
    let snapshot = session.export_thread_snapshot("model-a");
    assert_eq!(snapshot.model_id, "model-a");
    assert_eq!(snapshot.pending_commands.len(), 1);
    assert_eq!(snapshot.pending_command, Some(snapshot.pending_commands[0].clone()));
    let empty = ChatSession::new("Chat".to_string()).export_thread_snapshot("model-a");
    assert!(empty.pending_command.is_none());
}

#[test]
fn unknown_compaction_policy_is_reported() {
    let mut session = ChatSession::new("Chat".to_string());
    session.prompt_compaction_policy = Some(PromptCompactionPolicy::Off);
    session.input = "  /compaction bogus  ".to_string();
    assert!(session.submit_compaction_input());
    assert_eq!(session.prompt_compaction_policy, Some(PromptCompactionPolicy::Off));
    assert_eq!(
        last_assistant_text(&session).as_deref(),
        Some("Unknown compaction policy `bogus`. Use /compaction default|last6-ledger768|last8-ledger1024|benchmark-state-packet|off.")
    );
    assert_eq!(session.messages[0], ChatMessage::User("/compaction bogus".to_string()));
    assert!(session.input.is_empty());
    assert_eq!(session.cursor_char, 0);
}

#[test]
fn non_compaction_input_is_left_for_the_caller() {
    let mut session = ChatSession::new("Chat".to_string());
    session.input = "hello".to_string();
    session.streaming = true;
    assert!(!session.submit_compaction_input());
    assert_eq!(session.input, "hello");
    assert!(!session.streaming);
    assert!(session.messages.is_empty());
    let mut blank = ChatSession::new("Chat".to_string());
    blank.input = "   ".to_string();
    blank.streaming = true;
    assert!(!blank.submit_compaction_input());
    assert!(blank.streaming);
}

#[test]
fn compaction_usage_message_for_missing_policy() {
    assert_eq!(
        parse_compaction_command("/compaction"),
        Some(Err("Usage: /compaction default|last6-ledger768|last8-ledger1024|benchmark-state-packet|off".to_string()))
    );
    assert_eq!(parse_compaction_command("/compaction off"), Some(Ok(Some(PromptCompactionPolicy::Off))));
    assert_eq!(parse_compaction_command("hello"), None);
    assert_eq!(compaction_policy_label(None), "default");
    assert_eq!(compaction_policy_label(Some(PromptCompactionPolicy::BenchmarkRepairMinimal)), "benchmark-repair-minimal");
}

#[test]
fn history_is_trimmed_in_pairs() {
    let mut messages: Vec<ChatMessage> =
        (0..503).map(|i| ChatMessage::User(format!("m{i}"))).collect();
    trim_history(&mut messages);
    assert_eq!(messages.len(), 499);
    assert_eq!(messages[0], ChatMessage::User("m4".to_string()));
    let mut short: Vec<ChatMessage> = vec![ChatMessage::User("a".to_string())];
    trim_history(&mut short);
    assert_eq!(short.len(), 1);
}

#[test]
fn model_index_follows_saved_model() {
    let models = vec!["a".to_string(), "b".to_string(), "c".to_string()];
    assert_eq!(model_index_for_thread(&models, "b", 0), 1);
    assert_eq!(model_index_for_thread(&models, "zzz", 9), 2);
    assert_eq!(model_index_for_thread(&models, "zzz", 1), 1);
    assert_eq!(model_index_for_thread(&Vec::new(), "a", 4), 0);
}

#[test]
fn byte_and_char_positions_convert() {
    let text = "aé€b";
    assert_eq!(char_index_for_byte(text, 0), 0);
    assert_eq!(char_index_for_byte(text, 1), 1);
    assert_eq!(char_index_for_byte(text, 3), 2);
    assert_eq!(char_index_for_byte(text, 6), 3);
    assert_eq!(char_index_for_byte(text, 100), 4);
    assert_eq!(char_byte_index(text, 2), 3);
    assert_eq!(char_byte_index(text, 3), 6);
    assert_eq!(char_byte_index(text, 10), 7);
}

#[test]
fn mention_token_before_cursor() {
    assert_eq!(active_mention_token("see @src/ma", 11), Some((4, "src/ma".to_string())));
    assert_eq!(active_mention_token("mail@host", 9), None);
    assert_eq!(active_mention_token("@a b", 4), None);
    assert_eq!(active_mention_token("no mention", 10), None);
    assert_eq!(active_mention_token("é @x", 5), Some((3, "x".to_string())));
}

#[test]
fn mention_scroll_keeps_selection_visible() {
    let mut top = 0;
    clamp_mention_scroll(&mut top, 7, 5, 20);
    assert_eq!(top, 3);
    clamp_mention_scroll(&mut top, 1, 5, 20);
    assert_eq!(top, 1);
    let mut top = 18;
    clamp_mention_scroll(&mut top, 19, 5, 20);
    assert_eq!(top, 15);
    let mut top = 4;
    clamp_mention_scroll(&mut top, 0, 5, 0);
    assert_eq!(top, 0);
}

#[test]
fn model_cycling_wraps_both_ways() {
    assert_eq!(cycle_index(0, 3, -1), 2);
    assert_eq!(cycle_index(2, 3, 1), 0);
    assert_eq!(cycle_index(1, 3, 7), 2);
    assert_eq!(cycle_index(5, 0, 1), 5);
}

#[test]
fn session_titles_come_from_first_line() {
    assert_eq!(title_from_user_message("  Fix the build\nplease"), "Fix the build");
    assert_eq!(title_from_user_message("   "), "Chat");
    assert_eq!(
        title_from_user_message("abcdefghijklmnopqrstuvwxyz0123456789"),
        "abcdefghijklmnopqrstuvwxyz012345"
    );
}

#[test]
fn command_timeouts_and_validation_commands() {
    assert_eq!(parse_command_timeout(Some("1500")), 1500);
    assert!(parse_command_timeout(None) > 0);
    assert!(is_validation_command("cargo test -p quorp"));
    assert!(!is_validation_command("ls -la"));
}

#[test]
fn model_selection_inserts_unknown_models() {
    let mut models = vec!["a".to_string()];
    assert_eq!(select_or_insert_model(&mut models, "a"), 0);
    let index = select_or_insert_model(&mut models, "b");
    assert_eq!(models[index], "b");
    assert_eq!(models.len(), 2);
}

#[test]
fn streamed_text_is_appended_to_assistant_messages() {
    let mut message = ChatMessage::Assistant("Hel".to_string());
    message.push_assistant("lo");
    assert_eq!(message, ChatMessage::Assistant("Hello".to_string()));
    let mut user = ChatMessage::User("mine".to_string());
    user.push_assistant("x");
    assert_eq!(user, ChatMessage::User("mine".to_string()));
    let mut long = ChatMessage::Assistant("a".repeat(524_287));
    long.push_assistant("bc");
    match long {
        ChatMessage::Assistant(text) => {
            assert!(text.ends_with("b\n… [truncated]"));
            assert!(text.starts_with("aaa"));
        }
        _ => panic!("expected assistant message"),
    }
}

#[test]
fn touched_paths_of_a_unified_diff() {
    let paths = collect_patch_touched_paths("--- a/x.rs\n+++ b/x.rs\n@@\n-a\n+b\n");
    assert_eq!(paths, vec!["x.rs".to_string()]);
}

#[test]
fn cycle_index_wraps_any_index() {
    assert_eq!(cycle_index(5, 3, 1), 0);
    assert_eq!(cycle_index(7, 3, -1), 0);
}
