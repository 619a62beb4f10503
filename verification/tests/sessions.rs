use quorp_tui::actions::{AgentAction, PendingCommand};
use quorp_tui::chat::{ChatMessage, PromptCompactionPolicy};
use quorp_tui::composer::{sync_mention_popup, ComposerOutcome, MentionPopupState};
use quorp_tui::keys::{KeyCodeInput, KeyInput, KeyMods};
use quorp_tui::tabs::ChatSessions;
use quorp_tui::thread::{ActionOutcome, AgentMode, ChatSession};

fn press(code: KeyCodeInput) -> KeyInput {
    KeyInput::new(code, KeyMods::none())
}

fn alt(c: char) -> KeyInput {
    KeyInput::new(KeyCodeInput::Char(c), KeyMods { shift: false, control: false, alt: true, other: false })
}

fn typed(session: &mut ChatSession, text: &str) {
    let mut popup = None;
    for c in text.chars() {
        session.handle_composer_key(&press(KeyCodeInput::Char(c)), &mut popup, 10, 1);
    }
}

#[test]
fn composer_edits_text_at_cursor() {
    let mut session = ChatSession::new("Chat".to_string());
    typed(&mut session, "helo");
    assert_eq!(session.input, "helo");
    assert_eq!(session.cursor_char, 4);
    let mut popup = None;
    session.handle_composer_key(&press(KeyCodeInput::Left), &mut popup, 10, 1);
    typed(&mut session, "l");
    assert_eq!(session.input, "hello");
    session.handle_composer_key(&press(KeyCodeInput::Home), &mut popup, 10, 1);
    session.handle_composer_key(&press(KeyCodeInput::Delete), &mut popup, 10, 1);
    assert_eq!(session.input, "ello");
    session.handle_composer_key(&press(KeyCodeInput::End), &mut popup, 10, 1);
    assert_eq!(session.handle_composer_key(&press(KeyCodeInput::Backspace), &mut popup, 10, 1), ComposerOutcome::SyncMentions);
    assert_eq!(session.input, "ell");
    assert_eq!(session.cursor_char, 3);
    assert_eq!(session.handle_composer_key(&press(KeyCodeInput::Enter), &mut popup, 10, 1), ComposerOutcome::Submit);
}

#[test]
fn alt_shortcuts_switch_agent_mode() {
    let mut session = ChatSession::new("Chat".to_string());
    assert_eq!(session.mode, AgentMode::Act);
    let mut popup = None;
    assert_eq!(session.handle_composer_key(&alt('p'), &mut popup, 10, 1), ComposerOutcome::Handled);
    assert_eq!(session.mode, AgentMode::Plan);
    session.handle_composer_key(&alt('a'), &mut popup, 10, 1);
    assert_eq!(session.mode, AgentMode::Ask);
    session.handle_composer_key(&alt('x'), &mut popup, 10, 1);
    assert_eq!(session.mode, AgentMode::Act);
}

#[test]
fn confirmation_keys_run_or_cancel_waiting_actions() {
    let mut session = ChatSession::new("Chat".to_string());
    session.pending_commands = vec![
        PendingCommand::new(AgentAction::ListDirectory { path: "src".to_string() }),
        PendingCommand::new(AgentAction::ListDirectory { path: "tests".to_string() }),
    ];
    let mut popup = None;
    assert_eq!(session.handle_composer_key(&press(KeyCodeInput::Char('y')), &mut popup, 10, 1), ComposerOutcome::ExecutePending);
    assert_eq!(session.handle_composer_key(&press(KeyCodeInput::Char('z')), &mut popup, 10, 1), ComposerOutcome::Handled);
    assert_eq!(session.handle_composer_key(&press(KeyCodeInput::Char('N')), &mut popup, 10, 1), ComposerOutcome::Handled);
    assert!(session.pending_commands.is_empty());
    assert_eq!(
        session.messages,
        vec![
            ChatMessage::User("[Command cancelled by user]".to_string()),
            ChatMessage::User("[Batch cancelled]\nThe current action was cancelled, so the remaining 1 queued action(s) were also cleared.".to_string()),
        ]
    );
}

#[test]
fn model_keys_and_transcript_scroll() {
    let mut session = ChatSession::new("Chat".to_string());
    let mut popup = None;
    assert_eq!(session.handle_composer_key(&press(KeyCodeInput::Char('[')), &mut popup, 10, 1), ComposerOutcome::PreviousModel);
    assert_eq!(session.handle_composer_key(&press(KeyCodeInput::Char(']')), &mut popup, 10, 1), ComposerOutcome::NextModel);
    session.transcript_scroll = 5;
    session.handle_composer_key(&press(KeyCodeInput::Up), &mut popup, 10, 30);
    assert_eq!(session.transcript_scroll, 4);
    assert!(!session.stick_to_bottom);
    session.handle_composer_key(&press(KeyCodeInput::PageDown), &mut popup, 10, 30);
    assert_eq!(session.transcript_scroll, 13);
    session.handle_composer_key(&press(KeyCodeInput::PageDown), &mut popup, 10, 30);
    assert_eq!(session.transcript_scroll, 20);
    assert!(session.stick_to_bottom);
    let ctrl_tab = KeyInput::new(KeyCodeInput::Tab, KeyMods { shift: false, control: true, alt: false, other: false });
    assert_eq!(session.handle_composer_key(&ctrl_tab, &mut popup, 10, 30), ComposerOutcome::NotHandled);
}

#[test]
fn mention_popup_navigation() {
    let mut session = ChatSession::new("Chat".to_string());
    let mut popup = sync_mention_popup(None, Some((0, "sr".to_string())), 20);
    assert_eq!(popup.as_ref().map(|p| (p.selected, p.scroll_top)), Some((0, 0)));
    session.handle_composer_key(&press(KeyCodeInput::Down), &mut popup, 10, 1);
    session.handle_composer_key(&press(KeyCodeInput::PageDown), &mut popup, 10, 1);
    let state = popup.clone().expect("popup");
    assert_eq!((state.selected, state.scroll_top), (8, 8));
    session.handle_composer_key(&press(KeyCodeInput::Up), &mut popup, 10, 1);
    assert_eq!(popup.as_ref().map(|p| p.selected), Some(7));
    assert_eq!(session.handle_composer_key(&press(KeyCodeInput::Tab), &mut popup, 10, 1), ComposerOutcome::AcceptMention);
    let kept = sync_mention_popup(popup.clone(), Some((0, "sr".to_string())), 3);
    assert_eq!(kept.as_ref().map(|p| p.selected), Some(2));
    let reset = sync_mention_popup(popup.clone(), Some((0, "src".to_string())), 3);
    assert_eq!(reset.as_ref().map(|p| p.selected), Some(0));
    assert!(sync_mention_popup(popup.clone(), None, 3).is_none());
    let mut empty = Some(MentionPopupState { at_byte: 0, selected: 0, scroll_top: 0, match_count: 0, last_query: String::new() });
    assert_eq!(session.handle_composer_key(&press(KeyCodeInput::Enter), &mut empty, 10, 1), ComposerOutcome::Handled);
    assert!(empty.is_none());
}

#[test]
fn mention_link_replaces_typed_mention() {
    let mut session = ChatSession::new("Chat".to_string());
    session.input = "see @sr".to_string();
    session.cursor_char = 7;
    assert!(session.insert_mention_link(4, "[src](src) "));
    assert_eq!(session.input, "see [src](src) ");
    assert_eq!(session.cursor_char, 15);
    session.cursor_char = 1;
    assert!(!session.insert_mention_link(4, "x"));
}

#[test]
fn exchanges_and_stream_events() {
    let mut session = ChatSession::new("Chat 1".to_string());
    session.input = "draft".to_string();
    session.begin_submitted_exchange("Explain the build".to_string(), String::new());
    assert_eq!(session.title, "Explain the build");
    assert!(session.input.is_empty());
    session.apply_assistant_delta("It ");
    session.apply_assistant_delta("works");
    assert_eq!(session.messages[1], ChatMessage::Assistant("It works".to_string()));
    session.apply_stream_error("timeout");
    assert_eq!(session.messages[1], ChatMessage::Assistant("It works\n[Error: timeout]".to_string()));
    assert_eq!(session.last_error.as_deref(), Some("timeout"));
    session.begin_submitted_exchange("again".to_string(), String::new());
    assert_eq!(session.title, "Explain the build");
    session.apply_stream_error("boom");
    assert_eq!(session.messages[3], ChatMessage::Assistant("Error: boom".to_string()));
    session.push_command_output("line".to_string());
    assert_eq!(session.command_output_lines, vec!["line".to_string()]);
}

#[test]
fn failed_action_clears_rest_of_batch() {
    let mut session = ChatSession::new("Chat".to_string());
    session.running_command = true;
    session.running_command_name = Some("read README.md".to_string());
    session.pending_commands = vec![PendingCommand::new(AgentAction::ListDirectory { path: "src".to_string() })];
    let outcome = ActionOutcome::Failure {
        action: AgentAction::ReadFile { path: "README.md".to_string(), range: None },
        error: "read_file: missing file".to_string(),
    };
    let followup = session.finish_command("read README.md", outcome.output_text(), false);
    assert!(followup);
    assert!(session.pending_commands.is_empty());
    assert!(!session.running_command);
    assert_eq!(
        session.messages,
        vec![
            ChatMessage::User("[Tool Output]\nread README.md\nread_file: missing file\n[End Output]".to_string()),
            ChatMessage::User("[Batch execution aborted]\nThe action `read README.md` failed, so the remaining 1 queued action(s) were skipped. Review the error and try again.".to_string()),
            ChatMessage::Assistant(String::new()),
        ]
    );
}

#[test]
fn successful_command_keeps_queue() {
    let mut session = ChatSession::new("Chat".to_string());
    session.pending_commands = vec![PendingCommand::new(AgentAction::ListDirectory { path: "src".to_string() })];
    assert!(!session.finish_command("ls", "ok", true));
    assert_eq!(session.pending_commands.len(), 1);
    session.append_batch_abort_message("ls", 1);
    assert_eq!(
        session.messages.last(),
        Some(&ChatMessage::User("[Batch execution aborted]\nThe action `ls` failed, so the remaining 1 1 queued action was skipped. Review the error and try again.".to_string()))
    );
}

#[test]
fn chat_tabs_open_cycle_and_close() {
    let mut tabs = ChatSessions::new(ChatSession::new("Chat 1".to_string()));
    tabs.sessions[0].mode = AgentMode::Plan;
    tabs.sessions[0].streaming = true;
    assert!(tabs.new_chat_session(Some(PromptCompactionPolicy::Off)));
    assert_eq!(tabs.active, 1);
    assert_eq!(tabs.sessions[1].title, "Chat 2");
    assert_eq!(tabs.sessions[1].mode, AgentMode::Plan);
    assert!(!tabs.sessions[0].streaming);
    assert!(!tabs.new_chat_session(None));
    assert_eq!(tabs.sessions.len(), 3);
    assert!(!tabs.cycle_chat_session(1));
    assert_eq!(tabs.active, 0);
    tabs.cycle_chat_session(-1);
    assert_eq!(tabs.active, 2);
    assert!(tabs.activate_chat_session(1));
    assert!(!tabs.activate_chat_session(7));
    assert_eq!(tabs.active, 1);
    assert_eq!(tabs.close_chat_session_at(0), (true, false));
    assert_eq!(tabs.active, 0);
    assert_eq!(tabs.sessions[0].title, "Chat 2");
    tabs.sessions[1].streaming = true;
    let cancelled = tabs.close_all_chat_sessions(AgentMode::Ask, None);
    assert_eq!(cancelled, vec![1]);
    assert_eq!(tabs.sessions.len(), 1);
    assert_eq!(tabs.sessions[0].title, "Chat 1");
    assert_eq!(tabs.close_chat_session_at(0), (false, false));
}

#[test]
fn cancelling_confirmation_clears_whole_batch() {
    let mut session = ChatSession::new("Chat".to_string());
    session.pending_commands = vec![
        PendingCommand::new(AgentAction::WriteFile { path: "README.md".to_string(), content: "first".to_string() }),
        PendingCommand::new(AgentAction::WriteFile { path: "src/main.rs".to_string(), content: "second".to_string() }),
    ];
    let mut popup = None;
    assert_eq!(session.handle_composer_key(&press(KeyCodeInput::Char('n')), &mut popup, 10, 1), ComposerOutcome::Handled);
    assert!(session.pending_commands.is_empty());
    assert!(session
        .messages
        .iter()
        .any(|message| matches!(message, ChatMessage::User(text) if text.contains("[Batch cancelled]"))));
}

#[test]
fn session_pills_identity_and_composer_text() {
    let mut sessions = ChatSessions::new(ChatSession::new("Chat 1".to_string()));
    sessions.new_chat_session(Some(PromptCompactionPolicy::Last6Ledger768));
    sessions.sessions[1].streaming = true;
    let pills = sessions.shell_session_pills(5);
    assert_eq!(pills.len(), 2);
    assert_eq!(pills[0], ("Chat 1".to_string(), false, false));
    assert!(pills[1].1 && pills[1].2);
    assert_eq!(sessions.shell_session_pills(1).len(), 1);
    assert_eq!(sessions.shell_composer_text(), "Streaming response...");
    sessions.activate_chat_session(0);
    assert_eq!(sessions.shell_session_label(), "Assistant Chat 1");
    assert_eq!(sessions.shell_session_identity(), "Assistant Chat 1 · Act · Compaction: default");
    assert_eq!(sessions.shell_composer_text(), "Act mode: ask the assistant...");
    sessions.sessions[0].mode = AgentMode::Ask;
    assert_eq!(sessions.shell_composer_text(), "Ask mode: ask the assistant...");
    sessions.sessions[0].input = "draft".to_string();
    assert_eq!(sessions.shell_composer_text(), "draft");
    assert_eq!(AgentMode::Plan.label(), "Plan");
}

#[test]
fn chat_tabs_mark_the_active_session() {
    let mut tabs = ChatSessions::new(ChatSession::new("Chat 1".to_string()));
    let specs = tabs.chat_tab_specs();
    assert_eq!(specs.len(), 1);
    assert_eq!(specs[0].label, "Chat 1");
    assert!(specs[0].active);
    assert!(!specs[0].show_close);
    tabs.sessions.push(ChatSession::new("Build fix".to_string()));
    tabs.active = 1;
    let specs = tabs.chat_tab_specs();
    assert_eq!(specs[1].label, "Build fix");
    assert!(!specs[0].active && specs[1].active);
    assert!(specs.iter().all(|s| s.show_close));
}

#[test]
fn context_links_are_spaced_from_the_text() {
    let mut session = ChatSession::new("Chat".to_string());
    session.insert_context_link("[@main.rs](src/main.rs)");
    assert_eq!(session.input, "[@main.rs](src/main.rs)");
    assert_eq!(session.cursor_char, 23);

    let mut session = ChatSession::new("Chat".to_string());
    typed(&mut session, "look at");
    session.insert_context_link("[@a](a)");
    assert_eq!(session.input, "look at [@a](a)");
    assert_eq!(session.cursor_char, 15);

    let mut session = ChatSession::new("Chat".to_string());
    typed(&mut session, "see  now");
    session.cursor_char = 4;
    session.insert_context_link("[@b](b)");
    assert_eq!(session.input, "see [@b](b) now");
    assert_eq!(session.cursor_char, 11);
}

#[test]
fn pane_import_keeps_one_active_session() {
    let mut session = ChatSession::new("Chat 2".to_string());
    session.messages.push(ChatMessage::User("u".to_string()));
    session.pending_commands = vec![
        PendingCommand::new(AgentAction::WriteFile { path: "README.md".to_string(), content: "first".to_string() }),
        PendingCommand::new(AgentAction::ListDirectory { path: "src".to_string() }),
    ];
    session.mode = AgentMode::Ask;
    session.prompt_compaction_policy = Some(PromptCompactionPolicy::Off);
    let mut pane = ChatSessions::new(ChatSession::new("Chat 1".to_string()));
    pane.sessions.push(session);
    pane.active = 1;

    let snapshot = pane.export_active_thread_snapshot("model-a");
    let mut restored = ChatSessions::new(ChatSession::new("Other".to_string()));
    restored.sessions.push(ChatSession::new("More".to_string()));
    restored.active = 1;
    restored.import_thread_snapshot(snapshot);

    assert_eq!(restored.sessions.len(), 1);
    assert_eq!(restored.active, 0);
    let s = &restored.sessions[0];
    assert!(!s.streaming);
    assert_eq!(s.title, "Chat 2");
    assert_eq!(s.messages, vec![ChatMessage::User("u".to_string())]);
    assert_eq!(s.mode, AgentMode::Ask);
    assert_eq!(s.prompt_compaction_policy, Some(PromptCompactionPolicy::Off));
    let actions: Vec<&AgentAction> = s.pending_commands.iter().map(|p| p.action()).collect();
    assert_eq!(
        actions,
        vec![
            &AgentAction::WriteFile { path: "README.md".to_string(), content: "first".to_string() },
            &AgentAction::ListDirectory { path: "src".to_string() },
        ]
    );
}
