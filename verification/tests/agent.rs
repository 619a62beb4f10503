use quorp_tui::agent::{
    stop_reason_from_str, truncate_story, AgentPane, AgentRuntimeStatus, AgentUiEvent,
    ChatServiceMessage, ChatServiceRole, StopReason,
};
use quorp_tui::bootstrap::Rect;
use quorp_tui::keys::{KeyCodeInput, KeyInput, KeyMods, KeyPhase};

#[test]
fn stop_reason_mapping_handles_common_values() {
    assert_eq!(stop_reason_from_str("success"), StopReason::Success);
    assert_eq!(stop_reason_from_str("time_budget_exhausted"), StopReason::TimeBudgetExhausted);
    assert_eq!(stop_reason_from_str("max_iterations"), StopReason::MaxIterations);
}

#[test]
fn stop_reason_accepts_camel_case_and_defaults_to_fatal() {
    assert_eq!(stop_reason_from_str("BudgetExhausted"), StopReason::BudgetExhausted);
    assert_eq!(stop_reason_from_str("Cancelled"), StopReason::Cancelled);
    assert_eq!(stop_reason_from_str("stalled"), StopReason::Stalled);
    assert_eq!(stop_reason_from_str("fatal_error"), StopReason::FatalError);
    assert_eq!(stop_reason_from_str("whatever"), StopReason::FatalError);
    assert_eq!(stop_reason_from_str(""), StopReason::FatalError);
}

#[test]
fn story_excerpt_is_cut_and_flattened() {
    assert_eq!(truncate_story("one\ntwo", 10), "one two");
    assert_eq!(truncate_story("abcdef", 3), "abc...");
    assert_eq!(truncate_story("abc", 3), "abc");
    assert_eq!(truncate_story("a\nbcdef", 2), "a ...");
}

#[test]
fn agent_pane_reports_events() {
    let mut pane = AgentPane::new();
    assert!(pane.status_lines.is_empty());
    pane.apply_event(AgentUiEvent::StatusUpdate(AgentRuntimeStatus::Idle));
    pane.apply_event(AgentUiEvent::StatusUpdate(AgentRuntimeStatus::ExecutingTool(
        "read_file".to_string(),
    )));
    pane.apply_event(AgentUiEvent::StatusUpdate(AgentRuntimeStatus::Failed("oops".to_string())));
    pane.apply_event(AgentUiEvent::TurnCompleted(vec![ChatServiceMessage {
        role: ChatServiceRole::Assistant,
        content: "done".to_string(),
    }]));
    pane.apply_event(AgentUiEvent::ArtifactsReady("/tmp/run-1".to_string()));
    pane.apply_event(AgentUiEvent::FatalError("crash".to_string()));
    pane.apply_status_update("custom".to_string());
    assert_eq!(
        pane.status_lines,
        vec![
            "[Idle] Waiting for background tasks.".to_string(),
            "[Executing] read_file".to_string(),
            "[Failed] oops".to_string(),
            "[Turn Completed]".to_string(),
            "[Artifacts] /tmp/run-1".to_string(),
            "[Fatal Error] crash".to_string(),
            "custom".to_string(),
        ]
    );
}

#[test]
fn agent_pane_keys() {
    let mut pane = AgentPane::new();
    let enter = KeyInput::new(KeyCodeInput::Enter, KeyMods::none());
    assert!(pane.try_handle_key(&enter));
    assert_eq!(pane.status_lines.len(), 1);
    assert!(pane.status_lines[0].starts_with("Launch autonomous runs"));
    let other = KeyInput::new(KeyCodeInput::Char('x'), KeyMods::none());
    assert!(!pane.try_handle_key(&other));
    let released = KeyInput { code: KeyCodeInput::Char('x'), modifiers: KeyMods::none(), phase: KeyPhase::Release };
    assert!(pane.try_handle_key(&released));
    assert_eq!(pane.status_lines.len(), 1);
}

#[test]
fn agent_pane_lays_out_header_and_status() {
    let mut pane = AgentPane::new();
    let area = Rect { x: 2, y: 3, width: 40, height: 6 };
    let idle = pane.leaf_layout(area).expect("area has cells");
    assert_eq!(idle.header, Rect { x: 2, y: 3, width: 40, height: 1 });
    assert_eq!(idle.body, Rect { x: 2, y: 4, width: 40, height: 5 });
    assert_eq!(idle.header_text, " Agent Status [Enter explains current limitation]");
    assert!(idle.body_muted);
    assert_eq!(idle.body_lines.len(), 2);
    assert!(idle.body_lines[0].starts_with("  Launch autonomous work"));
    pane.apply_status_update("[Thinking] Generating actions...".to_string());
    let busy = pane.leaf_layout(area).expect("area has cells");
    assert!(!busy.body_muted);
    assert_eq!(busy.body_lines, vec!["  [Thinking] Generating actions...".to_string()]);
    let header_only = pane.leaf_layout(Rect { x: 0, y: 0, width: 10, height: 1 }).expect("one row");
    assert!(header_only.body_lines.is_empty());
    assert!(pane.leaf_layout(Rect { x: 0, y: 0, width: 0, height: 5 }).is_none());
}
