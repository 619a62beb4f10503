use quorp_tui::agent::{AgentRuntimeStatus, AgentUiEvent, ChatServiceMessage, ChatServiceRole, StopReason};
use quorp_tui::rail::{
    codex_progress_to_rail_events, fresh_event_lines, synthetic_payload_to_rail_events,
    AgentPhase, CodexProgressEvent, CodexRailCounters, RailEvent, RunEventPayload, ToolKindSource,
};
use quorp_tui::runtime::{
    cancel_notices, codex_agent_prompt, codex_run_notices, docker_finished_notices,
    docker_run_arguments, docker_started_notices, missing_bridge_notices, run_route,
    CodexOutcome, CodexRunResult, DockerRunPlan, FullAutoResolvedMode, RunRoute, RuntimeNotice,
    TranscriptEntry,
};

fn payload(event: &str) -> RunEventPayload {
    RunEventPayload {
        event: Some(event.to_string()),
        phase: None,
        detail: None,
        assistant_message: None,
        action: None,
        step: None,
        status: None,
        summary: None,
        reason: None,
    }
}

#[test]
fn codex_progress_command_execution_maps_to_validation_rail_events() {
    let mut counters = CodexRailCounters::new();
    let events = codex_progress_to_rail_events(
        &CodexProgressEvent::CommandExecution {
            command: "cargo test -p quorp".to_string(),
            exit_code: Some(0),
            status: "completed".to_string(),
        },
        &mut counters,
    );
    assert!(events.iter().any(|event| matches!(
        event,
        RailEvent::ProofProgress { tests_passed: 1, tests_total: 1, .. }
    )));
}

#[test]
fn codex_validation_command_reports_the_whole_proof_cycle() {
    let mut counters = CodexRailCounters::new();
    let events = codex_progress_to_rail_events(
        &CodexProgressEvent::CommandExecution {
            command: "cargo test -p quorp".to_string(),
            exit_code: Some(0),
            status: "completed".to_string(),
        },
        &mut counters,
    );
    assert_eq!(events.len(), 8);
    assert!(matches!(events[0], RailEvent::PhaseChanged(AgentPhase::Verifying)));
    match &events[2] {
        RailEvent::ToolStarted { tool_id, name, kind, validation_kind, .. } => {
            assert_eq!(*tool_id, 1);
            assert_eq!(name, "validation");
            assert!(matches!(kind, ToolKindSource::Test));
            assert_eq!(validation_kind.as_deref(), Some("codex-validation"));
        }
        other => panic!("unexpected event {other:?}"),
    }
    match &events[3] {
        RailEvent::ToolCompleted { tool_id, confidence_delta_percent, .. } => {
            assert_eq!(*tool_id, 1);
            assert_eq!(*confidence_delta_percent, Some(8));
        }
        other => panic!("unexpected event {other:?}"),
    }
    match &events[6] {
        RailEvent::OneSecondStory { summary } => {
            assert_eq!(summary, "Validation completed: cargo test -p quorp")
        }
        other => panic!("unexpected event {other:?}"),
    }
    assert_eq!(counters, CodexRailCounters { next_tool_id: 2, completed_turns: 0 });
}

#[test]
fn codex_failed_command_lowers_confidence_and_takes_next_tool_id() {
    let mut counters = CodexRailCounters { next_tool_id: 7, completed_turns: 0 };
    let events = codex_progress_to_rail_events(
        &CodexProgressEvent::CommandExecution {
            command: "ls src".to_string(),
            exit_code: Some(2),
            status: "failed".to_string(),
        },
        &mut counters,
    );
    assert_eq!(events.len(), 4);
    assert!(matches!(events[0], RailEvent::PhaseChanged(AgentPhase::Editing)));
    match &events[1] {
        RailEvent::ToolStarted { tool_id, kind, .. } => {
            assert_eq!(*tool_id, 7);
            match kind {
                ToolKindSource::Classified { name, target } => {
                    assert_eq!(name, "command");
                    assert_eq!(target, "ls src");
                }
                other => panic!("unexpected kind {other:?}"),
            }
        }
        other => panic!("unexpected event {other:?}"),
    }
    match &events[2] {
        RailEvent::ToolCompleted { exit_code, confidence_delta_percent, .. } => {
            assert_eq!(*exit_code, Some(2));
            assert_eq!(*confidence_delta_percent, Some(-5));
        }
        other => panic!("unexpected event {other:?}"),
    }
    assert_eq!(counters.next_tool_id, 8);
}

#[test]
fn codex_turns_raise_confidence_up_to_a_ceiling() {
    let mut counters = CodexRailCounters::new();
    let event = CodexProgressEvent::TurnCompleted {
        input_tokens: 1200,
        output_tokens: 340,
        cached_input_tokens: 0,
    };
    let first = codex_progress_to_rail_events(&event, &mut counters);
    match &first[0] {
        RailEvent::ConfidenceUpdate { understanding_percent, merge_safety_percent, delta_percent } => {
            assert_eq!((*understanding_percent, *merge_safety_percent, *delta_percent), (52, 48, 5));
        }
        other => panic!("unexpected event {other:?}"),
    }
    match &first[1] {
        RailEvent::OneSecondStory { summary } => {
            assert_eq!(summary, "Codex completed turn 1 (1200 in / 340 out tokens).")
        }
        other => panic!("unexpected event {other:?}"),
    }
    match &first[2] {
        RailEvent::TimeToProofUpdated { eta_seconds, confidence_target_percent } => {
            assert_eq!(*eta_seconds, Some(100));
            assert_eq!(*confidence_target_percent, Some(52));
        }
        other => panic!("unexpected event {other:?}"),
    }
    let mut late = CodexRailCounters { next_tool_id: 1, completed_turns: 9 };
    let tenth = codex_progress_to_rail_events(&event, &mut late);
    match &tenth[0] {
        RailEvent::ConfidenceUpdate { understanding_percent, merge_safety_percent, .. } => {
            assert_eq!((*understanding_percent, *merge_safety_percent), (94, 92));
        }
        other => panic!("unexpected event {other:?}"),
    }
    match &tenth[2] {
        RailEvent::TimeToProofUpdated { eta_seconds, confidence_target_percent } => {
            assert_eq!(*eta_seconds, Some(0));
            assert_eq!(*confidence_target_percent, Some(94));
        }
        other => panic!("unexpected event {other:?}"),
    }
    assert_eq!(late.completed_turns, 10);
}

#[test]
fn codex_thread_start_and_messages() {
    let mut counters = CodexRailCounters::new();
    let start = codex_progress_to_rail_events(&CodexProgressEvent::ThreadStarted, &mut counters);
    assert_eq!(start.len(), 5);
    assert!(matches!(start[0], RailEvent::PhaseChanged(AgentPhase::Planning)));
    let message = codex_progress_to_rail_events(
        &CodexProgressEvent::AssistantMessage { text: "line one\nline two".to_string() },
        &mut counters,
    );
    match &message[0] {
        RailEvent::OneSecondStory { summary } => assert_eq!(summary, "line one line two"),
        other => panic!("unexpected event {other:?}"),
    }
    assert_eq!(counters, CodexRailCounters::new());
}

#[test]
fn run_log_payloads_map_to_rail_events() {
    let started = synthetic_payload_to_rail_events(&payload("run_started"));
    assert_eq!(started.len(), 3);

    let mut phase = payload("phase_changed");
    phase.phase = Some("retrying".to_string());
    phase.detail = Some("second attempt".to_string());
    let events = synthetic_payload_to_rail_events(&phase);
    assert!(matches!(events[0], RailEvent::PhaseChanged(AgentPhase::Debugging)));
    match &events[1] {
        RailEvent::OneSecondStory { summary } => assert_eq!(summary, "second attempt"),
        other => panic!("unexpected event {other:?}"),
    }

    let mut unknown_phase = payload("phase_changed");
    unknown_phase.phase = Some("dreaming".to_string());
    let events = synthetic_payload_to_rail_events(&unknown_phase);
    assert_eq!(events.len(), 1);
    assert!(matches!(events[0], RailEvent::PhaseChanged(AgentPhase::Idle)));

    let mut tool = payload("tool_call_started");
    tool.action = Some("read_file".to_string());
    tool.step = Some(4);
    let events = synthetic_payload_to_rail_events(&tool);
    match &events[0] {
        RailEvent::ToolStarted { tool_id, name, target, .. } => {
            assert_eq!(*tool_id, 4);
            assert_eq!(name, "read_file");
            assert_eq!(target, "read_file");
        }
        other => panic!("unexpected event {other:?}"),
    }

    let mut finished = payload("tool_call_finished");
    finished.step = Some(4);
    let events = synthetic_payload_to_rail_events(&finished);
    match &events[0] {
        RailEvent::ToolCompleted { tool_id, exit_code, confidence_delta_percent, .. } => {
            assert_eq!(*tool_id, 4);
            assert_eq!(*exit_code, None);
            assert_eq!(*confidence_delta_percent, Some(3));
        }
        other => panic!("unexpected event {other:?}"),
    }
    finished.status = Some("error".to_string());
    let events = synthetic_payload_to_rail_events(&finished);
    match &events[0] {
        RailEvent::ToolCompleted { exit_code, confidence_delta_percent, .. } => {
            assert_eq!(*exit_code, Some(1));
            assert_eq!(*confidence_delta_percent, Some(-5));
        }
        other => panic!("unexpected event {other:?}"),
    }

    let mut validation = payload("validation_finished");
    validation.status = Some("ok".to_string());
    let events = synthetic_payload_to_rail_events(&validation);
    assert!(matches!(events[0], RailEvent::ProofProgress { tests_passed: 1, tests_total: 1, .. }));

    let mut run_finished = payload("run_finished");
    let events = synthetic_payload_to_rail_events(&run_finished);
    match &events[1] {
        RailEvent::StopReasonSet { reason } => assert_eq!(reason, "unknown"),
        other => panic!("unexpected event {other:?}"),
    }
    run_finished.reason = Some("success".to_string());
    let events = synthetic_payload_to_rail_events(&run_finished);
    match &events[0] {
        RailEvent::OneSecondStory { summary } => assert_eq!(summary, "Run finished with success"),
        other => panic!("unexpected event {other:?}"),
    }

    assert!(synthetic_payload_to_rail_events(&payload("heartbeat")).is_empty());
    let mut no_event = payload("run_started");
    no_event.event = None;
    assert!(synthetic_payload_to_rail_events(&no_event).is_empty());
}

#[test]
fn event_log_reads_only_complete_new_records() {
    let log = "{\"a\":1}\n\n  {\"b\":2}  \n";
    assert_eq!(
        fresh_event_lines(log, 0),
        Some(vec!["{\"a\":1}".to_string(), "{\"b\":2}".to_string()])
    );
    assert_eq!(fresh_event_lines(log, 8), Some(vec!["{\"b\":2}".to_string()]));
    assert_eq!(fresh_event_lines(log, log.len()), None);
    assert_eq!(fresh_event_lines("{\"a\":1}\n{\"b\"", 0), None);
    assert_eq!(fresh_event_lines("", 0), None);
}

#[test]
fn runtime_routes_tasks() {
    assert_eq!(run_route(true, true, false), RunRoute::Codex);
    assert_eq!(run_route(false, true, false), RunRoute::Docker);
    assert_eq!(run_route(false, false, true), RunRoute::Native);
    assert_eq!(run_route(false, false, false), RunRoute::NoBridge);
}

#[test]
fn cancel_and_missing_bridge_notices() {
    let cancel = cancel_notices();
    assert_eq!(cancel.len(), 3);
    match &cancel[1] {
        RuntimeNotice::Rail(RailEvent::StopReasonSet { reason }) => assert_eq!(reason, "cancelled"),
        other => panic!("unexpected notice {other:?}"),
    }
    assert!(matches!(
        cancel[2],
        RuntimeNotice::Agent(AgentUiEvent::StatusUpdate(AgentRuntimeStatus::Idle))
    ));
    let missing = missing_bridge_notices();
    match &missing[0] {
        RuntimeNotice::Agent(AgentUiEvent::StatusUpdate(AgentRuntimeStatus::Failed(message))) => {
            assert_eq!(message, "No command bridge is available for autonomous execution.")
        }
        other => panic!("unexpected notice {other:?}"),
    }
}

#[test]
fn codex_prompt_lists_prior_chat_then_goal() {
    let prompt = codex_agent_prompt(
        &vec![
            ChatServiceMessage { role: ChatServiceRole::User, content: "fix it".to_string() },
            ChatServiceMessage { role: ChatServiceRole::Assistant, content: "on it".to_string() },
        ],
        "make tests pass",
    );
    assert_eq!(
        prompt,
        "You are running Quorp's autonomous `/agent` flow through the real Codex executor.\n\
Inspect the real workspace, make the smallest correct changes, run local validation, and finish with a concise summary.\n\n\
## Prior Chat Context\nUser:\nfix it\n\nAssistant:\non it\n\n## Current Autonomous Goal\nmake tests pass"
    );
}

#[test]
fn codex_run_end_reports_status() {
    let outcome = CodexOutcome {
        stop_reason: StopReason::MaxIterations,
        error_message: None,
        transcript: vec![
            TranscriptEntry { from_assistant: false, content: "goal".to_string() },
            TranscriptEntry { from_assistant: true, content: "done".to_string() },
        ],
    };
    let notices = codex_run_notices(
        &CodexRunResult::Finished(outcome),
        &"/tmp/run".to_string(),
        &Some("disk full".to_string()),
    );
    assert_eq!(notices.len(), 7);
    match &notices[0] {
        RuntimeNotice::Agent(AgentUiEvent::FatalError(e)) => {
            assert_eq!(e, "Failed to snapshot diagnostics logs: disk full")
        }
        other => panic!("unexpected notice {other:?}"),
    }
    match &notices[1] {
        RuntimeNotice::Agent(AgentUiEvent::TurnCompleted(messages)) => {
            assert_eq!(messages.len(), 1);
            assert_eq!(messages[0].content, "done");
        }
        other => panic!("unexpected notice {other:?}"),
    }
    match &notices[4] {
        RuntimeNotice::Rail(RailEvent::StopReasonSet { reason }) => assert_eq!(reason, "maxiterations"),
        other => panic!("unexpected notice {other:?}"),
    }
    match &notices[5] {
        RuntimeNotice::Agent(AgentUiEvent::StatusUpdate(AgentRuntimeStatus::Failed(e))) => {
            assert_eq!(e, "Codex agent run stopped with MaxIterations")
        }
        other => panic!("unexpected notice {other:?}"),
    }
    let joined = codex_run_notices(
        &CodexRunResult::JoinFailed("panicked".to_string()),
        &"/tmp/run".to_string(),
        &None,
    );
    match &joined[0] {
        RuntimeNotice::Agent(AgentUiEvent::FatalError(e)) => {
            assert_eq!(e, "Codex agent task join error: panicked")
        }
        other => panic!("unexpected notice {other:?}"),
    }
}

fn plan(mode: FullAutoResolvedMode) -> DockerRunPlan {
    DockerRunPlan {
        resolved_mode: mode,
        target_path: "bench/case-1".to_string(),
        workspace_root: "/work".to_string(),
        objective_file: None,
        uses_codex: false,
        model_id: "qwen".to_string(),
        result_dir: "/tmp/out".to_string(),
        max_iterations: 12,
        max_seconds: Some(600),
        max_total_tokens: None,
        autonomy_profile: "careful".to_string(),
        base_url_override: None,
        docker_image: Some("img:1".to_string()),
    }
}

#[test]
fn docker_arguments_follow_the_mode() {
    assert_eq!(
        docker_run_arguments(&plan(FullAutoResolvedMode::Benchmark)),
        vec![
            "benchmark", "run", "--path", "bench/case-1", "--executor", "native", "--model", "qwen",
            "--result-dir", "/tmp/out", "--max-steps", "12", "--max-seconds", "600",
            "--docker-image", "img:1", "--docker",
        ]
    );
    let mut objective = plan(FullAutoResolvedMode::WorkspaceObjective);
    objective.uses_codex = true;
    objective.max_total_tokens = Some(5000);
    assert_eq!(
        docker_run_arguments(&objective),
        vec![
            "agent", "run", "--workspace", "/work", "--objective-file", "START_HERE.md",
            "--executor", "codex", "--model", "qwen", "--result-dir", "/tmp/out", "--max-steps",
            "12", "--max-seconds", "600", "--max-total-tokens", "5000", "--autonomy-profile",
            "careful", "--docker-image", "img:1", "--docker",
        ]
    );
}

#[test]
fn docker_run_start_and_end_notices() {
    let started = docker_started_notices(FullAutoResolvedMode::Benchmark, &"bench/case-1".to_string());
    match &started[2] {
        RuntimeNotice::Rail(RailEvent::OneSecondStory { summary }) => {
            assert_eq!(summary, "Starting benchmark watch mode in Docker for bench/case-1.")
        }
        other => panic!("unexpected notice {other:?}"),
    }
    let finished = docker_finished_notices(&vec![], &"/tmp/out".to_string(), &None, &None, false);
    assert_eq!(finished.len(), 6);
    match &finished[2] {
        RuntimeNotice::Rail(RailEvent::OneSecondStory { summary }) => {
            assert_eq!(summary, "Docker-backed run finished with FatalError")
        }
        other => panic!("unexpected notice {other:?}"),
    }
    match &finished[4] {
        RuntimeNotice::Agent(AgentUiEvent::StatusUpdate(AgentRuntimeStatus::Failed(e))) => {
            assert_eq!(e, "Docker run stopped with FatalError")
        }
        other => panic!("unexpected notice {other:?}"),
    }
    let succeeded = docker_finished_notices(
        &vec![TranscriptEntry { from_assistant: true, content: "all green".to_string() }],
        &"/tmp/out".to_string(),
        &Some("success".to_string()),
        &None,
        false,
    );
    assert_eq!(succeeded.len(), 7);
    assert!(matches!(
        succeeded[5],
        RuntimeNotice::Agent(AgentUiEvent::StatusUpdate(AgentRuntimeStatus::Success))
    ));
}
