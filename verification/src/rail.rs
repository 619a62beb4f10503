//! The progress events of the run rail, and how they are derived from what an autonomous
//! run reports. Confidence figures are kept in whole percentage points.
use vstd::prelude::*;
use crate::agent::{story_excerpt, truncate_story};
use crate::action_discovery::views;
use crate::chat::{
    byte_len, char_byte_index, char_index_for_byte, is_validation, is_validation_command,
    lemma_byte_len_monotone,
};
use crate::patch::{lines, lines_from, lines_view, slice_chars, split_lines, strip_cr};
use crate::text::{find_in, lemma_find_in_some, matches_at, substring, trim, trim_bounds};
use crate::patch::chars_eq_str;
use crate::text::{chars_of, decimal, decimal_u64, push_chars, push_str, string_of};

verus! {

/// The phase an autonomous run is in.
#[derive(Debug, Clone, Copy, PartialEq, Eq, Structural)]
pub enum AgentPhase {
    Idle,
    Planning,
    Exploring,
    Editing,
    Verifying,
    Debugging,
    WaitingForApproval,
}

/// How the kind of a started tool is determined: it is a test run, or it is classified
/// from a tool name and the tool's target.
#[derive(Debug, Clone)]
pub enum ToolKindSource {
    Test,
    Classified { name: String, target: String },
}

/// A progress event of the run rail.
#[derive(Debug, Clone)]
pub enum RailEvent {
    PhaseChanged(AgentPhase),
    WaitReason { explanation: String },
    OneSecondStory { summary: String },
    TopDoubtUpdated { doubt: String },
    TimeToProofUpdated { eta_seconds: Option<u64>, confidence_target_percent: Option<u32> },
    ToolStarted {
        tool_id: u64,
        name: String,
        kind: ToolKindSource,
        target: String,
        cwd: Option<String>,
        expected_outcome: String,
        validation_kind: Option<String>,
    },
    ToolCompleted {
        tool_id: u64,
        exit_code: Option<i32>,
        duration_ms: u64,
        files_changed: usize,
        confidence_delta_percent: Option<i32>,
    },
    ProofProgress { tests_passed: u32, tests_total: u32, coverage_delta_percent: i32 },
    ConfidenceUpdate { understanding_percent: u32, merge_safety_percent: u32, delta_percent: i32 },
    StopReasonSet { reason: String },
    ArtifactReady { label: String, path: String },
}

/// The value of a [`ToolKindSource`], with text as character sequences.
pub enum KindView {
    Test,
    Classified { name: Seq<char>, target: Seq<char> },
}

/// The value of a [`RailEvent`], with text as character sequences.
pub enum RailView {
    PhaseChanged(AgentPhase),
    WaitReason(Seq<char>),
    OneSecondStory(Seq<char>),
    TopDoubtUpdated(Seq<char>),
    TimeToProofUpdated { eta_seconds: Option<u64>, confidence_target_percent: Option<u32> },
    ToolStarted {
        tool_id: u64,
        name: Seq<char>,
        kind: KindView,
        target: Seq<char>,
        cwd: Option<Seq<char>>,
        expected_outcome: Seq<char>,
        validation_kind: Option<Seq<char>>,
    },
    ToolCompleted {
        tool_id: u64,
        exit_code: Option<i32>,
        duration_ms: u64,
        files_changed: usize,
        confidence_delta_percent: Option<i32>,
    },
    ProofProgress { tests_passed: u32, tests_total: u32, coverage_delta_percent: i32 },
    ConfidenceUpdate { understanding_percent: u32, merge_safety_percent: u32, delta_percent: i32 },
    StopReasonSet(Seq<char>),
    ArtifactReady { label: Seq<char>, path: Seq<char> },
}

/// An optional text as an optional character sequence.
pub open spec fn otext(o: Option<String>) -> Option<Seq<char>> {
    match o {
        Some(s) => Some(s@),
        None => None,
    }
}

impl View for ToolKindSource {
    type V = KindView;

    open spec fn view(&self) -> KindView {
        match self {
            ToolKindSource::Test => KindView::Test,
            ToolKindSource::Classified { name, target } => KindView::Classified {
                name: name@,
                target: target@,
            },
        }
    }
}

impl View for RailEvent {
    type V = RailView;

    open spec fn view(&self) -> RailView {
        match self {
            RailEvent::PhaseChanged(p) => RailView::PhaseChanged(*p),
            RailEvent::WaitReason { explanation } => RailView::WaitReason(explanation@),
            RailEvent::OneSecondStory { summary } => RailView::OneSecondStory(summary@),
            RailEvent::TopDoubtUpdated { doubt } => RailView::TopDoubtUpdated(doubt@),
            RailEvent::TimeToProofUpdated { eta_seconds, confidence_target_percent } =>
                RailView::TimeToProofUpdated {
                eta_seconds: *eta_seconds,
                confidence_target_percent: *confidence_target_percent,
            },
            RailEvent::ToolStarted {
                tool_id,
                name,
                kind,
                target,
                cwd,
                expected_outcome,
                validation_kind,
            } => RailView::ToolStarted {
                tool_id: *tool_id,
                name: name@,
                kind: kind@,
                target: target@,
                cwd: otext(*cwd),
                expected_outcome: expected_outcome@,
                validation_kind: otext(*validation_kind),
            },
            RailEvent::ToolCompleted {
                tool_id,
                exit_code,
                duration_ms,
                files_changed,
                confidence_delta_percent,
            } => RailView::ToolCompleted {
                tool_id: *tool_id,
                exit_code: *exit_code,
                duration_ms: *duration_ms,
                files_changed: *files_changed,
                confidence_delta_percent: *confidence_delta_percent,
            },
            RailEvent::ProofProgress { tests_passed, tests_total, coverage_delta_percent } =>
                RailView::ProofProgress {
                tests_passed: *tests_passed,
                tests_total: *tests_total,
                coverage_delta_percent: *coverage_delta_percent,
            },
            RailEvent::ConfidenceUpdate { understanding_percent, merge_safety_percent, delta_percent } =>
                RailView::ConfidenceUpdate {
                understanding_percent: *understanding_percent,
                merge_safety_percent: *merge_safety_percent,
                delta_percent: *delta_percent,
            },
            RailEvent::StopReasonSet { reason } => RailView::StopReasonSet(reason@),
            RailEvent::ArtifactReady { label, path } => RailView::ArtifactReady {
                label: label@,
                path: path@,
            },
        }
    }
}

/// The values of a sequence of events.
pub open spec fn rail_views(v: Seq<RailEvent>) -> Seq<RailView> {
    v.map_values(|e: RailEvent| e@)
}

/// What one line of a run's event log says, as far as the rail reads it: each field is
/// the payload's text (or unsigned number) under the key of that name, where it has one.
#[derive(Debug, Clone)]
pub struct RunEventPayload {
    pub event: Option<String>,
    pub phase: Option<String>,
    pub detail: Option<String>,
    pub assistant_message: Option<String>,
    pub action: Option<String>,
    pub step: Option<u64>,
    pub status: Option<String>,
    pub summary: Option<String>,
    pub reason: Option<String>,
}

/// The value of a [`RunEventPayload`].
pub struct PayloadView {
    pub event: Option<Seq<char>>,
    pub phase: Option<Seq<char>>,
    pub detail: Option<Seq<char>>,
    pub assistant_message: Option<Seq<char>>,
    pub action: Option<Seq<char>>,
    pub step: Option<u64>,
    pub status: Option<Seq<char>>,
    pub summary: Option<Seq<char>>,
    pub reason: Option<Seq<char>>,
}

impl View for RunEventPayload {
    type V = PayloadView;

    open spec fn view(&self) -> PayloadView {
        PayloadView {
            event: otext(self.event),
            phase: otext(self.phase),
            detail: otext(self.detail),
            assistant_message: otext(self.assistant_message),
            action: otext(self.action),
            step: self.step,
            status: otext(self.status),
            summary: otext(self.summary),
            reason: otext(self.reason),
        }
    }
}

/// The text, or `default` where there is none.
pub open spec fn text_or(o: Option<Seq<char>>, default: Seq<char>) -> Seq<char> {
    match o {
        Some(s) => s,
        None => default,
    }
}

/// The phase a run's log names.
pub open spec fn phase_named(s: Seq<char>) -> AgentPhase {
    if s == "thinking"@ || s == "planning"@ {
        AgentPhase::Planning
    } else if s == "exploring"@ {
        AgentPhase::Exploring
    } else if s == "editing"@ {
        AgentPhase::Editing
    } else if s == "verifying"@ {
        AgentPhase::Verifying
    } else if s == "retrying"@ {
        AgentPhase::Debugging
    } else if s == "approval"@ {
        AgentPhase::WaitingForApproval
    } else {
        AgentPhase::Idle
    }
}

/// The expected outcome of a tool that advances the plan.
pub open spec fn advance_plan() -> Seq<char> {
    "advance the current autonomous plan"@
}

/// Whether a finished tool call's status counts as a success.
pub open spec fn tool_status_ok(status: Seq<char>) -> bool {
    status == "ok"@ || status == "completed"@
}

/// Whether a finished validation's status counts as a success.
pub open spec fn validation_ok(status: Option<Seq<char>>) -> bool {
    status == Some("success"@) || status == Some("ok"@)
}

/// The rail events that one line of a run's event log gives, by the payload's `event`.
pub open spec fn payload_events(p: PayloadView) -> Seq<RailView> {
    match p.event {
        None => seq![],
        Some(e) => if e == "run_started"@ {
            seq![
                RailView::PhaseChanged(AgentPhase::Planning),
                RailView::WaitReason("Run started inside Docker."@),
                RailView::TopDoubtUpdated("Waiting for the first Docker-backed proof signal."@),
            ]
        } else if e == "phase_changed"@ {
            let first = seq![RailView::PhaseChanged(phase_named(text_or(p.phase, ""@)))];
            match p.detail {
                Some(d) => first.push(RailView::OneSecondStory(story_excerpt(d, 96))),
                None => first,
            }
        } else if e == "model_request_started"@ {
            seq![RailView::WaitReason("Model is planning the next step."@)]
        } else if e == "assistant_turn_summary"@ {
            match p.assistant_message {
                Some(m) => seq![RailView::OneSecondStory(story_excerpt(m, 96))],
                None => seq![],
            }
        } else if e == "tool_call_started"@ {
            let action = text_or(p.action, ""@);
            let step = match p.step {
                Some(n) => n,
                None => 0,
            };
            seq![
                RailView::ToolStarted {
                    tool_id: step,
                    name: action,
                    kind: KindView::Classified { name: action, target: action },
                    target: action,
                    cwd: None,
                    expected_outcome: advance_plan(),
                    validation_kind: None,
                },
                RailView::OneSecondStory(story_excerpt(action, 96)),
            ]
        } else if e == "tool_call_finished"@ {
            let step = match p.step {
                Some(n) => n,
                None => 0,
            };
            let ok = tool_status_ok(text_or(p.status, "completed"@));
            seq![
                RailView::ToolCompleted {
                    tool_id: step,
                    exit_code: if ok { None } else { Some(1) },
                    duration_ms: 0,
                    files_changed: 0,
                    confidence_delta_percent: Some(if ok { 3i32 } else { -5i32 }),
                },
            ]
        } else if e == "validation_started"@ {
            seq![
                RailView::PhaseChanged(AgentPhase::Verifying),
                RailView::WaitReason(text_or(p.summary, ""@)),
            ]
        } else if e == "validation_finished"@ {
            let ok = validation_ok(p.status);
            seq![
                RailView::ProofProgress {
                    tests_passed: if ok { 1 } else { 0 },
                    tests_total: 1,
                    coverage_delta_percent: 0,
                },
                RailView::ConfidenceUpdate {
                    understanding_percent: if ok { 82 } else { 56 },
                    merge_safety_percent: if ok { 90 } else { 35 },
                    delta_percent: if ok { 12i32 } else { -14i32 },
                },
                RailView::TimeToProofUpdated {
                    eta_seconds: Some(if ok { 0 } else { 45 }),
                    confidence_target_percent: Some(if ok { 95 } else { 70 }),
                },
            ]
        } else if e == "run_finished"@ {
            let reason = text_or(p.reason, "unknown"@);
            seq![
                RailView::OneSecondStory("Run finished with "@ + reason),
                RailView::StopReasonSet(reason),
            ]
        } else {
            seq![]
        },
    }
}

/// A copy of an optional text.
fn copy_text(o: &Option<String>) -> (r: Option<String>)
    ensures
        otext(r) == otext(*o),
{
    match o {
        Some(s) => Some(string_of(chars_of(s.as_str()).as_slice())),
        None => None,
    }
}

/// A copy of a text.
fn copy_string(s: &String) -> (r: String)
    ensures
        r@ == s@,
{
    string_of(chars_of(s.as_str()).as_slice())
}

/// The text, or `default` where there is none.
fn text_or_exec(o: &Option<String>, default: &str) -> (r: String)
    ensures
        r@ == text_or(otext(*o), default@),
{
    match o {
        Some(s) => copy_string(s),
        None => default.to_owned(),
    }
}

/// Whether an optional text is the literal `lit`.
fn text_is(o: &Option<String>, lit: &str) -> (r: bool)
    ensures
        r == (otext(*o) == Some(lit@)),
{
    match o {
        Some(s) => {
            let c = chars_of(s.as_str());
            chars_eq_str(&c, lit)
        },
        None => false,
    }
}

/// The phase a run's log names.
fn phase_named_exec(s: &String) -> (r: AgentPhase)
    ensures
        r == phase_named(s@),
{
    let c = chars_of(s.as_str());
    if chars_eq_str(&c, "thinking") || chars_eq_str(&c, "planning") {
        AgentPhase::Planning
    } else if chars_eq_str(&c, "exploring") {
        AgentPhase::Exploring
    } else if chars_eq_str(&c, "editing") {
        AgentPhase::Editing
    } else if chars_eq_str(&c, "verifying") {
        AgentPhase::Verifying
    } else if chars_eq_str(&c, "retrying") {
        AgentPhase::Debugging
    } else if chars_eq_str(&c, "approval") {
        AgentPhase::WaitingForApproval
    } else {
        AgentPhase::Idle
    }
}

/// The rail events that one line of a run's event log gives.
pub fn synthetic_payload_to_rail_events(payload: &RunEventPayload) -> (r: Vec<RailEvent>)
    ensures
        rail_views(r@) == payload_events(payload@),
{
    let mut out: Vec<RailEvent> = Vec::new();
    if text_is(&payload.event, "run_started") {
        out.push(RailEvent::PhaseChanged(AgentPhase::Planning));
        out.push(RailEvent::WaitReason { explanation: "Run started inside Docker.".to_owned() });
        out.push(
            RailEvent::TopDoubtUpdated {
                doubt: "Waiting for the first Docker-backed proof signal.".to_owned(),
            },
        );
        assert(rail_views(out@) =~= payload_events(payload@));
    } else if text_is(&payload.event, "phase_changed") {
        let phase = text_or_exec(&payload.phase, "");
        out.push(RailEvent::PhaseChanged(phase_named_exec(&phase)));
        match &payload.detail {
            Some(d) => {
                out.push(RailEvent::OneSecondStory { summary: truncate_story(d.as_str(), 96) });
            },
            None => {},
        }
        assert(rail_views(out@) =~= payload_events(payload@));
    } else if text_is(&payload.event, "model_request_started") {
        out.push(
            RailEvent::WaitReason { explanation: "Model is planning the next step.".to_owned() },
        );
        assert(rail_views(out@) =~= payload_events(payload@));
    } else if text_is(&payload.event, "assistant_turn_summary") {
        match &payload.assistant_message {
            Some(m) => {
                out.push(RailEvent::OneSecondStory { summary: truncate_story(m.as_str(), 96) });
            },
            None => {},
        }
        assert(rail_views(out@) =~= payload_events(payload@));
    } else if text_is(&payload.event, "tool_call_started") {
        let action = text_or_exec(&payload.action, "");
        let step: u64 = match payload.step {
            Some(n) => n,
            None => 0,
        };
        let story = truncate_story(action.as_str(), 96);
        out.push(
            RailEvent::ToolStarted {
                tool_id: step,
                name: copy_string(&action),
                kind: ToolKindSource::Classified {
                    name: copy_string(&action),
                    target: copy_string(&action),
                },
                target: action,
                cwd: None,
                expected_outcome: "advance the current autonomous plan".to_owned(),
                validation_kind: None,
            },
        );
        out.push(RailEvent::OneSecondStory { summary: story });
        assert(rail_views(out@) =~= payload_events(payload@));
    } else if text_is(&payload.event, "tool_call_finished") {
        let step: u64 = match payload.step {
            Some(n) => n,
            None => 0,
        };
        let status = chars_of(text_or_exec(&payload.status, "completed").as_str());
        let ok = chars_eq_str(&status, "ok") || chars_eq_str(&status, "completed");
        out.push(
            RailEvent::ToolCompleted {
                tool_id: step,
                exit_code: if ok {
                    None
                } else {
                    Some(1)
                },
                duration_ms: 0,
                files_changed: 0,
                confidence_delta_percent: Some(
                    if ok {
                        3
                    } else {
                        -5
                    },
                ),
            },
        );
        assert(rail_views(out@) =~= payload_events(payload@));
    } else if text_is(&payload.event, "validation_started") {
        out.push(RailEvent::PhaseChanged(AgentPhase::Verifying));
        out.push(RailEvent::WaitReason { explanation: text_or_exec(&payload.summary, "") });
        assert(rail_views(out@) =~= payload_events(payload@));
    } else if text_is(&payload.event, "validation_finished") {
        let ok = text_is(&payload.status, "success") || text_is(&payload.status, "ok");
        out.push(
            RailEvent::ProofProgress {
                tests_passed: if ok {
                    1
                } else {
                    0
                },
                tests_total: 1,
                coverage_delta_percent: 0,
            },
        );
        out.push(
            RailEvent::ConfidenceUpdate {
                understanding_percent: if ok {
                    82
                } else {
                    56
                },
                merge_safety_percent: if ok {
                    90
                } else {
                    35
                },
                delta_percent: if ok {
                    12
                } else {
                    -14
                },
            },
        );
        out.push(
            RailEvent::TimeToProofUpdated {
                eta_seconds: Some(
                    if ok {
                        0
                    } else {
                        45
                    },
                ),
                confidence_target_percent: Some(
                    if ok {
                        95
                    } else {
                        70
                    },
                ),
            },
        );
        assert(rail_views(out@) =~= payload_events(payload@));
    } else if text_is(&payload.event, "run_finished") {
        let reason = text_or_exec(&payload.reason, "unknown");
        let mut story = chars_of("Run finished with ");
        push_str(&mut story, reason.as_str());
        out.push(RailEvent::OneSecondStory { summary: string_of(story.as_slice()) });
        out.push(RailEvent::StopReasonSet { reason });
        assert(rail_views(out@) =~= payload_events(payload@));
    }
    assert(rail_views(out@) =~= payload_events(payload@));
    out
}

/// A progress report of a run driven through the Codex executor.
#[derive(Debug, Clone)]
pub enum CodexProgressEvent {
    ThreadStarted,
    AssistantMessage { text: String },
    CommandExecution { command: String, exit_code: Option<i32>, status: String },
    TurnCompleted { input_tokens: u64, output_tokens: u64, cached_input_tokens: u64 },
}

/// The counters a Codex run's progress reports advance: the id the next tool gets, and
/// the number of turns completed so far.
#[derive(Debug, Clone, Copy, PartialEq, Eq, Structural)]
pub struct CodexRailCounters {
    pub next_tool_id: u64,
    pub completed_turns: u32,
}

impl CodexRailCounters {
    /// The counters of a run that has just started: the first tool gets id 1.
    pub fn new() -> (r: CodexRailCounters)
        ensures
            r.next_tool_id == 1,
            r.completed_turns == 0,
    {
        CodexRailCounters { next_tool_id: 1, completed_turns: 0 }
    }
}

/// The smaller of two numbers.
pub open spec fn min_int(a: int, b: int) -> int {
    if a <= b {
        a
    } else {
        b
    }
}

/// The larger of two numbers.
pub open spec fn max_int(a: int, b: int) -> int {
    if a >= b {
        a
    } else {
        b
    }
}

/// The understanding, in percent, after `turns` completed turns.
pub open spec fn understanding_after(turns: int) -> int {
    min_int(45 + 7 * turns, 94)
}

/// The merge safety, in percent, after `turns` completed turns.
pub open spec fn merge_safety_after(turns: int) -> int {
    min_int(40 + 8 * turns, 92)
}

/// The rail events of a command that a Codex run executed, given the id its tool gets.
pub open spec fn codex_command_events(
    command: Seq<char>,
    exit_code: Option<i32>,
    status: Seq<char>,
    tool_id: u64,
) -> Seq<RailView> {
    let success = match exit_code {
        Some(c) => c == 0,
        None => true,
    };
    if is_validation(command) {
        seq![
            RailView::PhaseChanged(AgentPhase::Verifying),
            RailView::WaitReason(command),
            RailView::ToolStarted {
                tool_id,
                name: "validation"@,
                kind: KindView::Test,
                target: command,
                cwd: None,
                expected_outcome: "prove the latest change"@,
                validation_kind: Some("codex-validation"@),
            },
            RailView::ToolCompleted {
                tool_id,
                exit_code,
                duration_ms: 0,
                files_changed: 0,
                confidence_delta_percent: Some(if success { 8i32 } else { -12i32 }),
            },
            RailView::ProofProgress {
                tests_passed: if success { 1 } else { 0 },
                tests_total: 1,
                coverage_delta_percent: 0,
            },
            RailView::ConfidenceUpdate {
                understanding_percent: if success { 82 } else { 58 },
                merge_safety_percent: if success { 90 } else { 34 },
                delta_percent: if success { 8i32 } else { -12i32 },
            },
            RailView::OneSecondStory(
                "Validation "@ + status + ": "@ + story_excerpt(command, 80),
            ),
            RailView::TimeToProofUpdated {
                eta_seconds: Some(if success { 0 } else { 60 }),
                confidence_target_percent: Some(if success { 95 } else { 70 }),
            },
        ]
    } else {
        seq![
            RailView::PhaseChanged(AgentPhase::Editing),
            RailView::ToolStarted {
                tool_id,
                name: "command"@,
                kind: KindView::Classified { name: "command"@, target: command },
                target: command,
                cwd: None,
                expected_outcome: advance_plan(),
                validation_kind: None,
            },
            RailView::ToolCompleted {
                tool_id,
                exit_code,
                duration_ms: 0,
                files_changed: 0,
                confidence_delta_percent: Some(if success { 3i32 } else { -5i32 }),
            },
            RailView::OneSecondStory(story_excerpt(command, 96)),
        ]
    }
}

/// The rail events of a completed turn, given the number of turns completed with it.
pub open spec fn codex_turn_events(turns: int, input_tokens: u64, output_tokens: u64) -> Seq<
    RailView,
> {
    let u = understanding_after(turns);
    let m = merge_safety_after(turns);
    seq![
        RailView::ConfidenceUpdate {
            understanding_percent: u as u32,
            merge_safety_percent: m as u32,
            delta_percent: 5,
        },
        RailView::OneSecondStory(
            "Codex completed turn "@ + decimal(turns as nat) + " ("@ + decimal(input_tokens as nat)
                + " in / "@ + decimal(output_tokens as nat) + " out tokens)."@,
        ),
        RailView::TimeToProofUpdated {
            eta_seconds: Some(max_int(120 - 20 * turns, 0) as u64),
            confidence_target_percent: Some(max_int(m, u) as u32),
        },
    ]
}

/// The value of a [`CodexProgressEvent`], with text as character sequences.
pub enum CodexView {
    ThreadStarted,
    AssistantMessage(Seq<char>),
    CommandExecution { command: Seq<char>, exit_code: Option<i32>, status: Seq<char> },
    TurnCompleted { input_tokens: u64, output_tokens: u64 },
}

impl View for CodexProgressEvent {
    type V = CodexView;

    open spec fn view(&self) -> CodexView {
        match self {
            CodexProgressEvent::ThreadStarted => CodexView::ThreadStarted,
            CodexProgressEvent::AssistantMessage { text } => CodexView::AssistantMessage(text@),
            CodexProgressEvent::CommandExecution { command, exit_code, status } =>
                CodexView::CommandExecution {
                command: command@,
                exit_code: *exit_code,
                status: status@,
            },
            CodexProgressEvent::TurnCompleted { input_tokens, output_tokens, .. } =>
                CodexView::TurnCompleted {
                input_tokens: *input_tokens,
                output_tokens: *output_tokens,
            },
        }
    }
}

/// The rail events a Codex progress report gives, with the counters as they stood before it.
pub open spec fn codex_events(e: CodexView, c: CodexRailCounters) -> Seq<RailView> {
    match e {
        CodexView::ThreadStarted => seq![
            RailView::PhaseChanged(AgentPhase::Planning),
            RailView::WaitReason("Codex session attached. Bootstrapping the autonomous run."@),
            RailView::OneSecondStory("Codex is grounding the plan before it edits."@),
            RailView::TopDoubtUpdated("Need the first Codex evidence pass before editing."@),
            RailView::TimeToProofUpdated {
                eta_seconds: Some(180),
                confidence_target_percent: Some(82),
            },
        ],
        CodexView::AssistantMessage(text) => seq![RailView::OneSecondStory(story_excerpt(text, 96))],
        CodexView::CommandExecution { command, exit_code, status } => codex_command_events(
            command,
            exit_code,
            status,
            c.next_tool_id,
        ),
        CodexView::TurnCompleted { input_tokens, output_tokens } => codex_turn_events(
            c.completed_turns + 1,
            input_tokens,
            output_tokens,
        ),
    }
}

/// The counters after a Codex progress report: a command takes the next tool id (the id
/// wraps around as an atomic counter does), a completed turn is counted.
pub open spec fn codex_counters_after(e: CodexView, c: CodexRailCounters) -> CodexRailCounters {
    match e {
        CodexView::CommandExecution { .. } => CodexRailCounters {
            next_tool_id: if c.next_tool_id == u64::MAX {
                0
            } else {
                (c.next_tool_id + 1) as u64
            },
            completed_turns: c.completed_turns,
        },
        CodexView::TurnCompleted { .. } => CodexRailCounters {
            next_tool_id: c.next_tool_id,
            completed_turns: (c.completed_turns + 1) as u32,
        },
        _ => c,
    }
}

/// The rail events of a command that a Codex run executed.
fn codex_command_rail_events(command: &String, exit_code: Option<i32>, status: &String, tool_id: u64) -> (r: Vec<
    RailEvent,
>)
    ensures
        rail_views(r@) == codex_command_events(command@, exit_code, status@, tool_id),
{
    let success = match exit_code {
        Some(c) => c == 0,
        None => true,
    };
    let mut out: Vec<RailEvent> = Vec::new();
    if is_validation_command(command.as_str()) {
        out.push(RailEvent::PhaseChanged(AgentPhase::Verifying));
        out.push(RailEvent::WaitReason { explanation: copy_string(command) });
        out.push(
            RailEvent::ToolStarted {
                tool_id,
                name: "validation".to_owned(),
                kind: ToolKindSource::Test,
                target: copy_string(command),
                cwd: None,
                expected_outcome: "prove the latest change".to_owned(),
                validation_kind: Some("codex-validation".to_owned()),
            },
        );
        out.push(
            RailEvent::ToolCompleted {
                tool_id,
                exit_code,
                duration_ms: 0,
                files_changed: 0,
                confidence_delta_percent: Some(if success { 8i32 } else { -12i32 }),
            },
        );
        out.push(
            RailEvent::ProofProgress {
                tests_passed: if success { 1 } else { 0 },
                tests_total: 1,
                coverage_delta_percent: 0,
            },
        );
        out.push(
            RailEvent::ConfidenceUpdate {
                understanding_percent: if success { 82 } else { 58 },
                merge_safety_percent: if success { 90 } else { 34 },
                delta_percent: if success { 8i32 } else { -12i32 },
            },
        );
        let mut story = chars_of("Validation ");
        push_str(&mut story, status.as_str());
        push_str(&mut story, ": ");
        let excerpt = truncate_story(command.as_str(), 80);
        push_str(&mut story, excerpt.as_str());
        out.push(RailEvent::OneSecondStory { summary: string_of(story.as_slice()) });
        out.push(
            RailEvent::TimeToProofUpdated {
                eta_seconds: Some(if success { 0 } else { 60 }),
                confidence_target_percent: Some(if success { 95 } else { 70 }),
            },
        );
    } else {
        out.push(RailEvent::PhaseChanged(AgentPhase::Editing));
        out.push(
            RailEvent::ToolStarted {
                tool_id,
                name: "command".to_owned(),
                kind: ToolKindSource::Classified {
                    name: "command".to_owned(),
                    target: copy_string(command),
                },
                target: copy_string(command),
                cwd: None,
                expected_outcome: "advance the current autonomous plan".to_owned(),
                validation_kind: None,
            },
        );
        out.push(
            RailEvent::ToolCompleted {
                tool_id,
                exit_code,
                duration_ms: 0,
                files_changed: 0,
                confidence_delta_percent: Some(if success { 3i32 } else { -5i32 }),
            },
        );
        out.push(RailEvent::OneSecondStory { summary: truncate_story(command.as_str(), 96) });
    }
    assert(rail_views(out@) =~= codex_command_events(command@, exit_code, status@, tool_id));
    out
}

/// The rail events of a completed turn, given the number of turns completed with it.
fn codex_turn_rail_events(turns: u32, input_tokens: u64, output_tokens: u64) -> (r: Vec<RailEvent>)
    ensures
        rail_views(r@) == codex_turn_events(turns as int, input_tokens, output_tokens),
{
    let t: u64 = turns as u64;
    let u: u64 = if 45 + 7 * t <= 94 { 45 + 7 * t } else { 94 };
    let m: u64 = if 40 + 8 * t <= 92 { 40 + 8 * t } else { 92 };
    let mut out: Vec<RailEvent> = Vec::new();
    out.push(
        RailEvent::ConfidenceUpdate {
            understanding_percent: u as u32,
            merge_safety_percent: m as u32,
            delta_percent: 5,
        },
    );
    let mut story = chars_of("Codex completed turn ");
    push_chars(&mut story, &decimal_u64(t));
    push_str(&mut story, " (");
    push_chars(&mut story, &decimal_u64(input_tokens));
    push_str(&mut story, " in / ");
    push_chars(&mut story, &decimal_u64(output_tokens));
    push_str(&mut story, " out tokens).");
    out.push(RailEvent::OneSecondStory { summary: string_of(story.as_slice()) });
    let eta: u64 = if 20 * t <= 120 { 120 - 20 * t } else { 0 };
    out.push(
        RailEvent::TimeToProofUpdated {
            eta_seconds: Some(eta),
            confidence_target_percent: Some(if m >= u { m as u32 } else { u as u32 }),
        },
    );
    assert(rail_views(out@) =~= codex_turn_events(turns as int, input_tokens, output_tokens));
    out
}

/// The rail events a Codex progress report gives; the counters advance as the report
/// takes a tool id or completes a turn.
pub fn codex_progress_to_rail_events(
    event: &CodexProgressEvent,
    counters: &mut CodexRailCounters,
) -> (r: Vec<RailEvent>)
    requires
        event@ is TurnCompleted ==> old(counters).completed_turns < u32::MAX,
    ensures
        rail_views(r@) == codex_events(event@, *old(counters)),
        *final(counters) == codex_counters_after(event@, *old(counters)),
{
    match event {
        CodexProgressEvent::ThreadStarted => {
            let mut out: Vec<RailEvent> = Vec::new();
            out.push(RailEvent::PhaseChanged(AgentPhase::Planning));
            out.push(
                RailEvent::WaitReason {
                    explanation: "Codex session attached. Bootstrapping the autonomous run.".to_owned(),
                },
            );
            out.push(
                RailEvent::OneSecondStory {
                    summary: "Codex is grounding the plan before it edits.".to_owned(),
                },
            );
            out.push(
                RailEvent::TopDoubtUpdated {
                    doubt: "Need the first Codex evidence pass before editing.".to_owned(),
                },
            );
            out.push(
                RailEvent::TimeToProofUpdated {
                    eta_seconds: Some(180),
                    confidence_target_percent: Some(82),
                },
            );
            assert(rail_views(out@) =~= codex_events(event@, *old(counters)));
            out
        },
        CodexProgressEvent::AssistantMessage { text } => {
            let mut out: Vec<RailEvent> = Vec::new();
            out.push(RailEvent::OneSecondStory { summary: truncate_story(text.as_str(), 96) });
            assert(rail_views(out@) =~= codex_events(event@, *old(counters)));
            out
        },
        CodexProgressEvent::CommandExecution { command, exit_code, status } => {
            let id = counters.next_tool_id;
            counters.next_tool_id = id.wrapping_add(1);
            codex_command_rail_events(command, *exit_code, status, id)
        },
        CodexProgressEvent::TurnCompleted { input_tokens, output_tokens, .. } => {
            counters.completed_turns = counters.completed_turns + 1;
            codex_turn_rail_events(counters.completed_turns, *input_tokens, *output_tokens)
        },
    }
}

/// The lines of `ls` that are not blank once trimmed, trimmed, in order.
pub open spec fn nonblank_trimmed(ls: Seq<Seq<char>>) -> Seq<Seq<char>>
    decreases ls.len(),
{
    if ls.len() == 0 {
        seq![]
    } else if trim(ls.last()).len() > 0 {
        nonblank_trimmed(ls.drop_last()).push(trim(ls.last()))
    } else {
        nonblank_trimmed(ls.drop_last())
    }
}

/// Whether a run's event log holds a complete record past the first `processed_bytes`
/// bytes: it is longer than that and ends with a newline.
pub open spec fn log_has_fresh_records(raw: Seq<char>, processed_bytes: int) -> bool {
    processed_bytes < byte_len(raw) && raw.len() > 0 && raw.last() == '\n'
}

/// The records of a run's event log written after its first `processed_bytes` bytes: the
/// lines of the rest, trimmed, without the blank ones. Returns `None` while the log holds
/// no complete new record; the caller then reads it again later from the same offset, and
/// otherwise goes on from the log's full byte length.
pub fn fresh_event_lines(raw: &str, processed_bytes: usize) -> (r: Option<Vec<String>>)
    requires
        byte_len(raw@) <= usize::MAX,
        processed_bytes < byte_len(raw@) ==> exists|k: int|
            0 <= k <= raw@.len() && byte_len(raw@.take(k)) == processed_bytes,
    ensures
        r is Some <==> log_has_fresh_records(raw@, processed_bytes as int),
        r matches Some(v) ==> forall|k: int|
            0 <= k <= raw@.len() && byte_len(raw@.take(k)) == processed_bytes ==> views(v@)
                == nonblank_trimmed(lines(raw@.skip(k))),
{
    let chars = chars_of(raw);
    let total = char_byte_index(raw, chars.len());
    assert(raw@.take(raw@.len() as int) =~= raw@);
    if total <= processed_bytes || chars.len() == 0 || chars[chars.len() - 1] != '\n' {
        return None;
    }
    let k = char_index_for_byte(raw, processed_bytes);
    let rest = slice_chars(&chars, k, chars.len());
    let ls = split_lines(&rest);
    let mut out: Vec<String> = Vec::new();
    let mut i: usize = 0;
    while i < ls.len()
        invariant
            i <= ls.len(),
            lines_view(ls@) == lines(rest@),
            views(out@) == nonblank_trimmed(lines_view(ls@).take(i as int)),
        decreases ls.len() - i,
    {
        let line = &ls[i];
        let (a, b) = trim_bounds(line, 0, line.len());
        proof {
            assert(line@.subrange(0, line@.len() as int) =~= line@);
            assert(lines_view(ls@).take(i + 1).drop_last() =~= lines_view(ls@).take(i as int));
            assert(lines_view(ls@)[i as int] == line@);
        }
        if a < b {
            let t = substring(line, a, b);
            proof {
                crate::action_discovery::lemma_views_push(out@, t);
            }
            out.push(t);
        }
        i += 1;
    }
    proof {
        assert(lines_view(ls@).take(ls.len() as int) =~= lines_view(ls@));
        assert forall|j: int|
            0 <= j <= raw@.len() && byte_len(raw@.take(j)) == processed_bytes implies views(out@)
            == nonblank_trimmed(lines(raw@.skip(j))) by {
            if j < k {
                lemma_byte_len_monotone(raw@, j, k as int);
            } else if j > k {
                lemma_byte_len_monotone(raw@, k as int, j);
            }
            assert(rest@ =~= raw@.skip(j));
        }
    }
    Some(out)
}

// ---------------------------------------------------------------------------
// Laws.
// ---------------------------------------------------------------------------

/// Whether an event starts the tool with the given id.
pub open spec fn starts_tool(e: RailView, id: u64) -> bool {
    e matches RailView::ToolStarted { tool_id, .. } && tool_id == id
}

/// Whether an event completes the tool with the given id.
pub open spec fn completes_tool(e: RailView, id: u64) -> bool {
    e matches RailView::ToolCompleted { tool_id, .. } && tool_id == id
}

/// A command that a Codex run executed is shown as a tool that is started and then
/// completed under one id, the counters' next id, and the next command gets the id after it.
pub proof fn lemma_codex_command_is_one_tool(
    command: Seq<char>,
    exit_code: Option<i32>,
    status: Seq<char>,
    c: CodexRailCounters,
)
    requires
        c.next_tool_id < u64::MAX,
    ensures
        ({
            let events = codex_events(
                CodexView::CommandExecution { command, exit_code, status },
                c,
            );
            exists|i: int, j: int|
                0 <= i < j < events.len() && starts_tool(events[i], c.next_tool_id)
                    && completes_tool(events[j], c.next_tool_id)
        }),
        codex_counters_after(CodexView::CommandExecution { command, exit_code, status }, c).next_tool_id
            == c.next_tool_id + 1,
{
    let events = codex_events(CodexView::CommandExecution { command, exit_code, status }, c);
    if is_validation(command) {
        assert(starts_tool(events[2], c.next_tool_id) && completes_tool(events[3], c.next_tool_id));
    } else {
        assert(starts_tool(events[1], c.next_tool_id) && completes_tool(events[2], c.next_tool_id));
    }
}

/// The confidence a Codex run reports never falls as turns complete, and never passes
/// its ceilings: 94% understanding and 92% merge safety.
pub proof fn lemma_turn_confidence_rises_to_ceiling(t1: int, t2: int)
    requires
        0 <= t1 <= t2,
    ensures
        understanding_after(t1) <= understanding_after(t2) <= 94,
        merge_safety_after(t1) <= merge_safety_after(t2) <= 92,
{
}

/// A newline occurs at `k` exactly when the character there is one.
proof fn lemma_newline_at(s: Seq<char>, k: int)
    ensures
        matches_at(s, seq!['\n'], k) <==> (0 <= k < s.len() && s[k] == '\n'),
{
    if 0 <= k < s.len() && s[k] == '\n' {
        assert(s.subrange(k, k + 1) =~= seq!['\n']);
    }
    if matches_at(s, seq!['\n'], k) {
        assert(s.subrange(k, k + 1)[0] == s[k]);
    }
}

/// Where `s[lo..lo+len]` and `t[lo2..lo2+len]` agree, the first newline from their
/// starts is found at the same offset in both, as long as one is found in `s` within it.
proof fn lemma_same_first_newline(s: Seq<char>, t: Seq<char>, lo: int, lo2: int, hi: int, hi2: int)
    requires
        0 <= lo < hi <= s.len(),
        0 <= lo2 <= hi2 <= t.len(),
        hi - lo <= hi2 - lo2,
        s.subrange(lo, hi) == t.subrange(lo2, lo2 + (hi - lo)),
        find_in(s, seq!['\n'], lo, hi) is Some,
    ensures
        find_in(t, seq!['\n'], lo2, hi2) is Some,
        find_in(t, seq!['\n'], lo2, hi2)->0 - lo2 == find_in(s, seq!['\n'], lo, hi)->0 - lo,
{
    let nl = seq!['\n'];
    lemma_find_in_some(s, nl, lo, hi);
    lemma_find_in_some(t, nl, lo2, hi2);
    let i = find_in(s, nl, lo, hi)->0;
    assert(s[i] == s.subrange(lo, hi)[i - lo]);
    assert(t[lo2 + (i - lo)] == t.subrange(lo2, lo2 + (hi - lo))[i - lo]);
    lemma_newline_at(s, i);
    lemma_newline_at(t, lo2 + (i - lo));
    assert(matches_at(t, nl, lo2 + (i - lo)));
    match find_in(t, nl, lo2, hi2) {
        Some(j) => {
            lemma_newline_at(t, j);
            if j < lo2 + (i - lo) {
                lemma_newline_at(s, lo + (j - lo2));
                assert(s[lo + (j - lo2)] == s.subrange(lo, hi)[j - lo2]);
                assert(t[j] == t.subrange(lo2, lo2 + (hi - lo))[j - lo2]);
                assert(matches_at(s, nl, lo + (j - lo2)));
            }
        },
        None => {},
    }
}

/// The lines of `t[lo2..]` are those of `s[lo..]` where the rest of `s` from `lo` is the
/// rest of `t` from `lo2`.
proof fn lemma_lines_from_shift(s: Seq<char>, t: Seq<char>, lo: int, lo2: int)
    requires
        0 <= lo <= s.len(),
        0 <= lo2 <= t.len(),
        s.len() - lo == t.len() - lo2,
        s.skip(lo) == t.skip(lo2),
    ensures
        lines_from(s, lo) == lines_from(t, lo2),
    decreases s.len() - lo,
{
    let nl = seq!['\n'];
    if lo < s.len() {
        lemma_find_in_some(s, nl, lo, s.len() as int);
        lemma_find_in_some(t, nl, lo2, t.len() as int);
        match find_in(s, nl, lo, s.len() as int) {
            Some(i) => {
                assert(s.subrange(lo, s.len() as int) =~= s.skip(lo));
                assert(t.subrange(lo2, lo2 + (s.len() - lo)) =~= t.skip(lo2));
                lemma_same_first_newline(s, t, lo, lo2, s.len() as int, t.len() as int);
                let j = find_in(t, nl, lo2, t.len() as int)->0;
                assert(s.subrange(lo, i) =~= s.skip(lo).subrange(0, i - lo));
                assert(t.subrange(lo2, j) =~= t.skip(lo2).subrange(0, j - lo2));
                assert(s.skip(i + 1) =~= s.skip(lo).skip(i + 1 - lo));
                assert(t.skip(j + 1) =~= t.skip(lo2).skip(j + 1 - lo2));
                lemma_lines_from_shift(s, t, i + 1, j + 1);
            },
            None => {
                match find_in(t, nl, lo2, t.len() as int) {
                    Some(j) => {
                        assert(s.subrange(lo, s.len() as int) =~= s.skip(lo));
                        assert(t.subrange(lo2, t.len() as int) =~= t.skip(lo2));
                        lemma_same_first_newline(t, s, lo2, lo, t.len() as int, s.len() as int);
                    },
                    None => {
                        assert(s.subrange(lo, s.len() as int) =~= s.skip(lo));
                        assert(t.subrange(lo2, t.len() as int) =~= t.skip(lo2));
                    },
                }
            },
        }
    }
}

/// The lines of `a + b` from `pos` inside `a`, where `a` ends with a newline: the lines of
/// `a` from `pos`, then those of `b`.
proof fn lemma_lines_from_split(a: Seq<char>, b: Seq<char>, pos: int)
    requires
        a.len() > 0,
        a.last() == '\n',
        0 <= pos <= a.len(),
    ensures
        lines_from(a + b, pos) == lines_from(a, pos) + lines(b),
    decreases a.len() - pos,
{
    let s = a + b;
    let nl = seq!['\n'];
    if pos == a.len() {
        assert(s.skip(a.len() as int) =~= b.skip(0));
        lemma_lines_from_shift(s, b, a.len() as int, 0);
        assert(lines_from(a, pos) =~= seq![]);
        assert(lines_from(a, pos) + lines(b) =~= lines(b));
    } else {
        lemma_find_in_some(a, nl, pos, a.len() as int);
        lemma_newline_at(a, a.len() - 1);
        lemma_lines_from_split_step(a, b, pos);
        let i = find_in(a, nl, pos, a.len() as int)->0;
        lemma_lines_from_split(a, b, i + 1);
        assert(lines_from(a, pos) + lines(b) =~= seq![strip_cr(a.subrange(pos, i))] + (lines_from(
            a,
            i + 1,
        ) + lines(b)));
    }
}

/// One step of [`lemma_lines_from_split`]: the first line from `pos` is the same in `a`
/// and in `a + b`.
proof fn lemma_lines_from_split_step(a: Seq<char>, b: Seq<char>, pos: int)
    requires
        a.len() > 0,
        a.last() == '\n',
        0 <= pos < a.len(),
    ensures
        find_in(a, seq!['\n'], pos, a.len() as int) matches Some(i) && lines_from(a, pos) == seq![
            strip_cr(a.subrange(pos, i)),
        ] + lines_from(a, i + 1) && lines_from(a + b, pos) == seq![strip_cr(a.subrange(pos, i))]
            + lines_from(a + b, i + 1),
{
    let s = a + b;
    let nl = seq!['\n'];
    lemma_find_in_some(a, nl, pos, a.len() as int);
    lemma_newline_at(a, a.len() - 1);
    assert(matches_at(a, nl, a.len() - 1));
    assert(find_in(a, nl, pos, a.len() as int) is Some);
    assert(a.subrange(pos, a.len() as int) =~= s.subrange(pos, pos + (a.len() - pos)));
    lemma_same_first_newline(a, s, pos, pos, a.len() as int, s.len() as int);
    let i = find_in(a, nl, pos, a.len() as int)->0;
    assert(s.subrange(pos, i) =~= a.subrange(pos, i));
}

/// The non-blank trimmed lines of two runs of lines, one after the other.
proof fn lemma_nonblank_trimmed_concat(x: Seq<Seq<char>>, y: Seq<Seq<char>>)
    ensures
        nonblank_trimmed(x + y) == nonblank_trimmed(x) + nonblank_trimmed(y),
    decreases y.len(),
{
    if y.len() == 0 {
        assert(x + y =~= x);
        assert(nonblank_trimmed(x) + nonblank_trimmed(y) =~= nonblank_trimmed(x));
    } else {
        assert((x + y).drop_last() =~= x + y.drop_last());
        assert((x + y).last() == y.last());
        lemma_nonblank_trimmed_concat(x, y.drop_last());
        if trim(y.last()).len() > 0 {
            assert(nonblank_trimmed(x) + nonblank_trimmed(y) =~= (nonblank_trimmed(x) + nonblank_trimmed(
                y.drop_last(),
            )).push(trim(y.last())));
        }
    }
}

/// Reading a run's event log as it grows gives the same records as reading it at once:
/// where the log so far, `first`, ends with a complete record, the records of the whole log
/// are those of `first` followed by those written after it.
pub proof fn lemma_log_read_in_steps(first: Seq<char>, rest: Seq<char>)
    requires
        first.len() > 0,
        first.last() == '\n',
    ensures
        nonblank_trimmed(lines((first + rest).skip(0))) == nonblank_trimmed(lines(first.skip(0)))
            + nonblank_trimmed(lines((first + rest).skip(first.len() as int))),
{
    let s = first + rest;
    assert(s.skip(0) =~= s);
    assert(first.skip(0) =~= first);
    assert(s.skip(first.len() as int) =~= rest);
    lemma_lines_from_split(first, rest, 0);
    lemma_nonblank_trimmed_concat(lines(first), lines(rest));
}

/// The lengths and first letters of the words a run's log uses, which tell them apart.
proof fn lemma_rail_words()
    ensures
        "run_started"@.len() == 11,
        "run_started"@[0] == 'r',
        "phase_changed"@.len() == 13,
        "phase_changed"@[0] == 'p',
        "model_request_started"@.len() == 21,
        "model_request_started"@[0] == 'm',
        "assistant_turn_summary"@.len() == 22,
        "assistant_turn_summary"@[0] == 'a',
        "tool_call_started"@.len() == 17,
        "tool_call_started"@[0] == 't',
        "tool_call_finished"@.len() == 18,
        "tool_call_finished"@[0] == 't',
        "validation_started"@.len() == 18,
        "validation_started"@[0] == 'v',
        "validation_finished"@.len() == 19,
        "validation_finished"@[0] == 'v',
        "run_finished"@.len() == 12,
        "run_finished"@[0] == 'r',
        "success"@.len() == 7,
        "success"@[0] == 's',
        "ok"@.len() == 2,
        "ok"@[0] == 'o',
        "completed"@.len() == 9,
        "completed"@[0] == 'c',
        "thinking"@.len() == 8,
        "thinking"@[0] == 't',
        "planning"@.len() == 8,
        "planning"@[0] == 'p',
        "exploring"@.len() == 9,
        "exploring"@[0] == 'e',
        "editing"@.len() == 7,
        "editing"@[0] == 'e',
        "verifying"@.len() == 9,
        "verifying"@[0] == 'v',
        "retrying"@.len() == 8,
        "retrying"@[0] == 'r',
        "approval"@.len() == 8,
        "approval"@[0] == 'a',
        ""@.len() == 0,
{
    reveal_strlit("run_started");
    reveal_strlit("phase_changed");
    reveal_strlit("model_request_started");
    reveal_strlit("assistant_turn_summary");
    reveal_strlit("tool_call_started");
    reveal_strlit("tool_call_finished");
    reveal_strlit("validation_started");
    reveal_strlit("validation_finished");
    reveal_strlit("run_finished");
    reveal_strlit("success");
    reveal_strlit("ok");
    reveal_strlit("completed");
    reveal_strlit("thinking");
    reveal_strlit("planning");
    reveal_strlit("exploring");
    reveal_strlit("editing");
    reveal_strlit("verifying");
    reveal_strlit("retrying");
    reveal_strlit("approval");
    reveal_strlit("");
}

/// A `phase_changed` line first moves the rail to the phase it names: `thinking` and
/// `planning` plan, `exploring` explores, `editing` edits, `verifying` verifies,
/// `retrying` debugs, `approval` waits for approval, and any other name (or none) is idle.
pub proof fn lemma_phase_changed_names_its_phase(p: PayloadView)
    requires
        p.event == Some("phase_changed"@),
    ensures
        ({
            let first = payload_events(p)[0];
            &&& p.phase == Some("thinking"@) ==> first == RailView::PhaseChanged(AgentPhase::Planning)
            &&& p.phase == Some("planning"@) ==> first == RailView::PhaseChanged(AgentPhase::Planning)
            &&& p.phase == Some("exploring"@) ==> first == RailView::PhaseChanged(AgentPhase::Exploring)
            &&& p.phase == Some("editing"@) ==> first == RailView::PhaseChanged(AgentPhase::Editing)
            &&& p.phase == Some("verifying"@) ==> first == RailView::PhaseChanged(AgentPhase::Verifying)
            &&& p.phase == Some("retrying"@) ==> first == RailView::PhaseChanged(AgentPhase::Debugging)
            &&& p.phase == Some("approval"@) ==> first == RailView::PhaseChanged(
                AgentPhase::WaitingForApproval,
            )
            &&& p.phase is None ==> first == RailView::PhaseChanged(AgentPhase::Idle)
        }),
{
    lemma_rail_words();
}

/// A `validation_finished` line counts one test, passed exactly when its status is
/// `success` or `ok`; a pass raises the confidence and a failure lowers it, below what a
/// pass reports.
pub proof fn lemma_validation_finished_reports_its_outcome(p: PayloadView)
    requires
        p.event == Some("validation_finished"@),
    ensures
        ({
            let ok = p.status == Some("success"@) || p.status == Some("ok"@);
            let ev = payload_events(p);
            &&& ev[0] matches RailView::ProofProgress { tests_passed, tests_total, .. } && tests_total
                == 1 && (tests_passed == 1) == ok && (tests_passed == 0) == !ok
            &&& ev[1] matches RailView::ConfidenceUpdate {
                understanding_percent,
                merge_safety_percent,
                delta_percent,
            } && (delta_percent > 0) == ok && (ok ==> understanding_percent == 82
                && merge_safety_percent == 90) && (!ok ==> understanding_percent < 82
                && merge_safety_percent < 90)
        }),
{
    lemma_rail_words();
}

/// A `run_finished` line ends with the stop reason it gives, `unknown` when it gives none.
pub proof fn lemma_run_finished_sets_its_reason(p: PayloadView)
    requires
        p.event == Some("run_finished"@),
    ensures
        payload_events(p).len() == 2,
        payload_events(p)[1] == RailView::StopReasonSet(
            match p.reason {
                Some(r) => r,
                None => "unknown"@,
            },
        ),
{
    lemma_rail_words();
}

/// A `tool_call_finished` line completes the tool of its step; it failed (exit code 1,
/// confidence down) exactly when it gives a status other than `ok` or `completed`.
pub proof fn lemma_tool_call_finished_reports_failure(p: PayloadView)
    requires
        p.event == Some("tool_call_finished"@),
    ensures
        ({
            let failed = p.status matches Some(st) && st != "ok"@ && st != "completed"@;
            payload_events(p)[0] matches RailView::ToolCompleted {
                tool_id,
                exit_code,
                confidence_delta_percent,
                ..
            } && tool_id == (match p.step {
                Some(n) => n,
                None => 0,
            }) && (exit_code == Some(1i32)) == failed && (exit_code is None) == !failed
                && confidence_delta_percent is Some && (confidence_delta_percent->0 < 0) == failed
        }),
{
    lemma_rail_words();
}

/// A command a Codex run executed counts as validation exactly when the rail moves to
/// verifying for it (else to editing), and its tool completes with the command's exit
/// code, raising the confidence exactly when the command succeeded (no exit code, or 0).
pub proof fn lemma_codex_command_reports_its_outcome(
    command: Seq<char>,
    exit_code: Option<i32>,
    status: Seq<char>,
    c: CodexRailCounters,
)
    ensures
        ({
            let ev = codex_events(CodexView::CommandExecution { command, exit_code, status }, c);
            let success = exit_code is None || exit_code == Some(0i32);
            let done = if is_validation(command) { ev[3] } else { ev[2] };
            &&& ev[0] == RailView::PhaseChanged(
                if is_validation(command) { AgentPhase::Verifying } else { AgentPhase::Editing },
            )
            &&& done matches RailView::ToolCompleted { exit_code: e, confidence_delta_percent, .. }
                && e == exit_code && confidence_delta_percent is Some && (confidence_delta_percent->0 > 0)
                == success
            &&& is_validation(command) ==> (ev[4] matches RailView::ProofProgress {
                tests_passed,
                tests_total,
                ..
            } && tests_total == 1 && (tests_passed == 1) == success)
        }),
{
}

} // verus!
