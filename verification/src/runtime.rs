//! The decisions of the agent runtime: which way a task runs, what a Docker-backed run is
//! launched with, the prompt of a Codex-backed run, and what the interface is told as a
//! run starts, finishes or is cancelled.
use vstd::prelude::*;
use crate::agent::{
    message_views, stop_reason_from_str, stop_reason_of, AgentRuntimeStatus, AgentUiEvent,
    ChatServiceMessage, ChatServiceRole, StatusView, StopReason, UiEventView,
};
use crate::rail::{otext, text_or, AgentPhase, RailEvent, RailView};
use crate::text::{chars_of, decimal, decimal_exec, decimal_u64, push_str, string_of};

verus! {

/// Something the agent runtime tells the interface: a rail event or an agent event.
#[derive(Debug, Clone)]
pub enum RuntimeNotice {
    Rail(RailEvent),
    Agent(AgentUiEvent),
}

/// The value of a [`RuntimeNotice`].
pub enum NoticeView {
    Rail(RailView),
    Agent(UiEventView),
}

impl View for RuntimeNotice {
    type V = NoticeView;

    open spec fn view(&self) -> NoticeView {
        match self {
            RuntimeNotice::Rail(e) => NoticeView::Rail(e@),
            RuntimeNotice::Agent(e) => NoticeView::Agent(e@),
        }
    }
}

/// The values of a sequence of notices.
pub open spec fn notice_views(v: Seq<RuntimeNotice>) -> Seq<NoticeView> {
    v.map_values(|n: RuntimeNotice| n@)
}

/// A copy of a text.
fn copy_string(s: &String) -> (r: String)
    ensures
        r@ == s@,
{
    string_of(chars_of(s.as_str()).as_slice())
}

/// `prefix` followed by `text`.
fn joined(prefix: &str, text: &str) -> (r: String)
    ensures
        r@ == prefix@ + text@,
{
    let mut out = chars_of(prefix);
    push_str(&mut out, text);
    string_of(out.as_slice())
}

// ---------------------------------------------------------------------------
// Cancelling and failing before a run.
// ---------------------------------------------------------------------------

/// What the interface is told when the operator cancels the current run.
pub open spec fn cancel_notice_views() -> Seq<NoticeView> {
    seq![
        NoticeView::Rail(RailView::OneSecondStory("Run cancelled by operator."@)),
        NoticeView::Rail(RailView::StopReasonSet("cancelled"@)),
        NoticeView::Agent(UiEventView::StatusUpdate(StatusView::Idle)),
    ]
}

/// What the interface is told when the operator cancels the current run.
pub fn cancel_notices() -> (r: Vec<RuntimeNotice>)
    ensures
        notice_views(r@) == cancel_notice_views(),
{
    let mut out: Vec<RuntimeNotice> = Vec::new();
    out.push(
        RuntimeNotice::Rail(
            RailEvent::OneSecondStory { summary: "Run cancelled by operator.".to_owned() },
        ),
    );
    out.push(RuntimeNotice::Rail(RailEvent::StopReasonSet { reason: "cancelled".to_owned() }));
    out.push(RuntimeNotice::Agent(AgentUiEvent::StatusUpdate(AgentRuntimeStatus::Idle)));
    assert(notice_views(out@) =~= cancel_notice_views());
    out
}

/// The failure of a run that needs the command bridge when there is none.
pub open spec fn no_bridge_message() -> Seq<char> {
    "No command bridge is available for autonomous execution."@
}

/// What the interface is told when a run needs the command bridge and there is none.
pub open spec fn missing_bridge_notice_views() -> Seq<NoticeView> {
    seq![
        NoticeView::Agent(UiEventView::StatusUpdate(StatusView::Failed(no_bridge_message()))),
        NoticeView::Agent(UiEventView::FatalError(no_bridge_message())),
        NoticeView::Agent(UiEventView::StatusUpdate(StatusView::Idle)),
    ]
}

/// What the interface is told when a run needs the command bridge and there is none.
pub fn missing_bridge_notices() -> (r: Vec<RuntimeNotice>)
    ensures
        notice_views(r@) == missing_bridge_notice_views(),
{
    let mut out: Vec<RuntimeNotice> = Vec::new();
    out.push(
        RuntimeNotice::Agent(
            AgentUiEvent::StatusUpdate(
                AgentRuntimeStatus::Failed(
                    "No command bridge is available for autonomous execution.".to_owned(),
                ),
            ),
        ),
    );
    out.push(
        RuntimeNotice::Agent(
            AgentUiEvent::FatalError(
                "No command bridge is available for autonomous execution.".to_owned(),
            ),
        ),
    );
    out.push(RuntimeNotice::Agent(AgentUiEvent::StatusUpdate(AgentRuntimeStatus::Idle)));
    assert(notice_views(out@) =~= missing_bridge_notice_views());
    out
}

// ---------------------------------------------------------------------------
// Which way a task runs.
// ---------------------------------------------------------------------------

/// The way an autonomous task runs.
#[derive(Debug, Clone, Copy, PartialEq, Eq, Structural)]
pub enum RunRoute {
    /// Through the Codex executor.
    Codex,
    /// In a Docker sandbox, watched through its event log.
    Docker,
    /// In process, with tools run through the command bridge.
    Native,
    /// In process, but there is no command bridge to run tools with.
    NoBridge,
}

/// The way an autonomous task runs: a model served by Codex runs through it; otherwise a
/// task that asks for the Docker sandbox runs there; otherwise it runs in process, which
/// needs the command bridge.
pub open spec fn route_of(uses_codex: bool, docker_sandbox: bool, has_bridge: bool) -> RunRoute {
    if uses_codex {
        RunRoute::Codex
    } else if docker_sandbox {
        RunRoute::Docker
    } else if has_bridge {
        RunRoute::Native
    } else {
        RunRoute::NoBridge
    }
}

/// The way an autonomous task runs.
pub fn run_route(uses_codex: bool, docker_sandbox: bool, has_bridge: bool) -> (r: RunRoute)
    ensures
        r == route_of(uses_codex, docker_sandbox, has_bridge),
{
    if uses_codex {
        RunRoute::Codex
    } else if docker_sandbox {
        RunRoute::Docker
    } else if has_bridge {
        RunRoute::Native
    } else {
        RunRoute::NoBridge
    }
}

// ---------------------------------------------------------------------------
// Stop reasons as the rail shows them.
// ---------------------------------------------------------------------------

/// The name of a stop reason's variant.
pub open spec fn stop_reason_name(r: StopReason) -> Seq<char> {
    match r {
        StopReason::Success => "Success"@,
        StopReason::FatalError => "FatalError"@,
        StopReason::TimeBudgetExhausted => "TimeBudgetExhausted"@,
        StopReason::MaxIterations => "MaxIterations"@,
        StopReason::BudgetExhausted => "BudgetExhausted"@,
        StopReason::Cancelled => "Cancelled"@,
        StopReason::Stalled => "Stalled"@,
    }
}

/// The name of a stop reason's variant in lower case, as the rail records it.
pub open spec fn stop_reason_label(r: StopReason) -> Seq<char> {
    match r {
        StopReason::Success => "success"@,
        StopReason::FatalError => "fatalerror"@,
        StopReason::TimeBudgetExhausted => "timebudgetexhausted"@,
        StopReason::MaxIterations => "maxiterations"@,
        StopReason::BudgetExhausted => "budgetexhausted"@,
        StopReason::Cancelled => "cancelled"@,
        StopReason::Stalled => "stalled"@,
    }
}

/// The name of a stop reason's variant.
pub fn stop_reason_name_exec(r: StopReason) -> (s: &'static str)
    ensures
        s@ == stop_reason_name(r),
{
    match r {
        StopReason::Success => "Success",
        StopReason::FatalError => "FatalError",
        StopReason::TimeBudgetExhausted => "TimeBudgetExhausted",
        StopReason::MaxIterations => "MaxIterations",
        StopReason::BudgetExhausted => "BudgetExhausted",
        StopReason::Cancelled => "Cancelled",
        StopReason::Stalled => "Stalled",
    }
}

/// The name of a stop reason's variant in lower case.
pub fn stop_reason_label_exec(r: StopReason) -> (s: &'static str)
    ensures
        s@ == stop_reason_label(r),
{
    match r {
        StopReason::Success => "success",
        StopReason::FatalError => "fatalerror",
        StopReason::TimeBudgetExhausted => "timebudgetexhausted",
        StopReason::MaxIterations => "maxiterations",
        StopReason::BudgetExhausted => "budgetexhausted",
        StopReason::Cancelled => "cancelled",
        StopReason::Stalled => "stalled",
    }
}

// ---------------------------------------------------------------------------
// Failures and artifacts.
// ---------------------------------------------------------------------------

/// What the interface is told when a run fails with `error`: the error, then that the
/// runtime is idle again.
pub open spec fn run_failed_notice_views(error: Seq<char>) -> Seq<NoticeView> {
    seq![
        NoticeView::Agent(UiEventView::FatalError(error)),
        NoticeView::Agent(UiEventView::StatusUpdate(StatusView::Idle)),
    ]
}

/// What the interface is told when a run fails with `error`.
pub fn run_failed_notices(error: String) -> (r: Vec<RuntimeNotice>)
    ensures
        notice_views(r@) == run_failed_notice_views(error@),
{
    let mut out: Vec<RuntimeNotice> = Vec::new();
    out.push(RuntimeNotice::Agent(AgentUiEvent::FatalError(error)));
    out.push(RuntimeNotice::Agent(AgentUiEvent::StatusUpdate(AgentRuntimeStatus::Idle)));
    assert(notice_views(out@) =~= run_failed_notice_views(error@));
    out
}

/// The error of a Docker-backed run when Docker cannot be used.
pub open spec fn docker_unavailable_message() -> Seq<char> {
    "Docker sandbox requested, but `docker` is not installed or not running."@
}

/// The error of a Docker-backed run when Docker cannot be used.
pub fn docker_unavailable_error() -> (r: String)
    ensures
        r@ == docker_unavailable_message(),
{
    "Docker sandbox requested, but `docker` is not installed or not running.".to_owned()
}

/// What the interface is told when a run's artifacts are in `result_dir`.
pub open spec fn artifacts_notice_views(result_dir: Seq<char>) -> Seq<NoticeView> {
    seq![
        NoticeView::Agent(UiEventView::ArtifactsReady(result_dir)),
        NoticeView::Rail(RailView::ArtifactReady { label: "result_dir"@, path: result_dir }),
    ]
}

/// Appends what the interface is told when a run's artifacts are in `result_dir`.
fn push_artifacts_notices(out: &mut Vec<RuntimeNotice>, result_dir: &String)
    ensures
        notice_views(final(out)@) == notice_views(old(out)@) + artifacts_notice_views(result_dir@),
{
    let ghost before = out@;
    out.push(RuntimeNotice::Agent(AgentUiEvent::ArtifactsReady(copy_string(result_dir))));
    out.push(
        RuntimeNotice::Rail(
            RailEvent::ArtifactReady { label: "result_dir".to_owned(), path: copy_string(result_dir) },
        ),
    );
    assert(notice_views(out@) =~= notice_views(before) + artifacts_notice_views(result_dir@));
}

/// What the interface is told when an in-process run is over and its artifacts are in
/// `result_dir`.
pub open spec fn native_finished_notice_views(result_dir: Seq<char>) -> Seq<NoticeView> {
    artifacts_notice_views(result_dir).push(
        NoticeView::Agent(UiEventView::StatusUpdate(StatusView::Idle)),
    )
}

/// What the interface is told when an in-process run is over.
pub fn native_finished_notices(result_dir: &String) -> (r: Vec<RuntimeNotice>)
    ensures
        notice_views(r@) == native_finished_notice_views(result_dir@),
{
    let mut out: Vec<RuntimeNotice> = Vec::new();
    push_artifacts_notices(&mut out, result_dir);
    out.push(RuntimeNotice::Agent(AgentUiEvent::StatusUpdate(AgentRuntimeStatus::Idle)));
    assert(notice_views(out@) =~= native_finished_notice_views(result_dir@));
    out
}

// ---------------------------------------------------------------------------
// Transcripts.
// ---------------------------------------------------------------------------

/// A message of a run's transcript, as far as the interface needs it.
#[derive(Debug, Clone)]
pub struct TranscriptEntry {
    pub from_assistant: bool,
    pub content: String,
}

/// The texts of the assistant's messages in a transcript, in order.
pub open spec fn assistant_texts(t: Seq<TranscriptEntry>) -> Seq<Seq<char>>
    decreases t.len(),
{
    if t.len() == 0 {
        seq![]
    } else if t.last().from_assistant {
        assistant_texts(t.drop_last()).push(t.last().content@)
    } else {
        assistant_texts(t.drop_last())
    }
}

/// Each text as a message of the assistant.
pub open spec fn as_assistant(texts: Seq<Seq<char>>) -> Seq<(ChatServiceRole, Seq<char>)> {
    texts.map_values(|t: Seq<char>| (ChatServiceRole::Assistant, t))
}

/// The assistant's messages of a transcript, in order.
pub fn assistant_messages(transcript: &Vec<TranscriptEntry>) -> (r: Vec<ChatServiceMessage>)
    ensures
        message_views(r@) == as_assistant(assistant_texts(transcript@)),
{
    let mut out: Vec<ChatServiceMessage> = Vec::new();
    let mut i: usize = 0;
    while i < transcript.len()
        invariant
            i <= transcript.len(),
            message_views(out@) == as_assistant(assistant_texts(transcript@.take(i as int))),
        decreases transcript.len() - i,
    {
        proof {
            assert(transcript@.take(i + 1).drop_last() =~= transcript@.take(i as int));
        }
        if transcript[i].from_assistant {
            let m = ChatServiceMessage {
                role: ChatServiceRole::Assistant,
                content: copy_string(&transcript[i].content),
            };
            let ghost before = out@;
            out.push(m);
            assert(message_views(out@) =~= message_views(before).push(
                (ChatServiceRole::Assistant, transcript@[i as int].content@),
            ));
            assert(as_assistant(assistant_texts(transcript@.take(i + 1))) =~= as_assistant(
                assistant_texts(transcript@.take(i as int)),
            ).push((ChatServiceRole::Assistant, transcript@[i as int].content@)));
        }
        i += 1;
    }
    assert(transcript@.take(transcript.len() as int) =~= transcript@);
    out
}

// ---------------------------------------------------------------------------
// Codex-backed runs.
// ---------------------------------------------------------------------------

/// How a role is named in a prompt.
pub open spec fn role_title(role: ChatServiceRole) -> Seq<char> {
    match role {
        ChatServiceRole::System => "System"@,
        ChatServiceRole::User => "User"@,
        ChatServiceRole::Assistant => "Assistant"@,
    }
}

/// The prior messages as a Codex prompt lists them: each as its role, a colon and a
/// newline, its text and a blank line.
pub open spec fn prompt_context(messages: Seq<(ChatServiceRole, Seq<char>)>) -> Seq<char>
    decreases messages.len(),
{
    if messages.len() == 0 {
        seq![]
    } else {
        prompt_context(messages.drop_last()) + role_title(messages.last().0) + ":\n"@
            + messages.last().1 + "\n\n"@
    }
}

/// The prompt of a Codex-backed run: what the run is, the prior chat and the goal.
pub open spec fn codex_prompt(messages: Seq<(ChatServiceRole, Seq<char>)>, goal: Seq<char>) -> Seq<
    char,
> {
    "You are running Quorp's autonomous `/agent` flow through the real Codex executor.\n"@
        + "Inspect the real workspace, make the smallest correct changes, run local validation, and finish with a concise summary.\n\n"@
        + "## Prior Chat Context\n"@ + prompt_context(messages) + "## Current Autonomous Goal\n"@
        + goal
}

/// How a role is named in a prompt.
fn role_title_exec(role: ChatServiceRole) -> (r: &'static str)
    ensures
        r@ == role_title(role),
{
    match role {
        ChatServiceRole::System => "System",
        ChatServiceRole::User => "User",
        ChatServiceRole::Assistant => "Assistant",
    }
}

/// The prompt of a Codex-backed run.
pub fn codex_agent_prompt(initial_context: &Vec<ChatServiceMessage>, goal: &str) -> (r: String)
    ensures
        r@ == codex_prompt(message_views(initial_context@), goal@),
{
    let mut out = chars_of(
        "You are running Quorp's autonomous `/agent` flow through the real Codex executor.\n",
    );
    push_str(
        &mut out,
        "Inspect the real workspace, make the smallest correct changes, run local validation, and finish with a concise summary.\n\n",
    );
    push_str(&mut out, "## Prior Chat Context\n");
    let ghost head = out@;
    let mut i: usize = 0;
    while i < initial_context.len()
        invariant
            i <= initial_context.len(),
            out@ == head + prompt_context(message_views(initial_context@.take(i as int))),
        decreases initial_context.len() - i,
    {
        let m = &initial_context[i];
        push_str(&mut out, role_title_exec(m.role));
        push_str(&mut out, ":\n");
        push_str(&mut out, m.content.as_str());
        push_str(&mut out, "\n\n");
        proof {
            let ms = message_views(initial_context@.take(i + 1));
            assert(ms.drop_last() =~= message_views(initial_context@.take(i as int)));
            assert(ms.last() == (m.role, m.content@));
        }
        i += 1;
    }
    assert(initial_context@.take(initial_context.len() as int) =~= initial_context@);
    push_str(&mut out, "## Current Autonomous Goal\n");
    push_str(&mut out, goal);
    string_of(out.as_slice())
}

/// What a Codex-backed run gave back when it finished.
#[derive(Debug, Clone)]
pub struct CodexOutcome {
    pub stop_reason: StopReason,
    pub error_message: Option<String>,
    pub transcript: Vec<TranscriptEntry>,
}

/// How a Codex-backed run ended: it finished, the executor failed with an error, or the
/// task running it could not be joined.
#[derive(Debug, Clone)]
pub enum CodexRunResult {
    Finished(CodexOutcome),
    Failed(String),
    JoinFailed(String),
}

/// The status a finished run reports: success, or the failure with the run's error
/// message, or else `fallback` followed by the stop reason's name.
pub open spec fn finished_status(
    stop: StopReason,
    error_message: Option<Seq<char>>,
    fallback: Seq<char>,
) -> StatusView {
    if stop == StopReason::Success {
        StatusView::Success
    } else {
        StatusView::Failed(text_or(error_message, fallback + stop_reason_name(stop)))
    }
}

/// What the interface is told when a Codex-backed run ends; `snapshot_error` is the
/// error of saving the diagnostics logs after a finished run, where that failed.
pub open spec fn codex_run_notice_views(
    result: CodexRunResult,
    result_dir: Seq<char>,
    snapshot_error: Option<Seq<char>>,
) -> Seq<NoticeView> {
    match result {
        CodexRunResult::Finished(o) => {
            let snapshot = match snapshot_error {
                Some(e) => seq![
                    NoticeView::Agent(
                        UiEventView::FatalError("Failed to snapshot diagnostics logs: "@ + e),
                    ),
                ],
                None => seq![],
            };
            snapshot + seq![
                NoticeView::Agent(
                    UiEventView::TurnCompleted(as_assistant(assistant_texts(o.transcript@))),
                ),
            ] + artifacts_notice_views(result_dir) + seq![
                NoticeView::Rail(RailView::StopReasonSet(stop_reason_label(o.stop_reason))),
                NoticeView::Agent(
                    UiEventView::StatusUpdate(
                        finished_status(
                            o.stop_reason,
                            otext(o.error_message),
                            "Codex agent run stopped with "@,
                        ),
                    ),
                ),
                NoticeView::Agent(UiEventView::StatusUpdate(StatusView::Idle)),
            ]
        },
        CodexRunResult::Failed(e) => run_failed_notice_views(e@),
        CodexRunResult::JoinFailed(e) => run_failed_notice_views(
            "Codex agent task join error: "@ + e@,
        ),
    }
}

/// The status a finished run reports.
fn finished_status_exec(stop: StopReason, error_message: &Option<String>, fallback: &str) -> (r:
    AgentRuntimeStatus)
    ensures
        r@ == finished_status(stop, otext(*error_message), fallback@),
{
    if stop == StopReason::Success {
        AgentRuntimeStatus::Success
    } else {
        match error_message {
            Some(e) => AgentRuntimeStatus::Failed(copy_string(e)),
            None => AgentRuntimeStatus::Failed(joined(fallback, stop_reason_name_exec(stop))),
        }
    }
}

/// What the interface is told when a Codex-backed run ends.
pub fn codex_run_notices(
    result: &CodexRunResult,
    result_dir: &String,
    snapshot_error: &Option<String>,
) -> (r: Vec<RuntimeNotice>)
    ensures
        notice_views(r@) == codex_run_notice_views(*result, result_dir@, otext(*snapshot_error)),
{
    match result {
        CodexRunResult::Finished(o) => {
            let mut out: Vec<RuntimeNotice> = Vec::new();
            match snapshot_error {
                Some(e) => {
                    out.push(
                        RuntimeNotice::Agent(
                            AgentUiEvent::FatalError(
                                joined("Failed to snapshot diagnostics logs: ", e.as_str()),
                            ),
                        ),
                    );
                    assert(notice_views(out@) =~= seq![
                        NoticeView::Agent(
                            UiEventView::FatalError("Failed to snapshot diagnostics logs: "@ + e@),
                        ),
                    ]);
                },
                None => {
                    assert(notice_views(out@) =~= seq![]);
                },
            }
            let ghost first = out@;
            let messages = assistant_messages(&o.transcript);
            out.push(RuntimeNotice::Agent(AgentUiEvent::TurnCompleted(messages)));
            push_artifacts_notices(&mut out, result_dir);
            let ghost mid = out@;
            out.push(
                RuntimeNotice::Rail(
                    RailEvent::StopReasonSet {
                        reason: stop_reason_label_exec(o.stop_reason).to_owned(),
                    },
                ),
            );
            out.push(
                RuntimeNotice::Agent(
                    AgentUiEvent::StatusUpdate(
                        finished_status_exec(
                            o.stop_reason,
                            &o.error_message,
                            "Codex agent run stopped with ",
                        ),
                    ),
                ),
            );
            out.push(RuntimeNotice::Agent(AgentUiEvent::StatusUpdate(AgentRuntimeStatus::Idle)));
            assert(notice_views(out@) =~= notice_views(mid) + seq![
                NoticeView::Rail(RailView::StopReasonSet(stop_reason_label(o.stop_reason))),
                NoticeView::Agent(
                    UiEventView::StatusUpdate(
                        finished_status(
                            o.stop_reason,
                            otext(o.error_message),
                            "Codex agent run stopped with "@,
                        ),
                    ),
                ),
                NoticeView::Agent(UiEventView::StatusUpdate(StatusView::Idle)),
            ]);
            proof {
                assert(notice_views(mid) =~= notice_views(first) + seq![
                    NoticeView::Agent(
                        UiEventView::TurnCompleted(as_assistant(assistant_texts(o.transcript@))),
                    ),
                ] + artifacts_notice_views(result_dir@));
            }
            assert(notice_views(out@) =~= codex_run_notice_views(
                *result,
                result_dir@,
                otext(*snapshot_error),
            ));
            out
        },
        CodexRunResult::Failed(e) => run_failed_notices(copy_string(e)),
        CodexRunResult::JoinFailed(e) => run_failed_notices(
            joined("Codex agent task join error: ", e.as_str()),
        ),
    }
}

// ---------------------------------------------------------------------------
// Docker-backed runs.
// ---------------------------------------------------------------------------

/// What a full-auto run was resolved to: a benchmark, or an objective in the workspace.
#[derive(Debug, Clone, Copy, PartialEq, Eq, Structural)]
pub enum FullAutoResolvedMode {
    Benchmark,
    WorkspaceObjective,
}

/// How a Docker-backed run of a task is launched: the task's settings, with paths as
/// they are displayed.
#[derive(Debug, Clone)]
pub struct DockerRunPlan {
    pub resolved_mode: FullAutoResolvedMode,
    pub target_path: String,
    pub workspace_root: String,
    pub objective_file: Option<String>,
    /// Whether the model is served through the Codex executor.
    pub uses_codex: bool,
    /// The model's id without its provider prefix.
    pub model_id: String,
    pub result_dir: String,
    pub max_iterations: usize,
    pub max_seconds: Option<u64>,
    pub max_total_tokens: Option<u64>,
    pub autonomy_profile: String,
    pub base_url_override: Option<String>,
    pub docker_image: Option<String>,
}

/// The value of a [`DockerRunPlan`].
pub struct DockerPlanView {
    pub resolved_mode: FullAutoResolvedMode,
    pub target_path: Seq<char>,
    pub workspace_root: Seq<char>,
    pub objective_file: Option<Seq<char>>,
    pub uses_codex: bool,
    pub model_id: Seq<char>,
    pub result_dir: Seq<char>,
    pub max_iterations: usize,
    pub max_seconds: Option<u64>,
    pub max_total_tokens: Option<u64>,
    pub autonomy_profile: Seq<char>,
    pub base_url_override: Option<Seq<char>>,
    pub docker_image: Option<Seq<char>>,
}

impl View for DockerRunPlan {
    type V = DockerPlanView;

    open spec fn view(&self) -> DockerPlanView {
        DockerPlanView {
            resolved_mode: self.resolved_mode,
            target_path: self.target_path@,
            workspace_root: self.workspace_root@,
            objective_file: otext(self.objective_file),
            uses_codex: self.uses_codex,
            model_id: self.model_id@,
            result_dir: self.result_dir@,
            max_iterations: self.max_iterations,
            max_seconds: self.max_seconds,
            max_total_tokens: self.max_total_tokens,
            autonomy_profile: self.autonomy_profile@,
            base_url_override: otext(self.base_url_override),
            docker_image: otext(self.docker_image),
        }
    }
}

/// `flag` and its value where the value is there, else nothing.
pub open spec fn optional_flag(flag: Seq<char>, value: Option<Seq<char>>) -> Seq<Seq<char>> {
    match value {
        Some(v) => seq![flag, v],
        None => seq![],
    }
}

/// An optional number in decimal.
pub open spec fn odecimal(n: Option<u64>) -> Option<Seq<char>> {
    match n {
        Some(v) => Some(decimal(v as nat)),
        None => None,
    }
}

/// The executor a run is launched with.
pub open spec fn executor_name(uses_codex: bool) -> Seq<char> {
    if uses_codex {
        "codex"@
    } else {
        "native"@
    }
}

/// The arguments that say what a Docker-backed run of the plan does, by its mode.
pub open spec fn docker_body_arguments(p: DockerPlanView) -> Seq<Seq<char>> {
    if p.resolved_mode == FullAutoResolvedMode::Benchmark {
        seq![
            "benchmark"@,
            "run"@,
            "--path"@,
            p.target_path,
            "--executor"@,
            executor_name(p.uses_codex),
            "--model"@,
            p.model_id,
            "--result-dir"@,
            p.result_dir,
            "--max-steps"@,
            decimal(p.max_iterations as nat),
        ] + optional_flag("--max-seconds"@, odecimal(p.max_seconds)) + optional_flag(
            "--token-budget"@,
            odecimal(p.max_total_tokens),
        )
    } else {
        seq![
            "agent"@,
            "run"@,
            "--workspace"@,
            p.workspace_root,
            "--objective-file"@,
            text_or(p.objective_file, "START_HERE.md"@),
            "--executor"@,
            executor_name(p.uses_codex),
            "--model"@,
            p.model_id,
            "--result-dir"@,
            p.result_dir,
            "--max-steps"@,
            decimal(p.max_iterations as nat),
        ] + optional_flag("--max-seconds"@, odecimal(p.max_seconds)) + optional_flag(
            "--max-total-tokens"@,
            odecimal(p.max_total_tokens),
        ) + seq!["--autonomy-profile"@, p.autonomy_profile]
    }
}

/// The arguments the program is launched with for a Docker-backed run of the plan.
pub open spec fn docker_arguments(p: DockerPlanView) -> Seq<Seq<char>> {
    docker_body_arguments(p) + optional_flag("--base-url"@, p.base_url_override) + optional_flag(
        "--docker-image"@,
        p.docker_image,
    ) + seq!["--docker"@]
}

/// Appends a literal argument.
fn push_arg(args: &mut Vec<String>, a: &str)
    ensures
        crate::action_discovery::views(final(args)@) == crate::action_discovery::views(old(args)@).push(a@),
{
    let s = a.to_owned();
    proof {
        crate::action_discovery::lemma_views_push(args@, s);
    }
    args.push(s);
}

/// Appends a copy of an argument.
fn push_arg_string(args: &mut Vec<String>, a: &String)
    ensures
        crate::action_discovery::views(final(args)@) == crate::action_discovery::views(old(args)@).push(a@),
{
    let s = copy_string(a);
    proof {
        crate::action_discovery::lemma_views_push(args@, s);
    }
    args.push(s);
}

/// Appends `flag` and the value where there is one.
fn push_optional_flag(args: &mut Vec<String>, flag: &str, value: &Option<String>)
    ensures
        crate::action_discovery::views(final(args)@) == crate::action_discovery::views(old(args)@)
            + optional_flag(flag@, otext(*value)),
{
    let ghost before = crate::action_discovery::views(args@);
    match value {
        Some(v) => {
            push_arg(args, flag);
            push_arg_string(args, v);
        },
        None => {},
    }
    assert(crate::action_discovery::views(args@) =~= before + optional_flag(flag@, otext(*value)));
}

/// An optional number in decimal.
fn odecimal_exec(n: Option<u64>) -> (r: Option<String>)
    ensures
        otext(r) == odecimal(n),
{
    match n {
        Some(v) => Some(string_of(decimal_u64(v).as_slice())),
        None => None,
    }
}

/// The arguments that say what a Docker-backed run of the plan does.
fn docker_body_args(plan: &DockerRunPlan) -> (r: Vec<String>)
    ensures
        crate::action_discovery::views(r@) == docker_body_arguments(plan@),
{
    let mut args: Vec<String> = Vec::new();
    let executor = if plan.uses_codex {
        "codex"
    } else {
        "native"
    };
    let steps = string_of(decimal_exec(plan.max_iterations).as_slice());
    let seconds = odecimal_exec(plan.max_seconds);
    let tokens = odecimal_exec(plan.max_total_tokens);
    match plan.resolved_mode {
        FullAutoResolvedMode::Benchmark => {
            push_arg(&mut args, "benchmark");
            push_arg(&mut args, "run");
            push_arg(&mut args, "--path");
            push_arg_string(&mut args, &plan.target_path);
            push_arg(&mut args, "--executor");
            push_arg(&mut args, executor);
            push_arg(&mut args, "--model");
            push_arg_string(&mut args, &plan.model_id);
            push_arg(&mut args, "--result-dir");
            push_arg_string(&mut args, &plan.result_dir);
            push_arg(&mut args, "--max-steps");
            push_arg_string(&mut args, &steps);
            push_optional_flag(&mut args, "--max-seconds", &seconds);
            push_optional_flag(&mut args, "--token-budget", &tokens);
        },
        FullAutoResolvedMode::WorkspaceObjective => {
            push_arg(&mut args, "agent");
            push_arg(&mut args, "run");
            push_arg(&mut args, "--workspace");
            push_arg_string(&mut args, &plan.workspace_root);
            push_arg(&mut args, "--objective-file");
            match &plan.objective_file {
                Some(f) => push_arg_string(&mut args, f),
                None => push_arg(&mut args, "START_HERE.md"),
            }
            push_arg(&mut args, "--executor");
            push_arg(&mut args, executor);
            push_arg(&mut args, "--model");
            push_arg_string(&mut args, &plan.model_id);
            push_arg(&mut args, "--result-dir");
            push_arg_string(&mut args, &plan.result_dir);
            push_arg(&mut args, "--max-steps");
            push_arg_string(&mut args, &steps);
            push_optional_flag(&mut args, "--max-seconds", &seconds);
            push_optional_flag(&mut args, "--max-total-tokens", &tokens);
            push_arg(&mut args, "--autonomy-profile");
            push_arg_string(&mut args, &plan.autonomy_profile);
        },
    }
    assert(crate::action_discovery::views(args@) =~= docker_body_arguments(plan@));
    args
}

/// The arguments the program is launched with for a Docker-backed run of the plan.
pub fn docker_run_arguments(plan: &DockerRunPlan) -> (r: Vec<String>)
    ensures
        crate::action_discovery::views(r@) == docker_arguments(plan@),
{
    let mut args = docker_body_args(plan);
    push_optional_flag(&mut args, "--base-url", &plan.base_url_override);
    push_optional_flag(&mut args, "--docker-image", &plan.docker_image);
    push_arg(&mut args, "--docker");
    assert(crate::action_discovery::views(args@) =~= docker_arguments(plan@));
    args
}

/// What the interface is told as a Docker-backed run is launched for `target_path`.
pub open spec fn docker_started_notice_views(mode: FullAutoResolvedMode, target_path: Seq<char>) -> Seq<
    NoticeView,
> {
    seq![
        NoticeView::Rail(RailView::PhaseChanged(AgentPhase::Planning)),
        NoticeView::Rail(RailView::WaitReason("Launching Docker-backed autonomous run."@)),
        NoticeView::Rail(
            RailView::OneSecondStory(
                "Starting "@ + (if mode == FullAutoResolvedMode::Benchmark {
                    "benchmark watch mode"@
                } else {
                    "full-auto watch mode"@
                }) + " in Docker for "@ + target_path + "."@,
            ),
        ),
        NoticeView::Rail(
            RailView::TimeToProofUpdated {
                eta_seconds: Some(180),
                confidence_target_percent: Some(82),
            },
        ),
    ]
}

/// What the interface is told as a Docker-backed run is launched.
pub fn docker_started_notices(mode: FullAutoResolvedMode, target_path: &String) -> (r: Vec<
    RuntimeNotice,
>)
    ensures
        notice_views(r@) == docker_started_notice_views(mode, target_path@),
{
    let mut out: Vec<RuntimeNotice> = Vec::new();
    out.push(RuntimeNotice::Rail(RailEvent::PhaseChanged(AgentPhase::Planning)));
    out.push(
        RuntimeNotice::Rail(
            RailEvent::WaitReason { explanation: "Launching Docker-backed autonomous run.".to_owned() },
        ),
    );
    let mut story = chars_of("Starting ");
    match mode {
        FullAutoResolvedMode::Benchmark => push_str(&mut story, "benchmark watch mode"),
        FullAutoResolvedMode::WorkspaceObjective => push_str(&mut story, "full-auto watch mode"),
    }
    push_str(&mut story, " in Docker for ");
    push_str(&mut story, target_path.as_str());
    push_str(&mut story, ".");
    out.push(RuntimeNotice::Rail(RailEvent::OneSecondStory { summary: string_of(story.as_slice()) }));
    out.push(
        RuntimeNotice::Rail(
            RailEvent::TimeToProofUpdated { eta_seconds: Some(180), confidence_target_percent: Some(82) },
        ),
    );
    assert(notice_views(out@) =~= docker_started_notice_views(mode, target_path@));
    out
}

/// The stop reason of a Docker-backed run: the one its summary names, else success or a
/// fatal error as the process exited.
pub open spec fn docker_stop_reason(summary_stop_reason: Option<Seq<char>>, exited_successfully: bool) -> StopReason {
    match summary_stop_reason {
        Some(s) => stop_reason_of(s),
        None => if exited_successfully {
            StopReason::Success
        } else {
            StopReason::FatalError
        },
    }
}

/// What the interface is told when the process of a Docker-backed run has exited: the
/// assistant's messages of its transcript where it has any, its artifacts, how it stopped
/// and the runtime's status, then that the runtime is idle again.
pub open spec fn docker_finished_notice_views(
    transcript: Seq<TranscriptEntry>,
    result_dir: Seq<char>,
    summary_stop_reason: Option<Seq<char>>,
    summary_error: Option<Seq<char>>,
    exited_successfully: bool,
) -> Seq<NoticeView> {
    let stop = docker_stop_reason(summary_stop_reason, exited_successfully);
    let texts = assistant_texts(transcript);
    let turn = if texts.len() > 0 {
        seq![NoticeView::Agent(UiEventView::TurnCompleted(as_assistant(texts)))]
    } else {
        seq![]
    };
    turn + artifacts_notice_views(result_dir) + seq![
        NoticeView::Rail(
            RailView::OneSecondStory("Docker-backed run finished with "@ + stop_reason_name(stop)),
        ),
        NoticeView::Rail(RailView::StopReasonSet(stop_reason_label(stop))),
        NoticeView::Agent(
            UiEventView::StatusUpdate(finished_status(stop, summary_error, "Docker run stopped with "@)),
        ),
        NoticeView::Agent(UiEventView::StatusUpdate(StatusView::Idle)),
    ]
}

/// What the interface is told when the process of a Docker-backed run has exited;
/// `summary_stop_reason` and `summary_error` are the texts its summary holds under
/// `stop_reason` and `error_message`.
pub fn docker_finished_notices(
    transcript: &Vec<TranscriptEntry>,
    result_dir: &String,
    summary_stop_reason: &Option<String>,
    summary_error: &Option<String>,
    exited_successfully: bool,
) -> (r: Vec<RuntimeNotice>)
    ensures
        notice_views(r@) == docker_finished_notice_views(
            transcript@,
            result_dir@,
            otext(*summary_stop_reason),
            otext(*summary_error),
            exited_successfully,
        ),
{
    let stop = match summary_stop_reason {
        Some(s) => stop_reason_from_str(s.as_str()),
        None => if exited_successfully {
            StopReason::Success
        } else {
            StopReason::FatalError
        },
    };
    let mut out: Vec<RuntimeNotice> = Vec::new();
    let messages = assistant_messages(transcript);
    proof {
        assert(message_views(messages@).len() == messages@.len());
        assert(as_assistant(assistant_texts(transcript@)).len() == assistant_texts(transcript@).len());
    }
    if messages.len() > 0 {
        out.push(RuntimeNotice::Agent(AgentUiEvent::TurnCompleted(messages)));
    }
    let ghost first = out@;
    push_artifacts_notices(&mut out, result_dir);
    let ghost mid = out@;
    out.push(
        RuntimeNotice::Rail(
            RailEvent::OneSecondStory {
                summary: joined("Docker-backed run finished with ", stop_reason_name_exec(stop)),
            },
        ),
    );
    out.push(
        RuntimeNotice::Rail(RailEvent::StopReasonSet { reason: stop_reason_label_exec(stop).to_owned() }),
    );
    out.push(
        RuntimeNotice::Agent(
            AgentUiEvent::StatusUpdate(
                finished_status_exec(stop, summary_error, "Docker run stopped with "),
            ),
        ),
    );
    out.push(RuntimeNotice::Agent(AgentUiEvent::StatusUpdate(AgentRuntimeStatus::Idle)));
    assert(notice_views(out@) =~= notice_views(mid) + seq![
        NoticeView::Rail(
            RailView::OneSecondStory("Docker-backed run finished with "@ + stop_reason_name(stop)),
        ),
        NoticeView::Rail(RailView::StopReasonSet(stop_reason_label(stop))),
        NoticeView::Agent(
            UiEventView::StatusUpdate(
                finished_status(stop, otext(*summary_error), "Docker run stopped with "@),
            ),
        ),
        NoticeView::Agent(UiEventView::StatusUpdate(StatusView::Idle)),
    ]);
    assert(notice_views(out@) =~= docker_finished_notice_views(
        transcript@,
        result_dir@,
        otext(*summary_stop_reason),
        otext(*summary_error),
        exited_successfully,
    ));
    out
}

// ---------------------------------------------------------------------------
// Laws.
// ---------------------------------------------------------------------------

/// The notice that the runtime is idle again.
pub open spec fn idle_notice() -> NoticeView {
    NoticeView::Agent(UiEventView::StatusUpdate(StatusView::Idle))
}

/// However a run ends (a Codex-backed run finishing or failing, a Docker-backed run
/// exiting, an in-process run finishing, a run failing, a missing command bridge or a
/// cancellation), the last thing the interface is told is that the runtime is idle.
pub proof fn lemma_every_run_ends_idle(
    codex: CodexRunResult,
    transcript: Seq<TranscriptEntry>,
    result_dir: Seq<char>,
    snapshot_error: Option<Seq<char>>,
    summary_stop_reason: Option<Seq<char>>,
    summary_error: Option<Seq<char>>,
    exited_successfully: bool,
    error: Seq<char>,
)
    ensures
        codex_run_notice_views(codex, result_dir, snapshot_error).last() == idle_notice(),
        docker_finished_notice_views(
            transcript,
            result_dir,
            summary_stop_reason,
            summary_error,
            exited_successfully,
        ).last() == idle_notice(),
        native_finished_notice_views(result_dir).last() == idle_notice(),
        run_failed_notice_views(error).last() == idle_notice(),
        missing_bridge_notice_views().last() == idle_notice(),
        cancel_notice_views().last() == idle_notice(),
{
}

} // verus!
