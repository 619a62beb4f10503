//! The agent status pane and the events the agent runtime reports to it.
use vstd::prelude::*;
use crate::action_discovery::{lemma_views_push, views};
use crate::bootstrap::Rect;
use crate::keys::{KeyCodeInput, KeyInput, KeyPhase};
use crate::patch::chars_eq_str;
use crate::text::{chars_of, push_str, string_of};

verus! {

/// What the agent runtime is doing.
#[derive(Debug, Clone)]
pub enum AgentRuntimeStatus {
    Idle,
    Thinking,
    ExecutingTool(String),
    Validating(String),
    Failed(String),
    Success,
}

/// Who wrote a message of a chat service conversation.
#[derive(Debug, Clone, Copy, PartialEq, Eq, Structural)]
pub enum ChatServiceRole {
    System,
    User,
    Assistant,
}

/// A message of a chat service conversation.
#[derive(Debug, Clone)]
pub struct ChatServiceMessage {
    pub role: ChatServiceRole,
    pub content: String,
}

/// An event the agent runtime reports to the interface.
#[derive(Debug, Clone)]
pub enum AgentUiEvent {
    StatusUpdate(AgentRuntimeStatus),
    TurnCompleted(Vec<ChatServiceMessage>),
    /// The directory that holds a run's artifacts, as it is displayed.
    ArtifactsReady(String),
    FatalError(String),
}

/// The value of an [`AgentRuntimeStatus`], with text as character sequences.
pub enum StatusView {
    Idle,
    Thinking,
    ExecutingTool(Seq<char>),
    Validating(Seq<char>),
    Failed(Seq<char>),
    Success,
}

impl View for AgentRuntimeStatus {
    type V = StatusView;

    open spec fn view(&self) -> StatusView {
        match self {
            AgentRuntimeStatus::Idle => StatusView::Idle,
            AgentRuntimeStatus::Thinking => StatusView::Thinking,
            AgentRuntimeStatus::ExecutingTool(t) => StatusView::ExecutingTool(t@),
            AgentRuntimeStatus::Validating(c) => StatusView::Validating(c@),
            AgentRuntimeStatus::Failed(e) => StatusView::Failed(e@),
            AgentRuntimeStatus::Success => StatusView::Success,
        }
    }
}

/// The role and the text of each message.
pub open spec fn message_views(v: Seq<ChatServiceMessage>) -> Seq<(ChatServiceRole, Seq<char>)> {
    v.map_values(|m: ChatServiceMessage| (m.role, m.content@))
}

/// The value of an [`AgentUiEvent`], with text as character sequences.
pub enum UiEventView {
    StatusUpdate(StatusView),
    TurnCompleted(Seq<(ChatServiceRole, Seq<char>)>),
    ArtifactsReady(Seq<char>),
    FatalError(Seq<char>),
}

impl View for AgentUiEvent {
    type V = UiEventView;

    open spec fn view(&self) -> UiEventView {
        match self {
            AgentUiEvent::StatusUpdate(s) => UiEventView::StatusUpdate(s@),
            AgentUiEvent::TurnCompleted(m) => UiEventView::TurnCompleted(message_views(m@)),
            AgentUiEvent::ArtifactsReady(p) => UiEventView::ArtifactsReady(p@),
            AgentUiEvent::FatalError(e) => UiEventView::FatalError(e@),
        }
    }
}

/// The status line an event adds to the agent pane.
pub open spec fn event_line(event: AgentUiEvent) -> Seq<char> {
    match event {
        AgentUiEvent::StatusUpdate(status) => match status {
            AgentRuntimeStatus::Idle => "[Idle] Waiting for background tasks."@,
            AgentRuntimeStatus::Thinking => "[Thinking] Generating actions..."@,
            AgentRuntimeStatus::ExecutingTool(tool) => "[Executing] "@ + tool@,
            AgentRuntimeStatus::Validating(check) => "[Validating] "@ + check@,
            AgentRuntimeStatus::Failed(err) => "[Failed] "@ + err@,
            AgentRuntimeStatus::Success => "[Success] Task completed!"@,
        },
        AgentUiEvent::TurnCompleted(_) => "[Turn Completed]"@,
        AgentUiEvent::ArtifactsReady(path) => "[Artifacts] "@ + path@,
        AgentUiEvent::FatalError(err) => "[Fatal Error] "@ + err@,
    }
}

/// The note the agent pane shows when `Enter` is pressed in it.
pub open spec fn enter_note() -> Seq<char> {
    "Launch autonomous runs from the Assistant pane with `/agent <goal>`. This pane shows runtime status and verifier progress."@
}

/// `prefix` followed by `text`.
fn labelled(prefix: &str, text: &String) -> (r: String)
    ensures
        r@ == prefix@ + text@,
{
    let mut out = chars_of(prefix);
    push_str(&mut out, text.as_str());
    string_of(out.as_slice())
}

/// The agent pane: the status lines reported so far, oldest first.
pub struct AgentPane {
    pub status_lines: Vec<String>,
}

impl AgentPane {
    /// A pane with no status line yet.
    pub fn new() -> (r: AgentPane)
        ensures
            r.status_lines@.len() == 0,
    {
        AgentPane { status_lines: Vec::new() }
    }

    /// Handles a key press in the pane. A released key is swallowed; `Enter` adds a note
    /// on where autonomous runs start; any other key is left to the caller. Answers
    /// whether the pane took the key.
    pub fn try_handle_key(&mut self, key: &KeyInput) -> (r: bool)
        ensures
            r == (key.phase == KeyPhase::Release || key.code == KeyCodeInput::Enter),
            key.phase != KeyPhase::Release && key.code == KeyCodeInput::Enter ==> views(
                final(self).status_lines@,
            ) == views(old(self).status_lines@).push(enter_note()),
            !(key.phase != KeyPhase::Release && key.code == KeyCodeInput::Enter) ==> views(
                final(self).status_lines@,
            ) == views(old(self).status_lines@),
    {
        if key.phase == KeyPhase::Release {
            return true;
        }
        match key.code {
            KeyCodeInput::Enter => {
                self.apply_status_update(
                    "Launch autonomous runs from the Assistant pane with `/agent <goal>`. This pane shows runtime status and verifier progress.".to_owned(),
                );
                true
            },
            _ => false,
        }
    }

    /// Appends a status line.
    pub fn apply_status_update(&mut self, update: String)
        ensures
            final(self).status_lines@ == old(self).status_lines@.push(update),
            views(final(self).status_lines@) == views(old(self).status_lines@).push(update@),
    {
        proof {
            crate::action_discovery::lemma_views_push(self.status_lines@, update);
        }
        self.status_lines.push(update);
    }

    /// Appends the status line that `event` reports.
    pub fn apply_event(&mut self, event: AgentUiEvent)
        ensures
            views(final(self).status_lines@) == views(old(self).status_lines@).push(
                event_line(event),
            ),
    {
        let line = match &event {
            AgentUiEvent::StatusUpdate(status) => match status {
                AgentRuntimeStatus::Idle => "[Idle] Waiting for background tasks.".to_owned(),
                AgentRuntimeStatus::Thinking => "[Thinking] Generating actions...".to_owned(),
                AgentRuntimeStatus::ExecutingTool(tool) => labelled("[Executing] ", tool),
                AgentRuntimeStatus::Validating(check) => labelled("[Validating] ", check),
                AgentRuntimeStatus::Failed(err) => labelled("[Failed] ", err),
                AgentRuntimeStatus::Success => "[Success] Task completed!".to_owned(),
            },
            AgentUiEvent::TurnCompleted(_) => "[Turn Completed]".to_owned(),
            AgentUiEvent::ArtifactsReady(path) => labelled("[Artifacts] ", path),
            AgentUiEvent::FatalError(err) => labelled("[Fatal Error] ", err),
        };
        self.apply_status_update(line);
    }
}

/// The header of the agent pane.
pub open spec fn agent_header_text() -> Seq<char> {
    " Agent Status [Enter explains current limitation]"@
}

/// The hint the agent pane shows before any status line.
pub open spec fn agent_idle_hint() -> Seq<Seq<char>> {
    seq![
        "  Launch autonomous work from the Assistant pane with `/agent <goal>`."@,
        "  This pane visualizes background runtime status, verifier progress, and failures."@,
    ]
}

/// How the agent pane fills its area: a header row on top and the body below it; the
/// body lists the status lines indented by two spaces, or the idle hint (drawn muted)
/// while there are none, and nothing where the area has no row left for it.
pub struct AgentLeafLayout {
    pub header: Rect,
    pub body: Rect,
    pub header_text: String,
    pub body_lines: Vec<String>,
    pub body_muted: bool,
}

/// The status lines, each indented by two spaces.
pub open spec fn indented(lines: Seq<Seq<char>>) -> Seq<Seq<char>> {
    lines.map_values(|l: Seq<char>| "  "@ + l)
}

impl AgentPane {
    /// How the pane fills `area`; `None` for an area without cells.
    pub fn leaf_layout(&self, area: Rect) -> (r: Option<AgentLeafLayout>)
        requires
            area.width > 0 && area.height > 0 ==> area.y < u16::MAX,
        ensures
            (area.width == 0 || area.height == 0) <==> r is None,
            r matches Some(l) ==> {
                &&& l.header == (Rect { x: area.x, y: area.y, width: area.width, height: 1 })
                &&& l.body == (Rect {
                    x: area.x,
                    y: (area.y + 1) as u16,
                    width: area.width,
                    height: (area.height - 1) as u16,
                })
                &&& l.header_text@ == agent_header_text()
                &&& l.body_muted == (self.status_lines@.len() == 0)
                &&& views(l.body_lines@) == if area.height == 1 {
                    seq![]
                } else if self.status_lines@.len() == 0 {
                    agent_idle_hint()
                } else {
                    indented(views(self.status_lines@))
                }
            },
    {
        if area.height == 0 || area.width == 0 {
            return None;
        }
        let header = Rect { x: area.x, y: area.y, width: area.width, height: 1 };
        let body = Rect { x: area.x, y: area.y + 1, width: area.width, height: area.height - 1 };
        let muted = self.status_lines.len() == 0;
        let mut lines: Vec<String> = Vec::new();
        if area.height > 1 {
            if muted {
                let a = "  Launch autonomous work from the Assistant pane with `/agent <goal>`.".to_owned();
                proof {
                    lemma_views_push(lines@, a);
                }
                lines.push(a);
                let b = "  This pane visualizes background runtime status, verifier progress, and failures.".to_owned();
                proof {
                    lemma_views_push(lines@, b);
                }
                lines.push(b);
                assert(views(lines@) =~= agent_idle_hint());
            } else {
                let mut i: usize = 0;
                while i < self.status_lines.len()
                    invariant
                        i <= self.status_lines.len(),
                        views(lines@) == indented(views(self.status_lines@).take(i as int)),
                    decreases self.status_lines.len() - i,
                {
                    let l = labelled("  ", &self.status_lines[i]);
                    proof {
                        lemma_views_push(lines@, l);
                        assert(indented(views(self.status_lines@).take(i + 1)) =~= indented(
                            views(self.status_lines@).take(i as int),
                        ).push("  "@ + self.status_lines@[i as int]@));
                    }
                    lines.push(l);
                    i += 1;
                }
                assert(views(self.status_lines@).take(self.status_lines.len() as int) =~= views(
                    self.status_lines@,
                ));
            }
        } else {
            assert(views(lines@) =~= seq![]);
        }
        Some(
            AgentLeafLayout {
                header,
                body,
                header_text: " Agent Status [Enter explains current limitation]".to_owned(),
                body_lines: lines,
                body_muted: muted,
            },
        )
    }
}

/// Why an agent run stopped.
#[derive(Debug, Clone, Copy, PartialEq, Eq, Structural)]
pub enum StopReason {
    Success,
    FatalError,
    TimeBudgetExhausted,
    MaxIterations,
    BudgetExhausted,
    Cancelled,
    Stalled,
}

/// The stop reason a run summary names, in snake case or in camel case; an unknown
/// name counts as a fatal error.
pub open spec fn stop_reason_of(s: Seq<char>) -> StopReason {
    if s == "success"@ || s == "Success"@ {
        StopReason::Success
    } else if s == "fatal_error"@ || s == "FatalError"@ {
        StopReason::FatalError
    } else if s == "time_budget_exhausted"@ || s == "TimeBudgetExhausted"@ {
        StopReason::TimeBudgetExhausted
    } else if s == "max_iterations"@ || s == "MaxIterations"@ {
        StopReason::MaxIterations
    } else if s == "budget_exhausted"@ || s == "BudgetExhausted"@ {
        StopReason::BudgetExhausted
    } else if s == "cancelled"@ || s == "Cancelled"@ {
        StopReason::Cancelled
    } else if s == "stalled"@ || s == "Stalled"@ {
        StopReason::Stalled
    } else {
        StopReason::FatalError
    }
}

/// The stop reason a run summary names.
pub fn stop_reason_from_str(value: &str) -> (r: StopReason)
    ensures
        r == stop_reason_of(value@),
{
    let v = chars_of(value);
    if chars_eq_str(&v, "success") || chars_eq_str(&v, "Success") {
        StopReason::Success
    } else if chars_eq_str(&v, "fatal_error") || chars_eq_str(&v, "FatalError") {
        StopReason::FatalError
    } else if chars_eq_str(&v, "time_budget_exhausted") || chars_eq_str(&v, "TimeBudgetExhausted") {
        StopReason::TimeBudgetExhausted
    } else if chars_eq_str(&v, "max_iterations") || chars_eq_str(&v, "MaxIterations") {
        StopReason::MaxIterations
    } else if chars_eq_str(&v, "budget_exhausted") || chars_eq_str(&v, "BudgetExhausted") {
        StopReason::BudgetExhausted
    } else if chars_eq_str(&v, "cancelled") || chars_eq_str(&v, "Cancelled") {
        StopReason::Cancelled
    } else if chars_eq_str(&v, "stalled") || chars_eq_str(&v, "Stalled") {
        StopReason::Stalled
    } else {
        StopReason::FatalError
    }
}

/// Newlines turned into spaces.
pub open spec fn flatten_newlines(s: Seq<char>) -> Seq<char> {
    s.map_values(|c: char| if c == '\n' { ' ' } else { c })
}

/// A one-line excerpt of `text`: its first `max_chars` characters, followed by `...`
/// when it is longer, with newlines turned into spaces.
pub open spec fn story_excerpt(text: Seq<char>, max_chars: nat) -> Seq<char> {
    flatten_newlines(
        if text.len() > max_chars {
            text.take(max_chars as int) + "..."@
        } else {
            text
        },
    )
}

/// A one-line excerpt of `text` of at most `max_chars` characters before the ellipsis.
pub fn truncate_story(text: &str, max_chars: usize) -> (r: String)
    ensures
        r@ == story_excerpt(text@, max_chars as nat),
{
    let t = chars_of(text);
    let mut out: Vec<char> = Vec::new();
    let mut i: usize = 0;
    while i < t.len() && i < max_chars
        invariant
            i <= t.len(),
            i <= max_chars,
            t@ == text@,
            out@ == flatten_newlines(t@.take(i as int)),
        decreases t.len() - i,
    {
        let c = t[i];
        out.push(if c == '\n' {
            ' '
        } else {
            c
        });
        i += 1;
        assert(out@ =~= flatten_newlines(t@.take(i as int)));
    }
    if i < t.len() {
        let ghost before = out@;
        push_str(&mut out, "...");
        proof {
            let dots = "..."@;
            assert(flatten_newlines(dots) =~= dots) by {
                reveal_strlit("...");
            }
            assert(flatten_newlines(t@.take(i as int) + dots) =~= flatten_newlines(
                t@.take(i as int),
            ) + flatten_newlines(dots));
        }
    } else {
        assert(t@.take(i as int) =~= t@);
    }
    string_of(out.as_slice())
}

} // verus!
