//! Chat sessions and the snapshots they are saved as: what a snapshot records of a
//! session, how a saved thread is read back, and the events a chat session receives.
use vstd::prelude::*;
use crate::actions::{
    action_of, lemma_saved_action_reads_back, persisted_of, restorable, ActionView, AgentAction,
    PendingCommand, PersistedPendingCommand, PersistedView,
};
use crate::action_discovery::views;
use crate::chat::{
    appended_text, compaction_command, compaction_policy_label, parse_compaction_command,
    session_title, title_from_user_message, ChatMessage, MessageView, PersistedChatMessage,
    PromptCompactionPolicy, MAX_MESSAGES,
};
use crate::text::{chars_of, decimal, decimal_exec, push_str, string_of, trim, trim_bounds};

verus! {

/// How much the assistant may do on its own.
#[derive(Debug, Clone, Copy, PartialEq, Eq, Structural)]
pub enum AgentMode {
    Ask,
    Plan,
    Act,
}

impl AgentMode {
    /// The mode's name as the interface shows it.
    pub open spec fn name(self) -> Seq<char> {
        match self {
            AgentMode::Ask => "Ask"@,
            AgentMode::Plan => "Plan"@,
            AgentMode::Act => "Act"@,
        }
    }

    /// The mode's name as the interface shows it.
    pub fn label(self) -> (r: &'static str)
        ensures
            r@ == self.name(),
    {
        match self {
            AgentMode::Ask => "Ask",
            AgentMode::Plan => "Plan",
            AgentMode::Act => "Act",
        }
    }
}

/// What an action run by the assistant came to.
#[derive(Debug, Clone)]
pub enum ActionOutcome {
    Success { action: AgentAction, output: String },
    Failure { action: AgentAction, error: String },
}

impl ActionOutcome {
    /// The action that ran.
    pub fn action(&self) -> (r: &AgentAction)
        ensures
            *r == match self {
                ActionOutcome::Success { action, .. } => *action,
                ActionOutcome::Failure { action, .. } => *action,
            },
    {
        match self {
            ActionOutcome::Success { action, .. } => action,
            ActionOutcome::Failure { action, .. } => action,
        }
    }

    /// Its output when it succeeded, its error when it failed.
    pub fn output_text(&self) -> (r: &str)
        ensures
            r@ == match self {
                ActionOutcome::Success { output, .. } => output@,
                ActionOutcome::Failure { error, .. } => error@,
            },
    {
        match self {
            ActionOutcome::Success { output, .. } => output.as_str(),
            ActionOutcome::Failure { error, .. } => error.as_str(),
        }
    }
}

/// An event a chat session receives, tagged with the session's index.
#[derive(Debug, Clone)]
pub enum ChatUiEvent {
    AssistantDelta(usize, String),
    StreamFinished(usize),
    Error(usize, String),
    CommandOutput(usize, String),
    CommandFinished(usize, ActionOutcome),
}

/// A chat session: its conversation, composer, and the actions waiting for
/// confirmation.
#[derive(Debug, Clone)]
pub struct ChatSession {
    pub title: String,
    pub mode: AgentMode,
    pub prompt_compaction_policy: Option<PromptCompactionPolicy>,
    pub messages: Vec<ChatMessage>,
    pub transcript_scroll: usize,
    pub stick_to_bottom: bool,
    pub input: String,
    pub cursor_char: usize,
    pub last_error: Option<String>,
    pub pending_commands: Vec<PendingCommand>,
    pub running_command: bool,
    pub running_command_name: Option<String>,
    pub command_output_lines: Vec<String>,
    pub streaming: bool,
}

/// A session as it is saved.
#[derive(Debug, Clone)]
pub struct PersistedChatThreadSnapshot {
    pub title: String,
    pub messages: Vec<PersistedChatMessage>,
    pub transcript_scroll: usize,
    pub stick_to_bottom: bool,
    pub input: String,
    pub last_error: Option<String>,
    /// The first waiting action; older snapshots saved only this one.
    pub pending_command: Option<PersistedPendingCommand>,
    pub pending_commands: Vec<PersistedPendingCommand>,
    pub running_command: bool,
    pub running_command_name: Option<String>,
    pub command_output_lines: Vec<String>,
    pub model_id: String,
    pub mode: AgentMode,
    pub prompt_compaction_policy: Option<PromptCompactionPolicy>,
}

/// The content of a [`ChatSession`].
pub struct SessionView {
    pub title: Seq<char>,
    pub mode: AgentMode,
    pub prompt_compaction_policy: Option<PromptCompactionPolicy>,
    pub messages: Seq<MessageView>,
    pub transcript_scroll: usize,
    pub stick_to_bottom: bool,
    pub input: Seq<char>,
    pub cursor_char: usize,
    pub last_error: Option<Seq<char>>,
    pub pending: Seq<ActionView>,
    pub running_command: bool,
    pub running_command_name: Option<Seq<char>>,
    pub command_output_lines: Seq<Seq<char>>,
    pub streaming: bool,
}

/// The content of a [`PersistedChatThreadSnapshot`].
pub struct SnapshotView {
    pub title: Seq<char>,
    pub messages: Seq<MessageView>,
    pub transcript_scroll: usize,
    pub stick_to_bottom: bool,
    pub input: Seq<char>,
    pub last_error: Option<Seq<char>>,
    pub pending_command: Option<PersistedView>,
    pub pending_commands: Seq<PersistedView>,
    pub running_command: bool,
    pub running_command_name: Option<Seq<char>>,
    pub command_output_lines: Seq<Seq<char>>,
    pub model_id: Seq<char>,
    pub mode: AgentMode,
    pub prompt_compaction_policy: Option<PromptCompactionPolicy>,
}

pub open spec fn ostr(o: Option<String>) -> Option<Seq<char>> {
    match o {
        Some(s) => Some(s@),
        None => None,
    }
}

pub open spec fn message_views(v: Seq<ChatMessage>) -> Seq<MessageView> {
    v.map_values(|m: ChatMessage| m@)
}

pub open spec fn saved_message_views(v: Seq<PersistedChatMessage>) -> Seq<MessageView> {
    v.map_values(|m: PersistedChatMessage| m@)
}

pub open spec fn pending_views(v: Seq<PendingCommand>) -> Seq<ActionView> {
    v.map_values(|c: PendingCommand| c.action@)
}

pub open spec fn record_views(v: Seq<PersistedPendingCommand>) -> Seq<PersistedView> {
    v.map_values(|p: PersistedPendingCommand| p@)
}

impl View for ChatSession {
    type V = SessionView;

    open spec fn view(&self) -> SessionView {
        SessionView {
            title: self.title@,
            mode: self.mode,
            prompt_compaction_policy: self.prompt_compaction_policy,
            messages: message_views(self.messages@),
            transcript_scroll: self.transcript_scroll,
            stick_to_bottom: self.stick_to_bottom,
            input: self.input@,
            cursor_char: self.cursor_char,
            last_error: ostr(self.last_error),
            pending: pending_views(self.pending_commands@),
            running_command: self.running_command,
            running_command_name: ostr(self.running_command_name),
            command_output_lines: views(self.command_output_lines@),
            streaming: self.streaming,
        }
    }
}

impl View for PersistedChatThreadSnapshot {
    type V = SnapshotView;

    open spec fn view(&self) -> SnapshotView {
        SnapshotView {
            title: self.title@,
            messages: saved_message_views(self.messages@),
            transcript_scroll: self.transcript_scroll,
            stick_to_bottom: self.stick_to_bottom,
            input: self.input@,
            last_error: ostr(self.last_error),
            pending_command: match self.pending_command {
                Some(p) => Some(p@),
                None => None,
            },
            pending_commands: record_views(self.pending_commands@),
            running_command: self.running_command,
            running_command_name: ostr(self.running_command_name),
            command_output_lines: views(self.command_output_lines@),
            model_id: self.model_id@,
            mode: self.mode,
            prompt_compaction_policy: self.prompt_compaction_policy,
        }
    }
}

/// The snapshot a session is saved as, with the id of the model in use: everything
/// but the cursor and the streaming flag, each waiting action as its record, and the
/// first of them also on its own.
pub open spec fn snapshot_of(s: SessionView, model_id: Seq<char>) -> SnapshotView {
    SnapshotView {
        title: s.title,
        messages: s.messages,
        transcript_scroll: s.transcript_scroll,
        stick_to_bottom: s.stick_to_bottom,
        input: s.input,
        last_error: s.last_error,
        pending_command: if s.pending.len() > 0 {
            Some(persisted_of(s.pending[0]))
        } else {
            None
        },
        pending_commands: s.pending.map_values(|a: ActionView| persisted_of(a)),
        running_command: s.running_command,
        running_command_name: s.running_command_name,
        command_output_lines: s.command_output_lines,
        model_id,
        mode: s.mode,
        prompt_compaction_policy: s.prompt_compaction_policy,
    }
}

/// The actions saved records stand for, in order, leaving out those that read back
/// as no action.
pub open spec fn restored_actions(records: Seq<PersistedView>) -> Seq<ActionView>
    decreases records.len(),
{
    if records.len() == 0 {
        seq![]
    } else {
        let rest = restored_actions(records.drop_last());
        match action_of(records.last()) {
            Some(a) => rest.push(a),
            None => rest,
        }
    }
}

/// The waiting actions of a saved thread: those of its list, or, when the list is
/// empty, of its single record.
pub open spec fn restored_queue(single: Option<PersistedView>, list: Seq<PersistedView>) -> Seq<
    ActionView,
> {
    if list.len() == 0 {
        match single {
            Some(p) => restored_actions(seq![p]),
            None => seq![],
        }
    } else {
        restored_actions(list)
    }
}

/// The session a snapshot reads back as: its content, with the cursor at the end of
/// the composer, not streaming.
pub open spec fn session_of(snap: SnapshotView) -> SessionView {
    SessionView {
        title: snap.title,
        mode: snap.mode,
        prompt_compaction_policy: snap.prompt_compaction_policy,
        messages: snap.messages,
        transcript_scroll: snap.transcript_scroll,
        stick_to_bottom: snap.stick_to_bottom,
        input: snap.input,
        cursor_char: snap.input.len() as usize,
        last_error: snap.last_error,
        pending: restored_queue(snap.pending_command, snap.pending_commands),
        running_command: snap.running_command,
        running_command_name: snap.running_command_name,
        command_output_lines: snap.command_output_lines,
        streaming: false,
    }
}

fn clone_string(s: &String) -> (r: String)
    ensures
        r@ == s@,
{
    s.clone()
}

fn clone_opt_string(s: &Option<String>) -> (r: Option<String>)
    ensures
        ostr(r) == ostr(*s),
{
    match s {
        Some(t) => Some(t.clone()),
        None => None,
    }
}

fn clone_strings(v: &Vec<String>) -> (r: Vec<String>)
    ensures
        views(r@) == views(v@),
{
    let mut out: Vec<String> = Vec::new();
    let mut i: usize = 0;
    while i < v.len()
        invariant
            i <= v.len(),
            views(out@) == views(v@.take(i as int)),
        decreases v.len() - i,
    {
        let c = clone_string(&v[i]);
        proof {
            crate::action_discovery::lemma_views_push(out@, c);
        }
        out.push(c);
        i += 1;
        assert(views(out@) =~= views(v@.take(i as int)));
    }
    assert(v@.take(v.len() as int) =~= v@);
    out
}

impl ChatSession {
    /// An empty session called `title`, in act mode, following the transcript's end.
    pub fn new(title: String) -> (r: ChatSession)
        ensures
            r@.title == title@,
            r@.mode == AgentMode::Act,
            r@.prompt_compaction_policy is None,
            r@.messages.len() == 0,
            r@.transcript_scroll == 0,
            r@.stick_to_bottom,
            r@.input.len() == 0,
            r@.cursor_char == 0,
            r@.last_error is None,
            r@.pending.len() == 0,
            !r@.running_command,
            r@.running_command_name is None,
            r@.command_output_lines.len() == 0,
            !r@.streaming,
    {
        ChatSession {
            title,
            mode: AgentMode::Act,
            prompt_compaction_policy: None,
            messages: Vec::new(),
            transcript_scroll: 0,
            stick_to_bottom: true,
            input: String::new(),
            cursor_char: 0,
            last_error: None,
            pending_commands: Vec::new(),
            running_command: false,
            running_command_name: None,
            command_output_lines: Vec::new(),
            streaming: false,
        }
    }

    /// The snapshot this session is saved as while `model_id` is in use.
    pub fn export_thread_snapshot(&self, model_id: &str) -> (r: PersistedChatThreadSnapshot)
        ensures
            r@ == snapshot_of(self@, model_id@),
    {
        let mut messages: Vec<PersistedChatMessage> = Vec::new();
        let mut i: usize = 0;
        while i < self.messages.len()
            invariant
                i <= self.messages.len(),
                saved_message_views(messages@) == message_views(self.messages@.take(i as int)),
            decreases self.messages.len() - i,
        {
            let m = PersistedChatMessage::from_message(&self.messages[i]);
            let ghost before = messages@;
            messages.push(m);
            i += 1;
            assert(saved_message_views(messages@) =~= saved_message_views(before).push(m@));
            assert(message_views(self.messages@.take(i as int)) =~= message_views(
                self.messages@.take(i - 1),
            ).push(self.messages@[i - 1]@));
            assert(saved_message_views(messages@) =~= message_views(
                self.messages@.take(i as int),
            ));
        }
        assert(self.messages@.take(self.messages.len() as int) =~= self.messages@);
        let mut records: Vec<PersistedPendingCommand> = Vec::new();
        let mut j: usize = 0;
        while j < self.pending_commands.len()
            invariant
                j <= self.pending_commands.len(),
                record_views(records@) == pending_views(self.pending_commands@.take(j as int)).map_values(
                    |a: ActionView| persisted_of(a),
                ),
            decreases self.pending_commands.len() - j,
        {
            let p = self.pending_commands[j].to_persisted();
            let ghost before = records@;
            records.push(p);
            j += 1;
            assert(record_views(records@) =~= record_views(before).push(p@));
            assert(record_views(records@) =~= pending_views(
                self.pending_commands@.take(j as int),
            ).map_values(|a: ActionView| persisted_of(a)));
        }
        assert(self.pending_commands@.take(self.pending_commands.len() as int)
            =~= self.pending_commands@);
        let first = if self.pending_commands.len() > 0 {
            Some(self.pending_commands[0].to_persisted())
        } else {
            None
        };
        let r = PersistedChatThreadSnapshot {
            title: clone_string(&self.title),
            messages,
            transcript_scroll: self.transcript_scroll,
            stick_to_bottom: self.stick_to_bottom,
            input: clone_string(&self.input),
            last_error: clone_opt_string(&self.last_error),
            pending_command: first,
            pending_commands: records,
            running_command: self.running_command,
            running_command_name: clone_opt_string(&self.running_command_name),
            command_output_lines: clone_strings(&self.command_output_lines),
            model_id: model_id.to_owned(),
            mode: self.mode,
            prompt_compaction_policy: self.prompt_compaction_policy,
        };
        assert(r@ == snapshot_of(self@, model_id@));
        r
    }

    /// The session a saved thread reads back as.
    pub fn from_thread_snapshot(snapshot: PersistedChatThreadSnapshot) -> (r: ChatSession)
        ensures
            r@ == session_of(snapshot@),
    {
        let ghost snap = snapshot@;
        let PersistedChatThreadSnapshot {
            title,
            messages,
            transcript_scroll,
            stick_to_bottom,
            input,
            last_error,
            pending_command,
            pending_commands,
            running_command,
            running_command_name,
            command_output_lines,
            model_id: _,
            mode,
            prompt_compaction_policy,
        } = snapshot;
        let mut restored_messages: Vec<ChatMessage> = Vec::new();
        let mut i: usize = 0;
        while i < messages.len()
            invariant
                i <= messages.len(),
                message_views(restored_messages@) == saved_message_views(messages@.take(i as int)),
            decreases messages.len() - i,
        {
            let m = ChatMessage::from_persisted(messages[i].duplicate());
            let ghost before = restored_messages@;
            restored_messages.push(m);
            i += 1;
            assert(message_views(restored_messages@) =~= message_views(before).push(m@));
            assert(message_views(restored_messages@) =~= saved_message_views(
                messages@.take(i as int),
            ));
        }
        assert(messages@.take(messages.len() as int) =~= messages@);
        let ghost list = record_views(pending_commands@);
        let queue = if pending_commands.len() == 0 {
            let mut single: Vec<PersistedPendingCommand> = Vec::new();
            match pending_command {
                Some(p) => {
                    single.push(p);
                    assert(record_views(single@) =~= seq![p@]);
                },
                None => {
                    assert(record_views(single@) =~= seq![]);
                },
            }
            restore_pending(single)
        } else {
            restore_pending(pending_commands)
        };
        assert(pending_views(queue@) == restored_queue(snap.pending_command, snap.pending_commands));
        let cursor_char = chars_of(input.as_str()).len();
        let r = ChatSession {
            title,
            mode,
            prompt_compaction_policy,
            messages: restored_messages,
            transcript_scroll,
            stick_to_bottom,
            input,
            cursor_char,
            last_error,
            pending_commands: queue,
            running_command,
            running_command_name,
            command_output_lines,
            streaming: false,
        };
        assert(r@.messages == snap.messages);
        assert(r@.cursor_char == snap.input.len() as usize);
        r
    }
}

/// The waiting commands saved records stand for, in order.
pub fn restore_pending(records: Vec<PersistedPendingCommand>) -> (r: Vec<PendingCommand>)
    ensures
        pending_views(r@) == restored_actions(record_views(records@)),
{
    let mut out: Vec<PendingCommand> = Vec::new();
    let mut i: usize = 0;
    while i < records.len()
        invariant
            i <= records.len(),
            pending_views(out@) == restored_actions(record_views(records@.take(i as int))),
        decreases records.len() - i,
    {
        let p = records[i].duplicate();
        assert(record_views(records@.take(i + 1)).drop_last() =~= record_views(
            records@.take(i as int),
        ));
        let ghost before = out@;
        let ghost pv = p@;
        match PendingCommand::from_persisted(p) {
            Some(c) => {
                out.push(c);
                assert(pending_views(out@) =~= pending_views(before).push(c.action@));
            },
            None => {},
        }
        i += 1;
        assert(pending_views(out@) =~= restored_actions(record_views(records@.take(i as int))));
    }
    assert(records@.take(records.len() as int) =~= records@);
    out
}

/// The waiting actions saved with a thread read back as they were, when each of them
/// is one whose record reads back ([`restorable`]).
pub proof fn lemma_pending_queue_reads_back(pending: Seq<ActionView>)
    requires
        forall|i: int| 0 <= i < pending.len() ==> restorable(#[trigger] pending[i]),
    ensures
        restored_queue(
            if pending.len() > 0 {
                Some(persisted_of(pending[0]))
            } else {
                None
            },
            pending.map_values(|a: ActionView| persisted_of(a)),
        ) == pending,
    decreases pending.len(),
{
    if pending.len() > 0 {
        lemma_restored_actions_of_saved(pending);
    }
}

proof fn lemma_restored_actions_of_saved(pending: Seq<ActionView>)
    requires
        forall|i: int| 0 <= i < pending.len() ==> restorable(#[trigger] pending[i]),
    ensures
        restored_actions(pending.map_values(|a: ActionView| persisted_of(a))) == pending,
    decreases pending.len(),
{
    if pending.len() > 0 {
        let init = pending.drop_last();
        lemma_restored_actions_of_saved(init);
        assert(pending.map_values(|a: ActionView| persisted_of(a)).drop_last() =~= init.map_values(
            |a: ActionView| persisted_of(a),
        ));
        lemma_saved_action_reads_back(pending.last());
        assert(init.push(pending.last()) =~= pending);
    } else {
        assert(pending.map_values(|a: ActionView| persisted_of(a)) =~= seq![]);
    }
}

/// A saved thread reads back as the session it was saved from, when every waiting
/// action is one whose record reads back: the same conversation, composer text,
/// scroll state, error, running command, output, mode, compaction policy and queue of
/// waiting actions; only the cursor moves to the end of the composer and the stream is
/// no longer running.
pub proof fn lemma_thread_snapshot_reads_back(s: SessionView, model_id: Seq<char>)
    requires
        forall|i: int| 0 <= i < s.pending.len() ==> restorable(#[trigger] s.pending[i]),
        s.input.len() <= usize::MAX,
    ensures
        session_of(snapshot_of(s, model_id)) == (SessionView {
            cursor_char: s.input.len() as usize,
            streaming: false,
            ..s
        }),
{
    lemma_pending_queue_reads_back(s.pending);
}

/// The index of the first of `models` from `i` on that is `wanted`, if any.
pub open spec fn first_model_from(models: Seq<Seq<char>>, wanted: Seq<char>, i: int) -> Option<int>
    decreases models.len() - i,
{
    if i < 0 || i >= models.len() {
        None
    } else if models[i] == wanted {
        Some(i)
    } else {
        first_model_from(models, wanted, i + 1)
    }
}

/// The model selected when a thread saved with model `wanted` is read back: that
/// model where the list has it, else the current selection kept within the list.
pub open spec fn model_index_for(models: Seq<Seq<char>>, wanted: Seq<char>, current: usize) -> usize {
    match first_model_from(models, wanted, 0) {
        Some(i) => i as usize,
        None => {
            let last = if models.len() > 0 {
                models.len() - 1
            } else {
                0
            };
            if (current as int) < last {
                current
            } else {
                last as usize
            }
        },
    }
}

/// The model selected when a thread saved with model `wanted` is read back.
pub fn model_index_for_thread(models: &Vec<String>, wanted: &str, current: usize) -> (r: usize)
    ensures
        r == model_index_for(views(models@), wanted@, current),
{
    let w = chars_of(wanted);
    let mut i: usize = 0;
    while i < models.len()
        invariant
            i <= models.len(),
            w@ == wanted@,
            first_model_from(views(models@), wanted@, 0) == first_model_from(
                views(models@),
                wanted@,
                i as int,
            ),
        decreases models.len() - i,
    {
        let m = chars_of(models[i].as_str());
        if crate::patch::chars_eq(&m, &w) {
            return i;
        }
        i += 1;
    }
    let last = if models.len() > 0 {
        models.len() - 1
    } else {
        0
    };
    if current < last {
        current
    } else {
        last
    }
}

/// The label of a compaction policy, as the session reports it.
pub open spec fn policy_label(p: Option<PromptCompactionPolicy>) -> Seq<char> {
    match p {
        None | Some(PromptCompactionPolicy::CurrentDefault) => "default"@,
        Some(PromptCompactionPolicy::Last6Ledger768) => "last6-ledger768"@,
        Some(PromptCompactionPolicy::Last8Ledger1024) => "last8-ledger1024"@,
        Some(PromptCompactionPolicy::BenchmarkRepairMinimal) => "benchmark-repair-minimal"@,
        Some(PromptCompactionPolicy::BenchmarkStatePacket) => "benchmark-state-packet"@,
        Some(PromptCompactionPolicy::Off) => "off"@,
    }
}

/// A conversation kept within [`MAX_MESSAGES`]: the oldest messages are dropped, an
/// even number of them, so that exchanges stay paired.
pub open spec fn trimmed_history(m: Seq<MessageView>) -> Seq<MessageView> {
    if m.len() > MAX_MESSAGES {
        let excess = m.len() - MAX_MESSAGES;
        let drop = if excess % 2 == 1 {
            excess + 1
        } else {
            excess
        };
        m.subrange(drop, m.len() as int)
    } else {
        m
    }
}

/// Keeps `messages` within [`MAX_MESSAGES`].
pub fn trim_history(messages: &mut Vec<ChatMessage>)
    ensures
        message_views(final(messages)@) == trimmed_history(message_views(old(messages)@)),
{
    if messages.len() > MAX_MESSAGES {
        let excess = messages.len() - MAX_MESSAGES;
        let drop = if excess % 2 == 1 {
            excess + 1
        } else {
            excess
        };
        let kept = messages.split_off(drop);
        *messages = kept;
        assert(message_views(messages@) =~= trimmed_history(message_views(old(messages)@)));
    }
}

/// What submitting `input` as a `/compaction` command does to a session; `None` when
/// the trimmed input is not such a command. The policy changes when the command names
/// one; the command and the reply (the new policy, or why none was set) join the
/// conversation; the composer is cleared, the error dismissed, the transcript follows
/// its end, and the stream stops.
pub open spec fn after_compaction(s: SessionView) -> Option<SessionView> {
    let t = trim(s.input);
    match compaction_command(t) {
        None => None,
        Some(reply) => {
            let policy = match reply {
                Ok(p) => p,
                Err(_) => s.prompt_compaction_policy,
            };
            let response = match reply {
                Ok(p) => "Compaction policy set to "@ + policy_label(p) + " for this session."@,
                Err(e) => e,
            };
            Some(
                SessionView {
                    prompt_compaction_policy: policy,
                    input: seq![],
                    cursor_char: 0,
                    last_error: None,
                    stick_to_bottom: true,
                    streaming: false,
                    messages: trimmed_history(
                        s.messages.push(MessageView::User(t)).push(MessageView::Assistant(response)),
                    ),
                    ..s
                },
            )
        },
    }
}

impl ChatSession {
    /// Submits the composer when it holds a `/compaction` command and answers whether
    /// it did; a blank composer is left alone, and any other text only stops the
    /// stream, for the caller to send.
    pub fn submit_compaction_input(&mut self) -> (handled: bool)
        ensures
            trim(old(self)@.input).len() == 0 ==> !handled && final(self)@ == old(self)@,
            trim(old(self)@.input).len() > 0 ==> match after_compaction(old(self)@) {
                Some(next) => handled && final(self)@ == next,
                None => !handled && final(self)@ == (SessionView {
                    streaming: false,
                    ..old(self)@
                }),
            },
    {
        let c = chars_of(self.input.as_str());
        let (a, b) = trim_bounds(&c, 0, c.len());
        assert(c@.subrange(0, c.len() as int) =~= c@);
        if a == b {
            return false;
        }
        self.streaming = false;
        let trimmed = crate::text::substring(&c, a, b);
        let reply = parse_compaction_command(trimmed.as_str());
        match reply {
            None => false,
            Some(result) => {
                let response = match result {
                    Ok(policy) => {
                        self.prompt_compaction_policy = policy;
                        let mut m = chars_of("Compaction policy set to ");
                        push_str(&mut m, compaction_policy_label(policy));
                        push_str(&mut m, " for this session.");
                        string_of(m.as_slice())
                    },
                    Err(error) => error,
                };
                let ghost resp = response@;
                self.input = String::new();
                self.cursor_char = 0;
                self.last_error = None;
                self.stick_to_bottom = true;
                let ghost before = self.messages@;
                let ghost t = trimmed@;
                self.messages.push(ChatMessage::User(trimmed));
                self.messages.push(ChatMessage::Assistant(response));
                assert(message_views(self.messages@) =~= message_views(before).push(
                    MessageView::User(t),
                ).push(MessageView::Assistant(resp)));
                trim_history(&mut self.messages);
                true
            },
        }
    }
}

/// A message after a streamed piece of the reply arrives: an assistant message grows
/// as [`ChatMessage::push_assistant`] grows it; a user message stays.
pub open spec fn with_delta(m: MessageView, delta: Seq<char>) -> MessageView {
    match m {
        MessageView::User(t) => MessageView::User(t),
        MessageView::Assistant(t) => MessageView::Assistant(appended_text(t, delta)),
    }
}

/// The text an error leaves in the reply it interrupted: the error alone in an empty
/// reply, else the reply followed by the error in brackets.
pub open spec fn with_error(text: Seq<char>, err: Seq<char>) -> Seq<char> {
    if text.len() == 0 {
        "Error: "@ + err
    } else {
        text + "\n[Error: "@ + err + "]"@
    }
}

/// The message reporting a cancelled batch of `skipped` further actions.
pub open spec fn batch_cancelled_message(skipped: nat) -> Seq<char> {
    "[Batch cancelled]\nThe current action was cancelled, so the remaining "@ + decimal(skipped)
        + " queued action(s) were also cleared."@
}

/// The message reporting that the failure of `summary` skipped `skipped` queued
/// actions.
pub open spec fn batch_aborted_message(summary: Seq<char>, skipped: nat) -> Seq<char> {
    "[Batch execution aborted]\nThe action `"@ + summary + "` failed, so the remaining "@
        + decimal(skipped) + (if skipped == 1 {
        " 1 queued action was"@
    } else {
        " queued actions were"@
    }) + " skipped. Review the error and try again."@
}

/// The message reporting that a failed action skipped `skipped` queued actions, as a
/// finished command reports it.
pub open spec fn failed_batch_message(summary: Seq<char>, skipped: nat) -> Seq<char> {
    "[Batch execution aborted]\nThe action `"@ + summary + "` failed, so the remaining "@
        + decimal(skipped) + " queued action(s) were skipped. Review the error and try again."@
}

/// The message that hands an action's output back to the model.
pub open spec fn tool_output_message(summary: Seq<char>, output: Seq<char>) -> Seq<char> {
    "[Tool Output]\n"@ + summary + "\n"@ + output + "\n[End Output]"@
}

/// Builds a string from pieces.
fn concat(parts: &Vec<&str>) -> (r: String)
    ensures
        r@ == concat_view(parts@),
{
    let mut out: Vec<char> = Vec::new();
    let mut i: usize = 0;
    while i < parts.len()
        invariant
            i <= parts.len(),
            out@ == concat_view(parts@.take(i as int)),
        decreases parts.len() - i,
    {
        push_str(&mut out, parts[i]);
        assert(parts@.take(i + 1).drop_last() =~= parts@.take(i as int));
        i += 1;
    }
    assert(parts@.take(parts.len() as int) =~= parts@);
    string_of(out.as_slice())
}

/// The pieces joined.
pub open spec fn concat_view(parts: Seq<&str>) -> Seq<char>
    decreases parts.len(),
{
    if parts.len() == 0 {
        seq![]
    } else {
        concat_view(parts.drop_last()) + parts.last()@
    }
}

/// The decimal text of `n`.
fn decimal_string(n: usize) -> (r: String)
    ensures
        r@ == decimal(n as nat),
{
    let d = decimal_exec(n);
    string_of(d.as_slice())
}

impl ChatSession {
    /// Starts an exchange: the composer is cleared, the error dismissed and the
    /// transcript follows its end; a first exchange names the session after the user's
    /// text; the user's text and the assistant's reply (or its placeholder) join the
    /// conversation, which is kept within [`MAX_MESSAGES`].
    pub fn begin_submitted_exchange(&mut self, user_text: String, assistant_text: String)
        ensures
            final(self)@ == (SessionView {
                input: seq![],
                cursor_char: 0,
                last_error: None,
                stick_to_bottom: true,
                title: if old(self)@.messages.len() == 0 {
                    session_title(user_text@)
                } else {
                    old(self)@.title
                },
                messages: trimmed_history(
                    old(self)@.messages.push(MessageView::User(user_text@)).push(
                        MessageView::Assistant(assistant_text@),
                    ),
                ),
                ..old(self)@
            }),
    {
        let was_empty = self.messages.len() == 0;
        self.input = String::new();
        self.cursor_char = 0;
        self.last_error = None;
        self.stick_to_bottom = true;
        if was_empty {
            self.title = title_from_user_message(user_text.as_str());
        }
        let ghost before = self.messages@;
        let ghost (u, a) = (user_text@, assistant_text@);
        self.messages.push(ChatMessage::User(user_text));
        self.messages.push(ChatMessage::Assistant(assistant_text));
        assert(message_views(self.messages@) =~= message_views(before).push(MessageView::User(u)).push(
            MessageView::Assistant(a),
        ));
        trim_history(&mut self.messages);
    }

    /// Adds a streamed piece of the reply to the last message.
    pub fn apply_assistant_delta(&mut self, delta: &str)
        ensures
            old(self)@.messages.len() == 0 ==> final(self)@ == old(self)@,
            old(self)@.messages.len() > 0 ==> final(self)@ == (SessionView {
                messages: old(self)@.messages.update(
                    old(self)@.messages.len() - 1,
                    with_delta(old(self)@.messages.last(), delta@),
                ),
                ..old(self)@
            }),
    {
        let n = self.messages.len();
        if n == 0 {
            return;
        }
        let mut last = self.messages.pop().unwrap();
        let ghost before = self.messages@;
        last.push_assistant(delta);
        self.messages.push(last);
        assert(message_views(self.messages@) =~= message_views(old(self).messages@).update(
            n - 1,
            with_delta(message_views(old(self).messages@).last(), delta@),
        ));
    }

    /// Records a stream error: it becomes the session's error and is shown in the reply
    /// it interrupted (when the last message is a reply); the stream stops.
    pub fn apply_stream_error(&mut self, err: &str)
        ensures
            final(self)@ == (SessionView {
                last_error: Some(err@),
                streaming: false,
                messages: if old(self)@.messages.len() > 0 && old(self)@.messages.last() is Assistant {
                    old(self)@.messages.update(
                        old(self)@.messages.len() - 1,
                        MessageView::Assistant(
                            with_error(old(self)@.messages.last()->Assistant_0, err@),
                        ),
                    )
                } else {
                    old(self)@.messages
                },
                ..old(self)@
            }),
    {
        self.last_error = Some(err.to_owned());
        let n = self.messages.len();
        if n > 0 {
            let last = self.messages.pop().unwrap();
            let next = match last {
                ChatMessage::Assistant(text) => {
                    let mut parts: Vec<&str> = Vec::new();
                    if chars_of(text.as_str()).len() == 0 {
                        parts.push("Error: ");
                        parts.push(err);
                    } else {
                        parts.push(text.as_str());
                        parts.push("\n[Error: ");
                        parts.push(err);
                        parts.push("]");
                    }
                    let joined = concat(&parts);
                    proof {
                        reveal_with_fuel(concat_view, 5);
                        assert(text@.len() == 0 ==> text@ =~= seq![]);
                    }
                    ChatMessage::Assistant(joined)
                },
                other => other,
            };
            self.messages.push(next);
            assert(message_views(self.messages@) =~= (if message_views(old(self).messages@).last() is Assistant {
                message_views(old(self).messages@).update(
                    n - 1,
                    MessageView::Assistant(
                        with_error(message_views(old(self).messages@).last()->Assistant_0, err@),
                    ),
                )
            } else {
                message_views(old(self).messages@)
            }));
        }
        self.streaming = false;
    }

    /// Adds a line of output of the running command.
    pub fn push_command_output(&mut self, line: String)
        ensures
            final(self)@ == (SessionView {
                command_output_lines: old(self)@.command_output_lines.push(line@),
                ..old(self)@
            }),
    {
        proof {
            crate::action_discovery::lemma_views_push(self.command_output_lines@, line);
        }
        self.command_output_lines.push(line);
    }

    /// Cancels the waiting actions, answering how many there were: the queue is
    /// cleared and the cancellation noted, with a note on the batch when further
    /// actions were waiting behind the current one.
    pub fn cancel_pending_commands(&mut self) -> (count: usize)
        ensures
            count == old(self)@.pending.len(),
            count == 0 ==> final(self)@ == old(self)@,
            count > 0 ==> final(self)@ == (SessionView {
                pending: seq![],
                messages: if count > 1 {
                    old(self)@.messages.push(MessageView::User("[Command cancelled by user]"@)).push(
                        MessageView::User(batch_cancelled_message((count - 1) as nat)),
                    )
                } else {
                    old(self)@.messages.push(MessageView::User("[Command cancelled by user]"@))
                },
                ..old(self)@
            }),
    {
        let count = self.pending_commands.len();
        if count == 0 {
            return 0;
        }
        self.pending_commands = Vec::new();
        let ghost before = self.messages@;
        self.messages.push(ChatMessage::User("[Command cancelled by user]".to_owned()));
        assert(message_views(self.messages@) =~= message_views(before).push(
            MessageView::User("[Command cancelled by user]"@),
        ));
        if count > 1 {
            let skipped = decimal_string(count - 1);
            let mut parts: Vec<&str> = Vec::new();
            parts.push("[Batch cancelled]\nThe current action was cancelled, so the remaining ");
            parts.push(skipped.as_str());
            parts.push(" queued action(s) were also cleared.");
            let text = concat(&parts);
            proof {
                reveal_with_fuel(concat_view, 4);
            }
            let ghost mid = self.messages@;
            let ghost tv = text@;
            self.messages.push(ChatMessage::User(text));
            assert(message_views(self.messages@) =~= message_views(mid).push(MessageView::User(tv)));
        }
        assert(pending_views(self.pending_commands@) =~= seq![]);
        count
    }

    /// Notes that the failure of the action `failed_action_summary` skipped
    /// `skipped_count` queued actions.
    pub fn append_batch_abort_message(&mut self, failed_action_summary: &str, skipped_count: usize)
        ensures
            final(self)@ == (SessionView {
                messages: old(self)@.messages.push(
                    MessageView::User(batch_aborted_message(failed_action_summary@, skipped_count as nat)),
                ),
                ..old(self)@
            }),
    {
        let skipped = decimal_string(skipped_count);
        let label = if skipped_count == 1 {
            " 1 queued action was"
        } else {
            " queued actions were"
        };
        let mut parts: Vec<&str> = Vec::new();
        parts.push("[Batch execution aborted]\nThe action `");
        parts.push(failed_action_summary);
        parts.push("` failed, so the remaining ");
        parts.push(skipped.as_str());
        parts.push(label);
        parts.push(" skipped. Review the error and try again.");
        let text = concat(&parts);
        proof {
            reveal_with_fuel(concat_view, 7);
        }
        let ghost before = self.messages@;
        let ghost tv = text@;
        self.messages.push(ChatMessage::User(text));
        assert(message_views(self.messages@) =~= message_views(before).push(MessageView::User(tv)));
    }

    /// Records that the running action, summarized as `summary`, finished with
    /// `output` (its error when it failed), and answers whether the model should now be
    /// asked to follow up: the command stops running; its output joins the
    /// conversation and the output pane is cleared; a failure clears the rest of the
    /// batch with a note; once nothing waits, an empty reply is opened for the
    /// follow-up.
    pub fn finish_command(&mut self, summary: &str, output: &str, succeeded: bool) -> (followup: bool)
        ensures
            followup == (succeeded ==> old(self)@.pending.len() == 0),
            ({
                let m1 = old(self)@.messages.push(MessageView::User(tool_output_message(summary@, output@)));
                let aborted = !succeeded && old(self)@.pending.len() > 0;
                let m2 = if aborted {
                    m1.push(MessageView::User(failed_batch_message(summary@, old(self)@.pending.len() as nat)))
                } else {
                    m1
                };
                let pending = if aborted {
                    seq![]
                } else {
                    old(self)@.pending
                };
                let m3 = if pending.len() == 0 {
                    m2.push(MessageView::Assistant(seq![]))
                } else {
                    m2
                };
                final(self)@ == (SessionView {
                    running_command: false,
                    running_command_name: None,
                    command_output_lines: seq![],
                    pending,
                    messages: m3,
                    ..old(self)@
                })
            }),
    {
        self.running_command = false;
        self.running_command_name = None;
        let mut parts: Vec<&str> = Vec::new();
        parts.push("[Tool Output]\n");
        parts.push(summary);
        parts.push("\n");
        parts.push(output);
        parts.push("\n[End Output]");
        let context = concat(&parts);
        proof {
            reveal_with_fuel(concat_view, 6);
        }
        let ghost before = self.messages@;
        let ghost cv = context@;
        self.messages.push(ChatMessage::User(context));
        assert(message_views(self.messages@) =~= message_views(before).push(MessageView::User(cv)));
        self.command_output_lines = Vec::new();
        assert(views(self.command_output_lines@) =~= seq![]);
        let queued = self.pending_commands.len();
        if !succeeded && queued > 0 {
            self.pending_commands = Vec::new();
            assert(pending_views(self.pending_commands@) =~= seq![]);
            let skipped = decimal_string(queued);
            let mut more: Vec<&str> = Vec::new();
            more.push("[Batch execution aborted]\nThe action `");
            more.push(summary);
            more.push("` failed, so the remaining ");
            more.push(skipped.as_str());
            more.push(" queued action(s) were skipped. Review the error and try again.");
            let text = concat(&more);
            proof {
                reveal_with_fuel(concat_view, 6);
            }
            let ghost mid = self.messages@;
            let ghost tv = text@;
            self.messages.push(ChatMessage::User(text));
            assert(message_views(self.messages@) =~= message_views(mid).push(MessageView::User(tv)));
        }
        if self.pending_commands.len() == 0 {
            let ghost mid = self.messages@;
            self.messages.push(ChatMessage::Assistant(String::new()));
            assert(message_views(self.messages@) =~= message_views(mid).push(
                MessageView::Assistant(seq![]),
            ));
            true
        } else {
            false
        }
    }
}

} // verus!
