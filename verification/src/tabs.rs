//! The chat sessions of the assistant pane, shown as tabs, one of them active.
use vstd::prelude::*;
use crate::actions::restorable;
use crate::chat::{compaction_policy_label, cycle_index, PromptCompactionPolicy};
use crate::text::{decimal, decimal_exec, push_chars, push_str, chars_of, string_of};
use crate::thread::{
    lemma_thread_snapshot_reads_back, session_of, snapshot_of, AgentMode, ChatSession,
    PersistedChatThreadSnapshot, SessionView,
};

verus! {

/// The chat sessions and which of them is active.
pub struct ChatSessions {
    pub sessions: Vec<ChatSession>,
    pub active: usize,
}

/// The contents of a list of sessions.
pub open spec fn session_views(v: Seq<ChatSession>) -> Seq<SessionView> {
    v.map_values(|s: ChatSession| s@)
}

/// Where the active tab lands when tab `index` of `len` tabs is closed while tab
/// `active` is active: a later tab moves down by one; otherwise the index is kept
/// within the remaining tabs.
pub open spec fn active_after_close(active: int, index: int, len: int) -> int {
    let last = len - 2;
    let a = if active > index {
        active - 1
    } else {
        active
    };
    if a > last {
        last
    } else {
        a
    }
}

/// The title of the `n`-th chat session.
pub open spec fn numbered_title(n: nat) -> Seq<char> {
    "Chat "@ + decimal(n)
}

impl ChatSessions {
    /// There is a session, and the active index names one.
    pub open spec fn wf(&self) -> bool {
        self.sessions@.len() >= 1 && self.active < self.sessions@.len()
    }

    /// A single active session.
    pub fn new(first: ChatSession) -> (r: ChatSessions)
        ensures
            r.wf(),
            r.active == 0,
            session_views(r.sessions@) == seq![first@],
    {
        let mut sessions: Vec<ChatSession> = Vec::new();
        sessions.push(first);
        assert(session_views(sessions@) =~= seq![first@]);
        ChatSessions { sessions, active: 0 }
    }

    /// Makes tab `index` active when there is such a tab; answers whether there is.
    pub fn activate_chat_session(&mut self, index: usize) -> (r: bool)
        requires
            old(self).wf(),
        ensures
            final(self).wf(),
            r == (index < old(self).sessions@.len()),
            final(self).sessions@ == old(self).sessions@,
            final(self).active == if r {
                index
            } else {
                old(self).active
            },
    {
        if index >= self.sessions.len() {
            return false;
        }
        self.active = index;
        true
    }

    /// Closes tab `index`, unless it is the last tab or there is no such tab. Answers
    /// whether it closed the tab, and whether the session was streaming (its stream is
    /// then to be cancelled). The session that was active stays active when another
    /// tab closes.
    pub fn close_chat_session_at(&mut self, index: usize) -> (r: (bool, bool))
        requires
            old(self).wf(),
        ensures
            final(self).wf(),
            r.0 == (index < old(self).sessions@.len() && old(self).sessions@.len() > 1),
            !r.0 ==> !r.1 && final(self).sessions@ == old(self).sessions@ && final(self).active
                == old(self).active,
            r.0 ==> r.1 == old(self).sessions@[index as int].streaming,
            r.0 ==> final(self).sessions@ == old(self).sessions@.remove(index as int),
            r.0 ==> final(self).active == active_after_close(
                old(self).active as int,
                index as int,
                old(self).sessions@.len() as int,
            ),
            r.0 && index != old(self).active ==> final(self).sessions@[final(self).active as int]
                == old(self).sessions@[old(self).active as int],
    {
        let len = self.sessions.len();
        if index >= len || len <= 1 {
            return (false, false);
        }
        let streaming = self.sessions[index].streaming;
        let _closed = self.sessions.remove(index);
        let new_len = len - 1;
        let mut a = self.active;
        if a > index {
            a = a - 1;
        }
        if a > new_len - 1 {
            a = new_len - 1;
        }
        self.active = a;
        (true, streaming)
    }

    /// Replaces every session by a fresh `Chat 1` session in `mode` with compaction
    /// policy `policy`; answers the indices of the sessions that were streaming, whose
    /// streams are to be cancelled, in order.
    pub fn close_all_chat_sessions(
        &mut self,
        mode: AgentMode,
        policy: Option<PromptCompactionPolicy>,
    ) -> (cancelled: Vec<usize>)
        requires
            old(self).wf(),
        ensures
            final(self).wf(),
            final(self).active == 0,
            final(self).sessions@.len() == 1,
            final(self).sessions@[0]@.title == "Chat 1"@,
            final(self).sessions@[0]@.mode == mode,
            final(self).sessions@[0]@.prompt_compaction_policy == policy,
            final(self).sessions@[0]@.messages.len() == 0,
            final(self).sessions@[0]@.pending.len() == 0,
            !final(self).sessions@[0]@.streaming,
            forall|k: int|
                0 <= k < cancelled@.len() ==> (cancelled@[k] as int) < old(self).sessions@.len()
                    && old(self).sessions@[cancelled@[k] as int].streaming,
            forall|j: int|
                0 <= j < old(self).sessions@.len() && old(self).sessions@[j].streaming ==> cancelled@.contains(
                    j as usize,
                ),
            forall|k1: int, k2: int|
                0 <= k1 < k2 < cancelled@.len() ==> cancelled@[k1] < cancelled@[k2],
    {
        let mut cancelled: Vec<usize> = Vec::new();
        let mut i: usize = 0;
        while i < self.sessions.len()
            invariant
                i <= self.sessions@.len(),
                self.sessions@ == old(self).sessions@,
                forall|k: int|
                    0 <= k < cancelled@.len() ==> (cancelled@[k] as int) < i
                        && self.sessions@[cancelled@[k] as int].streaming,
                forall|j: int|
                    0 <= j < i && self.sessions@[j].streaming ==> cancelled@.contains(j as usize),
                forall|k1: int, k2: int|
                    0 <= k1 < k2 < cancelled@.len() ==> cancelled@[k1] < cancelled@[k2],
            decreases self.sessions.len() - i,
        {
            let ghost before = cancelled@;
            if self.sessions[i].streaming {
                cancelled.push(i);
                assert(cancelled@[cancelled@.len() - 1] == i);
            }
            assert forall|j: int|
                0 <= j < i + 1 && self.sessions@[j].streaming implies cancelled@.contains(j as usize) by {
                if j < i {
                    assert(before.contains(j as usize));
                    let w = choose|w: int| 0 <= w < before.len() && before[w] == j as usize;
                    assert(cancelled@[w] == j as usize);
                } else {
                    assert(cancelled@[cancelled@.len() - 1] == j as usize);
                }
            }
            i += 1;
        }
        let mut fresh = ChatSession::new("Chat 1".to_owned());
        fresh.mode = mode;
        fresh.prompt_compaction_policy = policy;
        let mut sessions: Vec<ChatSession> = Vec::new();
        sessions.push(fresh);
        self.sessions = sessions;
        self.active = 0;
        cancelled
    }

    /// Moves `delta` tabs from the active one, wrapping around, when there is more than
    /// one tab; a streaming active session stops first. Answers whether a stream was
    /// stopped (and is to be cancelled).
    pub fn cycle_chat_session(&mut self, delta: i64) -> (stopped: bool)
        requires
            old(self).wf(),
        ensures
            final(self).wf(),
            old(self).sessions@.len() <= 1 ==> !stopped && final(self).sessions@
                == old(self).sessions@ && final(self).active == old(self).active,
            old(self).sessions@.len() > 1 ==> {
                &&& stopped == old(self).sessions@[old(self).active as int].streaming
                &&& final(self).active as int == (old(self).active as int + delta as int) % (old(
                    self,
                ).sessions@.len() as int)
                &&& session_views(final(self).sessions@) == session_views(
                    old(self).sessions@,
                ).update(
                    old(self).active as int,
                    SessionView { streaming: false, ..old(self).sessions@[old(self).active as int]@ },
                )
            },
    {
        let len = self.sessions.len();
        if len <= 1 {
            return false;
        }
        let a = self.active;
        let stopped = self.sessions[a].streaming;
        let mut current = self.sessions.remove(a);
        current.streaming = false;
        self.sessions.insert(a, current);
        assert(session_views(self.sessions@) =~= session_views(old(self).sessions@).update(
            a as int,
            SessionView { streaming: false, ..old(self).sessions@[a as int]@ },
        ));
        self.active = cycle_index(a, len, delta);
        stopped
    }

    /// Opens a new session, named after its position, in the active session's mode and
    /// with compaction policy `policy`, and makes it active; a streaming active session
    /// stops first. Answers whether a stream was stopped (and is to be cancelled).
    pub fn new_chat_session(&mut self, policy: Option<PromptCompactionPolicy>) -> (stopped: bool)
        requires
            old(self).wf(),
            old(self).sessions@.len() < usize::MAX - 1,
        ensures
            final(self).wf(),
            stopped == old(self).sessions@[old(self).active as int].streaming,
            final(self).sessions@.len() == old(self).sessions@.len() + 1,
            final(self).active == old(self).sessions@.len(),
            session_views(final(self).sessions@).take(old(self).sessions@.len() as int)
                == session_views(old(self).sessions@).update(
                old(self).active as int,
                SessionView { streaming: false, ..old(self).sessions@[old(self).active as int]@ },
            ),
            ({
                let s = final(self).sessions@[final(self).active as int]@;
                &&& s.title == numbered_title((old(self).sessions@.len() + 1) as nat)
                &&& s.mode == old(self).sessions@[old(self).active as int].mode
                &&& s.prompt_compaction_policy == policy
                &&& s.messages.len() == 0
                &&& s.pending.len() == 0
                &&& !s.streaming
            }),
    {
        let a = self.active;
        let stopped = self.sessions[a].streaming;
        let mut current = self.sessions.remove(a);
        current.streaming = false;
        let mode = current.mode;
        self.sessions.insert(a, current);
        let ghost kept = session_views(self.sessions@);
        assert(kept =~= session_views(old(self).sessions@).update(
            a as int,
            SessionView { streaming: false, ..old(self).sessions@[a as int]@ },
        ));
        let n = self.sessions.len() + 1;
        let mut title = chars_of("Chat ");
        let digits = decimal_exec(n);
        push_chars(&mut title, &digits);
        let mut session = ChatSession::new(string_of(title.as_slice()));
        session.mode = mode;
        session.prompt_compaction_policy = policy;
        self.sessions.push(session);
        assert(session_views(self.sessions@).take(old(self).sessions@.len() as int) =~= kept);
        self.active = self.sessions.len() - 1;
        stopped
    }
}

/// Moving `delta` tabs and then `-delta` tabs comes back to the tab one started from.
pub proof fn lemma_cycle_round_trip(index: int, len: int, delta: int)
    requires
        0 <= index < len,
    ensures
        (((index + delta) % len) - delta) % len == index,
{
    let m = (index + delta) % len;
    vstd::arithmetic::div_mod::lemma_fundamental_div_mod(index + delta, len);
    let q = (index + delta) / len;
    assert(m - delta == (-q) * len + index) by (nonlinear_arith)
        requires
            index + delta == len * q + m,
    ;
    vstd::arithmetic::div_mod::lemma_fundamental_div_mod_converse_mod(m - delta, len, -q, index);
}

/// A tab pill: the session's title, whether it is the active one, whether it is streaming.
pub open spec fn pill(s: ChatSession, index: int, active: int) -> (Seq<char>, bool, bool) {
    (s.title@, index == active, s.streaming)
}

/// The text, activeness and streaming flag of each pill.
pub open spec fn pill_views(v: Seq<(String, bool, bool)>) -> Seq<(Seq<char>, bool, bool)> {
    v.map_values(|p: (String, bool, bool)| (p.0@, p.1, p.2))
}

/// The name a session's label gives it.
pub open spec fn session_label(title: Seq<char>) -> Seq<char> {
    "Assistant "@ + title
}

/// The compaction label of an optional policy.
pub open spec fn policy_label(policy: Option<PromptCompactionPolicy>) -> Seq<char> {
    match policy {
        None | Some(PromptCompactionPolicy::CurrentDefault) => "default"@,
        Some(PromptCompactionPolicy::Last6Ledger768) => "last6-ledger768"@,
        Some(PromptCompactionPolicy::Last8Ledger1024) => "last8-ledger1024"@,
        Some(PromptCompactionPolicy::BenchmarkRepairMinimal) => "benchmark-repair-minimal"@,
        Some(PromptCompactionPolicy::BenchmarkStatePacket) => "benchmark-state-packet"@,
        Some(PromptCompactionPolicy::Off) => "off"@,
    }
}

impl ChatSessions {
    /// The pills of the first `max_sessions` sessions.
    pub fn shell_session_pills(&self, max_sessions: usize) -> (r: Vec<(String, bool, bool)>)
        ensures
            pill_views(r@) == Seq::new(
                if max_sessions < self.sessions@.len() { max_sessions as nat } else { self.sessions@.len() },
                |i: int| pill(self.sessions@[i], i, self.active as int),
            ),
    {
        let n = if max_sessions < self.sessions.len() {
            max_sessions
        } else {
            self.sessions.len()
        };
        let mut out: Vec<(String, bool, bool)> = Vec::new();
        let mut i: usize = 0;
        while i < n
            invariant
                i <= n,
                n <= self.sessions.len(),
                pill_views(out@) == Seq::new(i as nat, |j: int| pill(self.sessions@[j], j, self.active as int)),
            decreases n - i,
        {
            let s = &self.sessions[i];
            let title = string_of(chars_of(s.title.as_str()).as_slice());
            let ghost before = out@;
            out.push((title, i == self.active, s.streaming));
            assert(pill_views(out@) =~= pill_views(before).push((s.title@, i == self.active, s.streaming)));
            assert(pill(self.sessions@[i as int], i as int, self.active as int) == (
                s.title@,
                i == self.active,
                s.streaming,
            ));
            assert(pill_views(out@) =~= Seq::new(
                (i + 1) as nat,
                |j: int| pill(self.sessions@[j], j, self.active as int),
            ));
            i += 1;
        }
        out
    }

    /// The active session's label.
    pub fn shell_session_label(&self) -> (r: String)
        requires
            self.wf(),
        ensures
            r@ == session_label(self.sessions@[self.active as int].title@),
    {
        let mut out = chars_of("Assistant ");
        push_str(&mut out, self.sessions[self.active].title.as_str());
        string_of(out.as_slice())
    }

    /// The active session's label, mode and compaction policy.
    pub fn shell_session_identity(&self) -> (r: String)
        requires
            self.wf(),
        ensures
            ({
                let s = self.sessions@[self.active as int];
                r@ == session_label(s.title@) + " · "@ + s.mode.name() + " · Compaction: "@
                    + policy_label(s.prompt_compaction_policy)
            }),
    {
        let s = &self.sessions[self.active];
        let mut out = chars_of(self.shell_session_label().as_str());
        push_str(&mut out, " · ");
        push_str(&mut out, s.mode.label());
        push_str(&mut out, " · Compaction: ");
        push_str(&mut out, compaction_policy_label(s.prompt_compaction_policy));
        string_of(out.as_slice())
    }

    /// What the composer shows for the active session: that a reply is streaming, else the
    /// draft, else a prompt naming the mode.
    pub fn shell_composer_text(&self) -> (r: String)
        requires
            self.wf(),
        ensures
            ({
                let s = self.sessions@[self.active as int];
                r@ == if s.streaming {
                    "Streaming response..."@
                } else if s.input@.len() == 0 {
                    s.mode.name() + " mode: ask the assistant..."@
                } else {
                    s.input@
                }
            }),
    {
        let s = &self.sessions[self.active];
        if s.streaming {
            "Streaming response...".to_owned()
        } else if chars_of(s.input.as_str()).len() == 0 {
            let mut out = chars_of(s.mode.label());
            push_str(&mut out, " mode: ask the assistant...");
            string_of(out.as_slice())
        } else {
            string_of(chars_of(s.input.as_str()).as_slice())
        }
    }
}

/// A tab of the assistant's tab strip: its label, whether it is the active one, and
/// whether it shows a close button.
pub struct ChatTabSpec {
    pub label: String,
    pub active: bool,
    pub show_close: bool,
}

impl ChatSessions {
    /// The tabs of the sessions, in order: each labelled with its title, the active one
    /// marked, and close buttons only when there is more than one session.
    pub fn chat_tab_specs(&self) -> (r: Vec<ChatTabSpec>)
        ensures
            r@.len() == self.sessions@.len(),
            forall|i: int|
                #![trigger r@[i]]
                0 <= i < r@.len() ==> r@[i].label@ == self.sessions@[i]@.title
                    && r@[i].active == (i == self.active) && r@[i].show_close == (
                    self.sessions@.len() > 1),
    {
        let mut out: Vec<ChatTabSpec> = Vec::new();
        let mut i: usize = 0;
        while i < self.sessions.len()
            invariant
                i <= self.sessions.len(),
                out@.len() == i,
                forall|j: int|
                    #![trigger out@[j]]
                    0 <= j < i ==> out@[j].label@ == self.sessions@[j]@.title
                        && out@[j].active == (j == self.active) && out@[j].show_close == (
                        self.sessions@.len() > 1),
            decreases self.sessions.len() - i,
        {
            out.push(
                ChatTabSpec {
                    label: self.sessions[i].title.as_str().to_owned(),
                    active: i == self.active,
                    show_close: self.sessions.len() > 1,
                },
            );
            i += 1;
        }
        out
    }
}


impl ChatSessions {
    /// The active session saved as a thread, with the model `model_id` selected for it.
    pub fn export_active_thread_snapshot(&self, model_id: &str) -> (r: PersistedChatThreadSnapshot)
        requires
            self.wf(),
        ensures
            r@ == snapshot_of(self.sessions@[self.active as int]@, model_id@),
    {
        self.sessions[self.active].export_thread_snapshot(model_id)
    }

    /// Replaces the sessions by the one a saved thread reads back as, which becomes the
    /// active session.
    pub fn import_thread_snapshot(&mut self, snapshot: PersistedChatThreadSnapshot)
        ensures
            final(self).wf(),
            final(self).active == 0,
            session_views(final(self).sessions@) == seq![session_of(snapshot@)],
    {
        let session = ChatSession::from_thread_snapshot(snapshot);
        let mut sessions: Vec<ChatSession> = Vec::new();
        sessions.push(session);
        assert(session_views(sessions@) =~= seq![session_of(snapshot@)]);
        self.sessions = sessions;
        self.active = 0;
    }
}

/// Saving the active session of one pane and importing the thread into another leaves
/// that pane with exactly one session, active at index 0, not streaming, whose title,
/// conversation, composer text, scroll state, error, running command and output, mode,
/// compaction policy and queue of waiting actions are those of the saved session, when
/// each waiting action is one whose record reads back (the cursor moves to the end of
/// the composer; its length is a character count held in a `usize`).
pub proof fn lemma_import_reads_back_active_session(
    a: ChatSessions,
    b: ChatSessions,
    model_id: Seq<char>,
)
    requires
        a.wf(),
        forall|i: int|
            0 <= i < a.sessions@[a.active as int]@.pending.len() ==> restorable(
                #[trigger] a.sessions@[a.active as int]@.pending[i],
            ),
        a.sessions@[a.active as int]@.input.len() <= usize::MAX,
        b.wf(),
        b.active == 0,
        session_views(b.sessions@) == seq![session_of(snapshot_of(a.sessions@[a.active as int]@, model_id))],
    ensures
        b.sessions@.len() == 1,
        b.sessions@[0]@ == (SessionView {
            cursor_char: a.sessions@[a.active as int]@.input.len() as usize,
            streaming: false,
            ..a.sessions@[a.active as int]@
        }),
{
    lemma_thread_snapshot_reads_back(a.sessions@[a.active as int]@, model_id);
    assert(session_views(b.sessions@).len() == 1);
    assert(session_views(b.sessions@)[0] == b.sessions@[0]@);
}

} // verus!
