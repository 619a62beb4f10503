//! The chat composer: editing the message being typed, the `@`-mention popup, and what
//! each key does in the assistant pane.
use vstd::prelude::*;
use crate::chat::{
    byte_len, char_byte_index, char_index_for_byte, clamped_scroll, clamp_mention_scroll,
    lemma_byte_len_monotone,
};
use crate::keys::{KeyCodeInput, KeyInput};
use crate::thread::{AgentMode, ChatSession, SessionView};
use crate::text::{chars_of, is_ws, is_ws_exec, push_chars, push_str, string_of};

verus! {

/// The most rows the mention popup shows at once.
pub const MENTION_POPUP_MAX_VISIBLE: usize = 8;

/// The `@`-mention popup: where the mention starts (in bytes), the selected match, the
/// first visible row, how many paths match, and the query they were found for.
#[derive(Debug, Clone)]
pub struct MentionPopupState {
    pub at_byte: usize,
    pub selected: usize,
    pub scroll_top: usize,
    pub match_count: usize,
    pub last_query: String,
}

/// The content of a [`MentionPopupState`].
pub struct PopupView {
    pub at_byte: usize,
    pub selected: usize,
    pub scroll_top: usize,
    pub match_count: usize,
    pub last_query: Seq<char>,
}

impl View for MentionPopupState {
    type V = PopupView;

    open spec fn view(&self) -> PopupView {
        PopupView {
            at_byte: self.at_byte,
            selected: self.selected,
            scroll_top: self.scroll_top,
            match_count: self.match_count,
            last_query: self.last_query@,
        }
    }
}

pub open spec fn popup_view(p: Option<MentionPopupState>) -> Option<PopupView> {
    match p {
        Some(x) => Some(x@),
        None => None,
    }
}

/// What a key in the assistant pane asks of the pane.
#[derive(Debug, Clone, Copy, PartialEq, Eq, Structural)]
pub enum ComposerOutcome {
    /// The pane does not take the key.
    NotHandled,
    /// The pane took the key; nothing else is to be done.
    Handled,
    /// Run the first waiting action.
    ExecutePending,
    /// Select the previous model.
    PreviousModel,
    /// Select the next model.
    NextModel,
    /// Insert the link of the selected mention.
    AcceptMention,
    /// Submit the composer.
    Submit,
    /// The text or cursor changed; the mention popup is to be brought up to date.
    SyncMentions,
}

/// `a - b`, or 0 when `b` exceeds `a`.
pub open spec fn sat(a: int, b: int) -> int {
    if a > b {
        a - b
    } else {
        0
    }
}

pub open spec fn min(a: int, b: int) -> int {
    if a < b {
        a
    } else {
        b
    }
}

/// The popup after moving the selection up one match.
pub open spec fn popup_up(p: PopupView) -> PopupView {
    let sel = sat(p.selected as int, 1) as usize;
    PopupView {
        selected: sel,
        scroll_top: clamped_scroll(p.scroll_top, sel, MENTION_POPUP_MAX_VISIBLE, p.match_count),
        ..p
    }
}

/// The popup after moving the selection down one match, not past the last.
pub open spec fn popup_down(p: PopupView) -> PopupView {
    let sel = min(p.selected + 1, sat(p.match_count as int, 1)) as usize;
    PopupView {
        selected: sel,
        scroll_top: clamped_scroll(p.scroll_top, sel, MENTION_POPUP_MAX_VISIBLE, p.match_count),
        ..p
    }
}

/// The popup after paging up (`down` false) or down (`down` true): the window moves by
/// its height within the list, and the selection is kept inside it.
pub open spec fn popup_page(p: PopupView, down: bool) -> PopupView {
    let n = p.match_count as int;
    let v = if min(MENTION_POPUP_MAX_VISIBLE as int, n) > 1 {
        min(MENTION_POPUP_MAX_VISIBLE as int, n)
    } else {
        1
    };
    let max_top = sat(n, v);
    let top = if down {
        min(p.scroll_top + v, max_top)
    } else {
        min(sat(p.scroll_top as int, v), max_top)
    };
    let s1 = if (p.selected as int) < top {
        top
    } else {
        p.selected as int
    };
    let last_visible = sat(min(top + v, n), 1);
    let s2 = if s1 > last_visible {
        last_visible
    } else {
        s1
    };
    PopupView { scroll_top: top as usize, selected: s2 as usize, ..p }
}

/// The composer text and cursor after `Backspace`: the character before the cursor is
/// removed and the cursor moves back over it.
pub open spec fn after_backspace(input: Seq<char>, cursor: usize) -> (Seq<char>, usize) {
    if cursor == 0 {
        (input, cursor)
    } else if cursor - 1 < input.len() {
        (input.remove(cursor - 1), (cursor - 1) as usize)
    } else {
        (input, (cursor - 1) as usize)
    }
}

/// The composer text after `Delete`: the character at the cursor is removed.
pub open spec fn after_delete(input: Seq<char>, cursor: usize) -> Seq<char> {
    if cursor < input.len() {
        input.remove(cursor as int)
    } else {
        input
    }
}

/// The composer text after typing `c` at the cursor (at the end when the cursor is
/// past it).
pub open spec fn after_insert(input: Seq<char>, cursor: usize, c: char) -> Seq<char> {
    if cursor <= input.len() {
        input.insert(cursor as int, c)
    } else {
        input.push(c)
    }
}

/// The furthest the transcript can scroll: the lines beyond one viewport.
pub open spec fn transcript_max(viewport_lines: usize, wrapped_lines: usize) -> int {
    sat(wrapped_lines as int, if viewport_lines > 1 { viewport_lines as int } else { 1 })
}

/// How far a page scrolls the transcript: a viewport less one line, at least one.
pub open spec fn transcript_page(viewport_lines: usize) -> int {
    if sat(viewport_lines as int, 1) > 1 {
        sat(viewport_lines as int, 1)
    } else {
        1
    }
}

/// The transcript scroll and follow flag after scrolling down `step` lines, the scroll
/// first kept within the transcript.
pub open spec fn scrolled_down(s: SessionView, step: int, max: int) -> SessionView {
    let clamped = min(s.transcript_scroll as int, max);
    let top = min(clamped + step, max);
    SessionView {
        transcript_scroll: top as usize,
        stick_to_bottom: s.stick_to_bottom || top >= max,
        ..s
    }
}

/// What a key does in the assistant pane, given the session, the mention popup, the
/// height of the transcript viewport and the number of transcript lines. While
/// actions wait for confirmation only `y` and `n` act (run or cancel them); while a
/// command runs every key is swallowed; otherwise keys edit the composer, move the
/// cursor, drive the mention popup or scroll the transcript.
pub open spec fn composer_step(
    s: SessionView,
    p: Option<PopupView>,
    key: KeyInput,
    viewport_lines: usize,
    wrapped_lines: usize,
) -> (SessionView, Option<PopupView>, ComposerOutcome) {
    let has_matches = p matches Some(q) && q.match_count > 0;
    let max = transcript_max(viewport_lines, wrapped_lines);
    let page = transcript_page(viewport_lines);
    if key.modifiers.control && key.code == KeyCodeInput::Tab {
        (s, p, ComposerOutcome::NotHandled)
    } else if s.pending.len() > 0 {
        if key.code == KeyCodeInput::Char('y') || key.code == KeyCodeInput::Char('Y') {
            (s, p, ComposerOutcome::ExecutePending)
        } else if key.code == KeyCodeInput::Char('n') || key.code == KeyCodeInput::Char('N') {
            (cancelled(s), p, ComposerOutcome::Handled)
        } else {
            (s, p, ComposerOutcome::Handled)
        }
    } else if s.running_command {
        (s, p, ComposerOutcome::Handled)
    } else {
        match key.code {
            KeyCodeInput::Esc => if p is Some {
                (s, None, ComposerOutcome::Handled)
            } else {
                (s, p, ComposerOutcome::NotHandled)
            },
            KeyCodeInput::Char(c) => if key.modifiers.is_alt_only() && (c == 'a' || c == 'p' || c
                == 'x') {
                (
                    SessionView {
                        mode: if c == 'a' {
                            AgentMode::Ask
                        } else if c == 'p' {
                            AgentMode::Plan
                        } else {
                            AgentMode::Act
                        },
                        ..s
                    },
                    p,
                    ComposerOutcome::Handled,
                )
            } else if key.modifiers.is_empty_spec() && c == '[' {
                (s, p, ComposerOutcome::PreviousModel)
            } else if key.modifiers.is_empty_spec() && c == ']' {
                (s, p, ComposerOutcome::NextModel)
            } else if !key.modifiers.control && !key.modifiers.alt && !key.modifiers.other {
                (
                    SessionView {
                        input: after_insert(s.input, s.cursor_char, c),
                        cursor_char: (s.cursor_char + 1) as usize,
                        ..s
                    },
                    p,
                    ComposerOutcome::SyncMentions,
                )
            } else {
                (s, p, ComposerOutcome::NotHandled)
            },
            KeyCodeInput::Tab => if has_matches {
                (s, p, ComposerOutcome::AcceptMention)
            } else {
                (s, p, ComposerOutcome::NotHandled)
            },
            KeyCodeInput::Enter => if has_matches {
                (s, p, ComposerOutcome::AcceptMention)
            } else if p is Some {
                (s, None, ComposerOutcome::Handled)
            } else {
                (s, p, ComposerOutcome::Submit)
            },
            KeyCodeInput::Left => (
                SessionView { cursor_char: sat(s.cursor_char as int, 1) as usize, ..s },
                p,
                ComposerOutcome::SyncMentions,
            ),
            KeyCodeInput::Right => (
                SessionView {
                    cursor_char: if (s.cursor_char as int) < s.input.len() {
                        (s.cursor_char + 1) as usize
                    } else {
                        s.cursor_char
                    },
                    ..s
                },
                p,
                ComposerOutcome::SyncMentions,
            ),
            KeyCodeInput::Home => (SessionView { cursor_char: 0, ..s }, p, ComposerOutcome::SyncMentions),
            KeyCodeInput::End => (
                SessionView { cursor_char: s.input.len() as usize, ..s },
                p,
                ComposerOutcome::SyncMentions,
            ),
            KeyCodeInput::Backspace => (
                SessionView {
                    input: after_backspace(s.input, s.cursor_char).0,
                    cursor_char: after_backspace(s.input, s.cursor_char).1,
                    ..s
                },
                p,
                ComposerOutcome::SyncMentions,
            ),
            KeyCodeInput::Delete => (
                SessionView { input: after_delete(s.input, s.cursor_char), ..s },
                p,
                ComposerOutcome::SyncMentions,
            ),
            KeyCodeInput::Up => if has_matches {
                (s, Some(popup_up(p->0)), ComposerOutcome::Handled)
            } else {
                (
                    SessionView {
                        stick_to_bottom: false,
                        transcript_scroll: sat(s.transcript_scroll as int, 1) as usize,
                        ..s
                    },
                    p,
                    ComposerOutcome::Handled,
                )
            },
            KeyCodeInput::Down => if has_matches {
                (s, Some(popup_down(p->0)), ComposerOutcome::Handled)
            } else {
                (scrolled_down(s, 1, max), p, ComposerOutcome::Handled)
            },
            KeyCodeInput::PageUp => if has_matches {
                (s, Some(popup_page(p->0, false)), ComposerOutcome::Handled)
            } else {
                (
                    SessionView {
                        stick_to_bottom: false,
                        transcript_scroll: sat(s.transcript_scroll as int, page) as usize,
                        ..s
                    },
                    p,
                    ComposerOutcome::Handled,
                )
            },
            KeyCodeInput::PageDown => if has_matches {
                (s, Some(popup_page(p->0, true)), ComposerOutcome::Handled)
            } else {
                (scrolled_down(s, page, max), p, ComposerOutcome::Handled)
            },
            _ => (s, p, ComposerOutcome::NotHandled),
        }
    }
}

/// The session after its waiting actions are cancelled by the user.
pub open spec fn cancelled(s: SessionView) -> SessionView {
    SessionView {
        pending: seq![],
        messages: if s.pending.len() > 1 {
            s.messages.push(crate::chat::MessageView::User("[Command cancelled by user]"@)).push(
                crate::chat::MessageView::User(
                    crate::thread::batch_cancelled_message((s.pending.len() - 1) as nat),
                ),
            )
        } else {
            s.messages.push(crate::chat::MessageView::User("[Command cancelled by user]"@))
        },
        ..s
    }
}

fn popup_page_exec(p: &mut MentionPopupState, down: bool)
    ensures
        final(p)@ == popup_page(old(p)@, down),
{
    let n = p.match_count;
    let m = if MENTION_POPUP_MAX_VISIBLE < n {
        MENTION_POPUP_MAX_VISIBLE
    } else {
        n
    };
    let v = if m > 1 {
        m
    } else {
        1
    };
    let max_top = n.saturating_sub(v);
    let top = if down {
        if p.scroll_top > max_top || max_top - p.scroll_top < v {
            max_top
        } else {
            p.scroll_top + v
        }
    } else {
        let t = p.scroll_top.saturating_sub(v);
        if t < max_top {
            t
        } else {
            max_top
        }
    };
    p.scroll_top = top;
    if p.selected < top {
        p.selected = top;
    }
    let end = if top > n || n - top < v {
        n
    } else {
        top + v
    };
    let last_visible = end.saturating_sub(1);
    if p.selected > last_visible {
        p.selected = last_visible;
    }
}

impl ChatSession {
    /// Handles a key in the assistant pane (see [`composer_step`]).
    pub fn handle_composer_key(
        &mut self,
        key: &KeyInput,
        popup: &mut Option<MentionPopupState>,
        viewport_lines: usize,
        wrapped_lines: usize,
    ) -> (r: ComposerOutcome)
        requires
            old(self).cursor_char < usize::MAX,
        ensures
            (final(self)@, popup_view(*final(popup)), r) == composer_step(
                old(self)@,
                popup_view(*old(popup)),
                *key,
                viewport_lines,
                wrapped_lines,
            ),
    {
        let has_matches = match popup {
            Some(q) => q.match_count > 0,
            None => false,
        };
        let v = if viewport_lines > 1 {
            viewport_lines
        } else {
            1
        };
        let max = wrapped_lines.saturating_sub(v);
        let page = if viewport_lines.saturating_sub(1) > 1 {
            viewport_lines.saturating_sub(1)
        } else {
            1
        };
        if key.modifiers.control && key.code == KeyCodeInput::Tab {
            return ComposerOutcome::NotHandled;
        }
        if self.pending_commands.len() > 0 {
            if key.code == KeyCodeInput::Char('y') || key.code == KeyCodeInput::Char('Y') {
                return ComposerOutcome::ExecutePending;
            } else if key.code == KeyCodeInput::Char('n') || key.code == KeyCodeInput::Char('N') {
                let _ = self.cancel_pending_commands();
                return ComposerOutcome::Handled;
            } else {
                return ComposerOutcome::Handled;
            }
        }
        if self.running_command {
            return ComposerOutcome::Handled;
        }
        match key.code {
            KeyCodeInput::Esc => {
                if popup.is_some() {
                    *popup = None;
                    ComposerOutcome::Handled
                } else {
                    ComposerOutcome::NotHandled
                }
            },
            KeyCodeInput::Char(c) => {
                let m = key.modifiers;
                let alt_only = m.alt && !m.shift && !m.control && !m.other;
                if alt_only && (c == 'a' || c == 'p' || c == 'x') {
                    self.mode = if c == 'a' {
                        AgentMode::Ask
                    } else if c == 'p' {
                        AgentMode::Plan
                    } else {
                        AgentMode::Act
                    };
                    ComposerOutcome::Handled
                } else if m.is_empty() && c == '[' {
                    ComposerOutcome::PreviousModel
                } else if m.is_empty() && c == ']' {
                    ComposerOutcome::NextModel
                } else if !m.control && !m.alt && !m.other {
                    self.insert_char(c);
                    ComposerOutcome::SyncMentions
                } else {
                    ComposerOutcome::NotHandled
                }
            },
            KeyCodeInput::Tab => {
                if has_matches {
                    ComposerOutcome::AcceptMention
                } else {
                    ComposerOutcome::NotHandled
                }
            },
            KeyCodeInput::Enter => {
                if has_matches {
                    ComposerOutcome::AcceptMention
                } else if popup.is_some() {
                    *popup = None;
                    ComposerOutcome::Handled
                } else {
                    ComposerOutcome::Submit
                }
            },
            KeyCodeInput::Left => {
                if self.cursor_char > 0 {
                    self.cursor_char = self.cursor_char - 1;
                }
                ComposerOutcome::SyncMentions
            },
            KeyCodeInput::Right => {
                let count = chars_of(self.input.as_str()).len();
                if self.cursor_char < count {
                    self.cursor_char = self.cursor_char + 1;
                }
                ComposerOutcome::SyncMentions
            },
            KeyCodeInput::Home => {
                self.cursor_char = 0;
                ComposerOutcome::SyncMentions
            },
            KeyCodeInput::End => {
                self.cursor_char = chars_of(self.input.as_str()).len();
                ComposerOutcome::SyncMentions
            },
            KeyCodeInput::Backspace => {
                self.delete_backward();
                ComposerOutcome::SyncMentions
            },
            KeyCodeInput::Delete => {
                self.delete_forward();
                ComposerOutcome::SyncMentions
            },
            KeyCodeInput::Up => {
                if has_matches {
                    match popup {
                        Some(q) => {
                            q.selected = q.selected.saturating_sub(1);
                            clamp_mention_scroll(
                                &mut q.scroll_top,
                                q.selected,
                                MENTION_POPUP_MAX_VISIBLE,
                                q.match_count,
                            );
                        },
                        None => {},
                    }
                    ComposerOutcome::Handled
                } else {
                    self.stick_to_bottom = false;
                    self.transcript_scroll = self.transcript_scroll.saturating_sub(1);
                    ComposerOutcome::Handled
                }
            },
            KeyCodeInput::Down => {
                if has_matches {
                    match popup {
                        Some(q) => {
                            let max_sel = q.match_count.saturating_sub(1);
                            q.selected = if q.selected >= max_sel {
                                max_sel
                            } else {
                                q.selected + 1
                            };
                            clamp_mention_scroll(
                                &mut q.scroll_top,
                                q.selected,
                                MENTION_POPUP_MAX_VISIBLE,
                                q.match_count,
                            );
                        },
                        None => {},
                    }
                    ComposerOutcome::Handled
                } else {
                    self.scroll_transcript_down(1, max);
                    ComposerOutcome::Handled
                }
            },
            KeyCodeInput::PageUp => {
                if has_matches {
                    match popup {
                        Some(q) => popup_page_exec(q, false),
                        None => {},
                    }
                    ComposerOutcome::Handled
                } else {
                    self.stick_to_bottom = false;
                    self.transcript_scroll = self.transcript_scroll.saturating_sub(page);
                    ComposerOutcome::Handled
                }
            },
            KeyCodeInput::PageDown => {
                if has_matches {
                    match popup {
                        Some(q) => popup_page_exec(q, true),
                        None => {},
                    }
                    ComposerOutcome::Handled
                } else {
                    self.scroll_transcript_down(page, max);
                    ComposerOutcome::Handled
                }
            },
            _ => ComposerOutcome::NotHandled,
        }
    }

    /// Scrolls the transcript down `step` lines within `max`, following its end once
    /// it gets there.
    fn scroll_transcript_down(&mut self, step: usize, max: usize)
        ensures
            final(self)@ == scrolled_down(old(self)@, step as int, max as int),
    {
        let clamped = if self.transcript_scroll > max {
            max
        } else {
            self.transcript_scroll
        };
        let top = if step > max || clamped > max - step {
            max
        } else {
            clamped + step
        };
        self.transcript_scroll = top;
        if top >= max {
            self.stick_to_bottom = true;
        }
    }

    /// Types `c` at the cursor.
    pub fn insert_char(&mut self, c: char)
        requires
            old(self).cursor_char < usize::MAX,
        ensures
            final(self)@ == (SessionView {
                input: after_insert(old(self)@.input, old(self)@.cursor_char, c),
                cursor_char: (old(self)@.cursor_char + 1) as usize,
                ..old(self)@
            }),
    {
        let mut v = chars_of(self.input.as_str());
        let at = if self.cursor_char <= v.len() {
            self.cursor_char
        } else {
            v.len()
        };
        let ghost before = v@;
        v.insert(at, c);
        assert(v@ =~= after_insert(before, old(self).cursor_char, c));
        self.input = string_of(v.as_slice());
        self.cursor_char = self.cursor_char + 1;
    }

    /// `Backspace`: removes the character before the cursor.
    pub fn delete_backward(&mut self)
        ensures
            final(self)@ == (SessionView {
                input: after_backspace(old(self)@.input, old(self)@.cursor_char).0,
                cursor_char: after_backspace(old(self)@.input, old(self)@.cursor_char).1,
                ..old(self)@
            }),
    {
        if self.cursor_char == 0 {
            return;
        }
        let mut v = chars_of(self.input.as_str());
        let at = self.cursor_char - 1;
        if at < v.len() {
            let _ = v.remove(at);
            self.input = string_of(v.as_slice());
        }
        self.cursor_char = at;
    }

    /// `Delete`: removes the character at the cursor.
    pub fn delete_forward(&mut self)
        ensures
            final(self)@ == (SessionView {
                input: after_delete(old(self)@.input, old(self)@.cursor_char),
                ..old(self)@
            }),
    {
        let mut v = chars_of(self.input.as_str());
        if self.cursor_char < v.len() {
            let _ = v.remove(self.cursor_char);
            self.input = string_of(v.as_slice());
        }
    }
}

/// The mention popup after the text or cursor changed: none without a mention at the
/// cursor; for the same mention and query as before the selection is kept (within the
/// new matches) with its window, else it starts at the top; the window is kept around
/// the selection.
pub open spec fn synced_popup(prev: Option<PopupView>, token: Option<(usize, Seq<char>)>, matches: usize) -> Option<
    PopupView,
> {
    match token {
        None => None,
        Some((at_byte, query)) => {
            let (sel, top) = match prev {
                Some(p) => if p.at_byte == at_byte && p.last_query == query {
                    (min(p.selected as int, sat(matches as int, 1)) as usize, p.scroll_top)
                } else {
                    (0usize, 0usize)
                },
                None => (0usize, 0usize),
            };
            Some(
                PopupView {
                    at_byte,
                    selected: sel,
                    scroll_top: clamped_scroll(top, sel, MENTION_POPUP_MAX_VISIBLE, matches),
                    match_count: matches,
                    last_query: query,
                },
            )
        },
    }
}

/// Brings the mention popup up to date with the mention `token` at the cursor (see
/// [`crate::chat::active_mention_token`]) and the number of paths matching it.
pub fn sync_mention_popup(
    prev: Option<MentionPopupState>,
    token: Option<(usize, String)>,
    match_count: usize,
) -> (r: Option<MentionPopupState>)
    ensures
        popup_view(r) == synced_popup(
            popup_view(prev),
            match token {
                Some((a, q)) => Some((a, q@)),
                None => None,
            },
            match_count,
        ),
{
    match token {
        None => None,
        Some((at_byte, query)) => {
            let (selected, mut scroll_top) = match prev {
                Some(p) => {
                    let same = p.at_byte == at_byte && crate::patch::chars_eq(
                        &chars_of(p.last_query.as_str()),
                        &chars_of(query.as_str()),
                    );
                    if same {
                        let last = match_count.saturating_sub(1);
                        (if p.selected < last {
                            p.selected
                        } else {
                            last
                        }, p.scroll_top)
                    } else {
                        (0, 0)
                    }
                },
                None => (0, 0),
            };
            clamp_mention_scroll(&mut scroll_top, selected, MENTION_POPUP_MAX_VISIBLE, match_count);
            Some(
                MentionPopupState {
                    at_byte,
                    selected,
                    scroll_top,
                    match_count,
                    last_query: query,
                },
            )
        },
    }
}

impl ChatSession {
    /// Replaces the mention typed from byte `at_byte` up to the cursor by `link`, and
    /// puts the cursor after it; answers whether it did, which it does not when the
    /// mention starts after the cursor.
    pub fn insert_mention_link(&mut self, at_byte: usize, link: &str) -> (inserted: bool)
        requires
            byte_len(old(self)@.input) <= usize::MAX,
            old(self)@.input.len() + link@.len() <= usize::MAX,
            at_byte <= byte_len(old(self)@.input) ==> exists|k: int|
                0 <= k <= old(self)@.input.len() && byte_len(old(self)@.input.take(k)) == at_byte,
        ensures
            ({
                let input = old(self)@.input;
                let end = if (old(self)@.cursor_char as int) < input.len() {
                    old(self)@.cursor_char as int
                } else {
                    input.len() as int
                };
                &&& inserted == (at_byte <= byte_len(input.take(end)))
                &&& !inserted ==> final(self)@ == old(self)@
                &&& inserted ==> exists|k: int|
                    0 <= k <= end && byte_len(input.take(k)) == at_byte && final(self)@ == (SessionView {
                        input: input.take(k) + link@ + input.skip(end),
                        cursor_char: (k + link@.len()) as usize,
                        ..old(self)@
                    })
            }),
    {
        let v = chars_of(self.input.as_str());
        let ghost input = v@;
        let end = if self.cursor_char < v.len() {
            self.cursor_char
        } else {
            v.len()
        };
        let end_byte = char_byte_index(self.input.as_str(), self.cursor_char);
        assert(end_byte == byte_len(input.take(end as int)));
        if end_byte < at_byte {
            return false;
        }
        proof {
            lemma_byte_len_monotone(input, end as int, input.len() as int);
            assert(input.take(input.len() as int) =~= input);
        }
        let k = char_index_for_byte(self.input.as_str(), at_byte);
        proof {
            if (k as int) > (end as int) {
                lemma_byte_len_monotone(input, end as int, k as int);
                lemma_byte_len_monotone(input, end as int, end as int + 1);
                assert(false);
            }
        }
        let mut out: Vec<char> = Vec::new();
        let mut i: usize = 0;
        while i < k
            invariant
                i <= k <= end <= v.len(),
                v@ == input,
                out@ == input.take(i as int),
            decreases k - i,
        {
            out.push(v[i]);
            i += 1;
            assert(out@ =~= input.take(i as int));
        }
        push_str(&mut out, link);
        let mut j: usize = end;
        let ghost head = out@;
        while j < v.len()
            invariant
                end <= j <= v.len(),
                v@ == input,
                out@ == head + input.subrange(end as int, j as int),
            decreases v.len() - j,
        {
            out.push(v[j]);
            j += 1;
            assert(out@ =~= head + input.subrange(end as int, j as int));
        }
        assert(input.subrange(end as int, input.len() as int) =~= input.skip(end as int));
        let link_len = chars_of(link).len();
        self.input = string_of(out.as_slice());
        self.cursor_char = k + link_len;
        true
    }
}

/// Where a context link goes in the composer's text: at the cursor, or at the end when
/// the cursor lies past it.
pub open spec fn link_position(input: Seq<char>, cursor: usize) -> int {
    if cursor <= input.len() {
        cursor as int
    } else {
        input.len() as int
    }
}

/// The text a context link is inserted as: after a space when the character before the
/// cursor is not whitespace.
pub open spec fn context_insertion(input: Seq<char>, cursor: usize, link: Seq<char>) -> Seq<char> {
    let c = link_position(input, cursor);
    if input.len() > 0 && c > 0 && !is_ws(input[c - 1]) {
        seq![' '] + link
    } else {
        link
    }
}

impl ChatSession {
    /// Inserts the mention link `link` of a file at the cursor, after a space when the
    /// text before the cursor does not end in whitespace, and puts the cursor after it.
    pub fn insert_context_link(&mut self, link: &str)
        requires
            old(self)@.input.len() + link@.len() + 1 <= usize::MAX,
            old(self).cursor_char + link@.len() + 1 <= usize::MAX,
        ensures
            ({
                let input = old(self)@.input;
                let c = link_position(input, old(self)@.cursor_char);
                let ins = context_insertion(input, old(self)@.cursor_char, link@);
                final(self)@ == (SessionView {
                    input: input.take(c) + ins + input.skip(c),
                    cursor_char: (old(self)@.cursor_char + ins.len()) as usize,
                    ..old(self)@
                })
            }),
    {
        let v = chars_of(self.input.as_str());
        let c = if self.cursor_char <= v.len() {
            self.cursor_char
        } else {
            v.len()
        };
        let mut ins: Vec<char> = Vec::new();
        if v.len() > 0 && c > 0 && !is_ws_exec(v[c - 1]) {
            ins.push(' ');
        }
        let lc = chars_of(link);
        push_chars(&mut ins, &lc);
        let ghost input = v@;
        assert(ins@ =~= context_insertion(input, old(self)@.cursor_char, link@));
        let mut out: Vec<char> = Vec::new();
        let mut i: usize = 0;
        while i < c
            invariant
                i <= c <= v.len(),
                out@ == v@.take(i as int),
            decreases c - i,
        {
            out.push(v[i]);
            assert(out@ =~= v@.take(i as int + 1));
            i += 1;
        }
        push_chars(&mut out, &ins);
        let mut j: usize = c;
        while j < v.len()
            invariant
                c <= j <= v.len(),
                out@ == v@.take(c as int) + ins@ + v@.subrange(c as int, j as int),
            decreases v.len() - j,
        {
            out.push(v[j]);
            assert(out@ =~= v@.take(c as int) + ins@ + v@.subrange(c as int, j as int + 1));
            j += 1;
        }
        assert(v@.subrange(c as int, v.len() as int) =~= v@.skip(c as int));
        self.input = string_of(out.as_slice());
        self.cursor_char = self.cursor_char + ins.len();
    }
}

/// Typing a character at the cursor and then `Backspace` leaves the composer as it was:
/// the same text, the cursor where it stood. (`[` and `]` pick models instead of typing.)
pub proof fn lemma_type_then_backspace_restores_composer(
    s: SessionView,
    typed: KeyInput,
    back: KeyInput,
    c: char,
    viewport_lines: usize,
    wrapped_lines: usize,
)
    requires
        s.pending.len() == 0,
        !s.running_command,
        s.cursor_char <= s.input.len(),
        s.cursor_char < usize::MAX,
        typed.code == KeyCodeInput::Char(c),
        typed.modifiers.is_empty_spec(),
        c != '[' && c != ']',
        back.code == KeyCodeInput::Backspace,
    ensures
        ({
            let (s1, p1, o1) = composer_step(s, None, typed, viewport_lines, wrapped_lines);
            let (s2, p2, o2) = composer_step(s1, p1, back, viewport_lines, wrapped_lines);
            &&& o1 == ComposerOutcome::SyncMentions
            &&& s1.input.len() == s.input.len() + 1
            &&& s1.input[s.cursor_char as int] == c
            &&& s2.input == s.input
            &&& s2.cursor_char == s.cursor_char
        }),
{
    let t = s.input.insert(s.cursor_char as int, c);
    assert(t.remove(s.cursor_char as int) =~= s.input);
}

/// `Alt` alone with `a`, `p` or `x` switches the assistant to ask, plan or act mode,
/// when no action waits and no command runs.
pub proof fn lemma_alt_letters_pick_modes(s: SessionView, p: Option<PopupView>, key: KeyInput, c: char, v: usize, w: usize)
    requires
        s.pending.len() == 0,
        !s.running_command,
        key.code == KeyCodeInput::Char(c),
        key.modifiers.is_alt_only(),
    ensures
        c == 'a' ==> composer_step(s, p, key, v, w) == (SessionView { mode: AgentMode::Ask, ..s }, p, ComposerOutcome::Handled),
        c == 'p' ==> composer_step(s, p, key, v, w) == (SessionView { mode: AgentMode::Plan, ..s }, p, ComposerOutcome::Handled),
        c == 'x' ==> composer_step(s, p, key, v, w) == (SessionView { mode: AgentMode::Act, ..s }, p, ComposerOutcome::Handled),
{
}

/// While actions wait for confirmation, `y` (or `Y`) runs the first and `n` (or `N`)
/// cancels them; any other key is swallowed and changes nothing.
pub proof fn lemma_pending_actions_wait_for_yes_or_no(s: SessionView, p: Option<PopupView>, key: KeyInput, v: usize, w: usize)
    requires
        s.pending.len() > 0,
        !(key.modifiers.control && key.code == KeyCodeInput::Tab),
    ensures
        key.code == KeyCodeInput::Char('y') || key.code == KeyCodeInput::Char('Y') ==> composer_step(s, p, key, v, w) == (s, p, ComposerOutcome::ExecutePending),
        key.code == KeyCodeInput::Char('n') || key.code == KeyCodeInput::Char('N') ==> composer_step(s, p, key, v, w) == (cancelled(s), p, ComposerOutcome::Handled),
        !(key.code == KeyCodeInput::Char('y') || key.code == KeyCodeInput::Char('Y') || key.code == KeyCodeInput::Char('n') || key.code == KeyCodeInput::Char('N')) ==> composer_step(s, p, key, v, w) == (s, p, ComposerOutcome::Handled),
{
}

/// With no mention popup, `Enter` submits the composer and a plain `[` or `]` selects the
/// previous or next model, when no action waits and no command runs.
pub proof fn lemma_enter_submits_and_brackets_pick_models(s: SessionView, key: KeyInput, v: usize, w: usize)
    requires
        s.pending.len() == 0,
        !s.running_command,
        key.modifiers.is_empty_spec(),
    ensures
        key.code == KeyCodeInput::Enter ==> composer_step(s, None, key, v, w) == (s, None::<PopupView>, ComposerOutcome::Submit),
        key.code == KeyCodeInput::Char('[') ==> composer_step(s, None, key, v, w) == (s, None::<PopupView>, ComposerOutcome::PreviousModel),
        key.code == KeyCodeInput::Char(']') ==> composer_step(s, None, key, v, w) == (s, None::<PopupView>, ComposerOutcome::NextModel),
{
}

} // verus!
