//! Chat composer and transcript helpers: byte and character positions, mention
//! tokens, the message size cap, commands typed into the composer.
use vstd::prelude::*;
use vstd::arithmetic::div_mod::{lemma_fundamental_div_mod, lemma_fundamental_div_mod_converse_mod};
use crate::text::{
    ascii_lower_seq, ascii_lower_vec, chars_of, is_ws, is_ws_exec, matches_at, matches_at_exec,
    parse_unsigned, parse_unsigned_exec, push_chars, push_str, rfind_char, rfind_char_exec,
    string_of, trim, trim_bounds,
};

verus! {

/// Largest size, in bytes, of one assistant message.
pub const MAX_MESSAGE_CHARS: usize = 524288;

/// Largest number of messages a session keeps.
pub const MAX_MESSAGES: usize = 500;

/// The length of `c` in UTF-8.
pub open spec fn utf8_len(c: char) -> nat {
    let u = c as u32;
    if u < 0x80 {
        1
    } else if u < 0x800 {
        2
    } else if u < 0x10000 {
        3
    } else {
        4
    }
}

/// The length of `s` in UTF-8.
pub open spec fn byte_len(s: Seq<char>) -> nat
    decreases s.len(),
{
    if s.len() == 0 {
        0
    } else {
        byte_len(s.drop_last()) + utf8_len(s.last())
    }
}

pub fn utf8_len_exec(c: char) -> (r: usize)
    ensures
        r == utf8_len(c),
{
    let u = c as u32;
    if u < 0x80 {
        1
    } else if u < 0x800 {
        2
    } else if u < 0x10000 {
        3
    } else {
        4
    }
}

/// Each character takes at least one byte: the bytes of a longer prefix exceed those of a
/// shorter one by at least the number of characters between them.
pub proof fn lemma_byte_len_monotone(s: Seq<char>, i: int, j: int)
    requires
        0 <= i <= j <= s.len(),
    ensures
        byte_len(s.take(i)) + (j - i) <= byte_len(s.take(j)),
    decreases j - i,
{
    if i < j {
        lemma_byte_len_monotone(s, i, j - 1);
        assert(s.take(j).drop_last() =~= s.take(j - 1));
    }
}

/// A message of a chat transcript.
#[derive(Debug, Clone, PartialEq, Eq)]
pub enum ChatMessage {
    User(String),
    Assistant(String),
}

/// A message as saved in a thread snapshot.
#[derive(Debug, Clone, PartialEq, Eq)]
pub enum PersistedChatMessage {
    User(String),
    Assistant(String),
}

/// A chat message by its author and text.
pub enum MessageView {
    User(Seq<char>),
    Assistant(Seq<char>),
}

impl View for ChatMessage {
    type V = MessageView;

    open spec fn view(&self) -> MessageView {
        match self {
            ChatMessage::User(t) => MessageView::User(t@),
            ChatMessage::Assistant(t) => MessageView::Assistant(t@),
        }
    }
}

impl View for PersistedChatMessage {
    type V = MessageView;

    open spec fn view(&self) -> MessageView {
        match self {
            PersistedChatMessage::User(t) => MessageView::User(t@),
            PersistedChatMessage::Assistant(t) => MessageView::Assistant(t@),
        }
    }
}

impl PersistedChatMessage {
    /// The saved form of a message.
    pub fn from_message(value: &ChatMessage) -> (r: Self)
        ensures
            r@ == value@,
    {
        match value {
            ChatMessage::User(text) => PersistedChatMessage::User(text.clone()),
            ChatMessage::Assistant(text) => PersistedChatMessage::Assistant(text.clone()),
        }
    }

    /// A copy of this message.
    pub fn duplicate(&self) -> (r: Self)
        ensures
            r@ == self@,
    {
        match self {
            PersistedChatMessage::User(text) => PersistedChatMessage::User(text.clone()),
            PersistedChatMessage::Assistant(text) => PersistedChatMessage::Assistant(text.clone()),
        }
    }
}

impl ChatMessage {
    /// The message a saved one stands for.
    pub fn from_persisted(value: PersistedChatMessage) -> (r: Self)
        ensures
            r@ == value@,
    {
        match value {
            PersistedChatMessage::User(text) => ChatMessage::User(text),
            PersistedChatMessage::Assistant(text) => ChatMessage::Assistant(text),
        }
    }

    /// Appends a streamed piece to an assistant message, keeping the message within
    /// [`MAX_MESSAGE_CHARS`] bytes: a piece that does not fit is cut at the last whole
    /// character that fits and followed by a truncation notice. A user message is left
    /// as it is.
    pub fn push_assistant(&mut self, delta: &str)
        ensures
            match (*old(self), *final(self)) {
                (ChatMessage::User(a), ChatMessage::User(b)) => a@ == b@,
                (ChatMessage::Assistant(a), ChatMessage::Assistant(b)) => b@ == appended_text(
                    a@,
                    delta@,
                ),
                _ => false,
            },
    {
        match self {
            ChatMessage::User(_) => {},
            ChatMessage::Assistant(text) => {
                let next = appended_text_exec(text, delta);
                *text = next;
            },
        }
    }
}

/// The bytes still free in a message of `current` bytes.
pub open spec fn room_left(current: Seq<char>) -> int {
    if byte_len(current) >= MAX_MESSAGE_CHARS {
        0
    } else {
        MAX_MESSAGE_CHARS - byte_len(current)
    }
}

/// The number of leading characters of `d` that fit in `room` bytes.
pub open spec fn fitting_prefix(d: Seq<char>, room: int) -> int {
    choose|k: int|
        0 <= k <= d.len() && #[trigger] byte_len(d.take(k)) <= room && (k == d.len() || byte_len(d.take(k + 1))
            > room)
}

/// `current` with `delta` appended, when it fits; else with the part of `delta` that
/// fits and the truncation notice.
pub open spec fn appended_text(current: Seq<char>, delta: Seq<char>) -> Seq<char> {
    let room = room_left(current);
    if byte_len(delta) <= room {
        current + delta
    } else if room > 0 {
        current + delta.take(fitting_prefix(delta, room)) + "\n… [truncated]"@
    } else {
        current + "\n… [truncated]"@
    }
}

/// The byte length of `s`, or any value above `cap` once it exceeds `cap`.
fn byte_len_capped(s: &Vec<char>, cap: usize) -> (r: (usize, bool))
    ensures
        r.1 <==> byte_len(s@) <= cap,
        r.1 ==> r.0 == byte_len(s@),
{
    let mut total: usize = 0;
    let mut i: usize = 0;
    while i < s.len()
        invariant
            i <= s.len(),
            total == byte_len(s@.take(i as int)),
            total <= cap,
        decreases s.len() - i,
    {
        let w = utf8_len_exec(s[i]);
        proof {
            assert(s@.take(i + 1).drop_last() =~= s@.take(i as int));
        }
        if w > cap - total {
            proof {
                lemma_byte_len_monotone(s@, i + 1, s.len() as int);
                assert(s@.take(s.len() as int) =~= s@);
            }
            return (total, false);
        }
        total = total + w;
        i += 1;
    }
    assert(s@.take(s.len() as int) =~= s@);
    (total, true)
}

/// The number of leading characters of `d` whose UTF-8 form fits in `room` bytes.
fn fitting_prefix_exec(d: &Vec<char>, room: usize) -> (r: usize)
    ensures
        r <= d.len(),
        byte_len(d@.take(r as int)) <= room,
        r == d.len() || byte_len(d@.take(r + 1)) > room,
{
    let mut total: usize = 0;
    let mut i: usize = 0;
    while i < d.len()
        invariant
            i <= d.len(),
            total == byte_len(d@.take(i as int)),
            total <= room,
        decreases d.len() - i,
    {
        let w = utf8_len_exec(d[i]);
        proof {
            assert(d@.take(i + 1).drop_last() =~= d@.take(i as int));
        }
        if w > room - total {
            return i;
        }
        total = total + w;
        i += 1;
    }
    i
}

proof fn lemma_fitting_prefix_unique(d: Seq<char>, room: int, k: int)
    requires
        0 <= k <= d.len(),
        byte_len(d.take(k)) <= room,
        k == d.len() || byte_len(d.take(k + 1)) > room,
    ensures
        fitting_prefix(d, room) == k,
{
    let j = fitting_prefix(d, room);
    assert(0 <= j <= d.len() && byte_len(d.take(j)) <= room && (j == d.len() || byte_len(
        d.take(j + 1),
    ) > room));
    if j < k {
        lemma_byte_len_monotone(d, j + 1, k);
    } else if k < j {
        lemma_byte_len_monotone(d, k + 1, j);
    }
}

fn appended_text_exec(current: &String, delta: &str) -> (r: String)
    ensures
        r@ == appended_text(current@, delta@),
{
    let cur = chars_of(current.as_str());
    let d = chars_of(delta);
    let (used, fits) = byte_len_capped(&cur, MAX_MESSAGE_CHARS);
    let room: usize = if fits {
        MAX_MESSAGE_CHARS - used
    } else {
        0
    };
    assert(room == room_left(current@));
    let mut out = cur.clone();
    let (dlen, dfits) = byte_len_capped(&d, room);
    if dfits {
        push_chars(&mut out, &d);
    } else {
        if room > 0 {
            let k = fitting_prefix_exec(&d, room);
            proof {
                lemma_fitting_prefix_unique(d@, room as int, k as int);
            }
            let mut i: usize = 0;
            let ghost start = out@;
            while i < k
                invariant
                    k <= d.len(),
                    i <= k,
                    out@ == start + d@.take(i as int),
                decreases k - i,
            {
                out.push(d[i]);
                i += 1;
                assert(out@ =~= start + d@.take(i as int));
            }
        }
        push_str(&mut out, "\n… [truncated]");
    }
    string_of(out.as_slice())
}

/// The number of characters of `input` that lie before byte offset `byte` (capped at
/// the end of the text). The offset must fall on a character boundary, as slicing at
/// it requires.
pub fn char_index_for_byte(input: &str, byte: usize) -> (r: usize)
    requires
        byte_len(input@) <= usize::MAX,
        exists|k: int|
            0 <= k <= input@.len() && byte_len(input@.take(k)) == (if byte <= byte_len(input@) {
                byte as int
            } else {
                byte_len(input@) as int
            }),
    ensures
        r <= input@.len(),
        byte_len(input@.take(r as int)) == (if byte <= byte_len(input@) {
            byte as int
        } else {
            byte_len(input@) as int
        }),
{
    let s = chars_of(input);
    let mut total: usize = 0;
    let mut i: usize = 0;
    while i < s.len() && total < byte
        invariant
            i <= s.len(),
            s@ == input@,
            total == byte_len(s@.take(i as int)),
            byte_len(s@) <= usize::MAX,
            forall|j: int| 0 <= j < i ==> byte_len(s@.take(j)) < byte,
        decreases s.len() - i,
    {
        proof {
            assert(s@.take(i + 1).drop_last() =~= s@.take(i as int));
            lemma_byte_len_monotone(s@, i + 1, s.len() as int);
            assert(s@.take(s.len() as int) =~= s@);
        }
        let w = utf8_len_exec(s[i]);
        total = total + w;
        i += 1;
    }
    proof {
        let target = if byte <= byte_len(input@) {
            byte as int
        } else {
            byte_len(input@) as int
        };
        let k = choose|k: int| 0 <= k <= input@.len() && byte_len(input@.take(k)) == target;
        assert(s@.take(s.len() as int) =~= s@);
        if i < s.len() {
            if k < i {
                assert(byte_len(s@.take(k)) < byte);
                lemma_byte_len_monotone(s@, k, i as int);
                lemma_byte_len_monotone(s@, i as int, s.len() as int);
            } else if k > i {
                lemma_byte_len_monotone(s@, i as int, k);
            }
        } else {
            if k < i {
                lemma_byte_len_monotone(s@, k, i as int);
                if i > 0 {
                    assert(byte_len(s@.take(i - 1)) < byte);
                    lemma_byte_len_monotone(s@, k, i - 1);
                }
            }
        }
    }
    i
}

/// The byte offset at which character `char_index` of `input` starts, or the byte
/// length of `input` when it has no such character.
pub fn char_byte_index(input: &str, char_index: usize) -> (r: usize)
    requires
        byte_len(input@) <= usize::MAX,
    ensures
        r == byte_len(input@.take(if char_index <= input@.len() {
            char_index as int
        } else {
            input@.len() as int
        })),
{
    let s = chars_of(input);
    let mut total: usize = 0;
    let mut i: usize = 0;
    while i < s.len() && i < char_index
        invariant
            i <= s.len(),
            s@ == input@,
            i <= char_index || char_index > s.len(),
            total == byte_len(s@.take(i as int)),
            byte_len(s@) <= usize::MAX,
        decreases s.len() - i,
    {
        proof {
            assert(s@.take(i + 1).drop_last() =~= s@.take(i as int));
            lemma_byte_len_monotone(s@, i + 1, s.len() as int);
            assert(s@.take(s.len() as int) =~= s@);
        }
        let w = utf8_len_exec(s[i]);
        total = total + w;
        i += 1;
    }
    total
}

/// Keeps the selected row of a list of `total` rows visible in a window of
/// `visible_rows` rows that starts at `*scroll_top`.
pub fn clamp_mention_scroll(scroll_top: &mut usize, selected: usize, visible_rows: usize, total: usize)
    ensures
        *final(scroll_top) == clamped_scroll(*old(scroll_top), selected, visible_rows, total),
{
    if total == 0 {
        *scroll_top = 0;
        return;
    }
    let v = if visible_rows < total {
        visible_rows
    } else {
        total
    };
    let v = if v < 1 {
        1
    } else {
        v
    };
    if selected < *scroll_top {
        *scroll_top = selected;
    }
    if selected >= *scroll_top && selected - *scroll_top >= v {
        *scroll_top = (selected - v) + 1;
    }
    let max_top = total - v;
    if *scroll_top > max_top {
        *scroll_top = max_top;
    }
}

/// The window start [`clamp_mention_scroll`] settles on.
pub open spec fn clamped_scroll(top: usize, selected: usize, visible_rows: usize, total: usize) -> usize {
    if total == 0 {
        0
    } else {
        let v0 = if visible_rows < total {
            visible_rows
        } else {
            total
        };
        let v = if v0 < 1 {
            1
        } else {
            v0
        };
        let t1 = if selected < top {
            selected
        } else {
            top
        };
        let t2 = if selected >= t1 + v {
            (selected + 1 - v) as usize
        } else {
            t1
        };
        let max_top = (total - v) as usize;
        if t2 > max_top {
            max_top
        } else {
            t2
        }
    }
}

/// `char::is_alphanumeric` (Unicode `Alphabetic` or `Numeric`).
pub uninterp spec fn unicode_alphanumeric(c: char) -> bool;

/// `char::is_alphanumeric`. The contract ties the answer to the character, and states
/// what std documents for ASCII: letters and digits are alphanumeric, other ASCII
/// characters are not.
#[verifier::external_body]
fn is_alphanumeric(c: char) -> (r: bool)
    ensures
        r == unicode_alphanumeric(c),
        (c as u32) < 128 ==> (r <==> (('a' <= c && c <= 'z') || ('A' <= c && c <= 'Z') || ('0'
            <= c && c <= '9'))),
{
    c.is_alphanumeric()
}

/// The `@mention` being typed at character position `cursor`: the position of its
/// `@` and the text typed after it. There is none when the `@` directly follows a
/// letter, digit or `_`, or when whitespace follows it before the cursor.
pub open spec fn mention_token(s: Seq<char>, cursor: int) -> Option<(int, Seq<char>)> {
    match rfind_char(s, '@', 0, cursor) {
        None => None,
        Some(at) => if at > 0 && (unicode_alphanumeric(s[at - 1]) || s[at - 1] == '_') {
            None
        } else if exists|i: int| at < i < cursor && is_ws(#[trigger] s[i]) {
            None
        } else {
            Some((at, s.subrange(at + 1, cursor)))
        },
    }
}

/// The `@mention` being typed before the cursor at byte offset `cursor_byte`: the byte
/// offset of its `@` and the text after it. `None` when the offset is past the end or
/// not on a character boundary, or when there is no such mention.
pub fn active_mention_token(input: &str, cursor_byte: usize) -> (r: Option<(usize, String)>)
    requires
        byte_len(input@) <= usize::MAX,
    ensures
        match r {
            Some((at_byte, text)) => exists|cursor: int|
                0 <= cursor <= input@.len() && byte_len(input@.take(cursor)) == cursor_byte && {
                    let t = mention_token(input@, cursor);
                    t matches Some((at, q)) && at_byte == byte_len(input@.take(at)) && text@ == q
                },
            None => forall|cursor: int|
                0 <= cursor <= input@.len() && byte_len(input@.take(cursor)) == cursor_byte
                    ==> mention_token(input@, cursor) is None,
        },
{
    let s = chars_of(input);
    let mut total: usize = 0;
    let mut i: usize = 0;
    while i < s.len() && total < cursor_byte
        invariant
            i <= s.len(),
            s@ == input@,
            total == byte_len(s@.take(i as int)),
            byte_len(s@) <= usize::MAX,
            forall|j: int| 0 <= j < i ==> byte_len(s@.take(j)) < cursor_byte,
        decreases s.len() - i,
    {
        proof {
            assert(s@.take(i + 1).drop_last() =~= s@.take(i as int));
            lemma_byte_len_monotone(s@, i + 1, s.len() as int);
            assert(s@.take(s.len() as int) =~= s@);
        }
        let w = utf8_len_exec(s[i]);
        total = total + w;
        i += 1;
    }
    if total != cursor_byte {
        proof {
            assert forall|cursor: int|
                0 <= cursor <= input@.len() && byte_len(input@.take(cursor))
                    == cursor_byte implies mention_token(input@, cursor) is None by {
                if cursor < i {
                } else if cursor > i {
                    lemma_byte_len_monotone(s@, i as int, cursor);
                    assert(total >= cursor_byte);
                } else {
                }
            }
        }
        return None;
    }
    let cursor = i;
    proof {
        assert forall|c2: int|
            0 <= c2 <= input@.len() && byte_len(input@.take(c2)) == cursor_byte implies c2
            == cursor by {
            if c2 < cursor {
            } else if c2 > cursor {
                lemma_byte_len_monotone(s@, cursor as int, c2);
            }
        }
    }
    let found = rfind_char_exec(&s, '@', 0, cursor);
    if found.is_none() {
        assert(mention_token(input@, cursor as int) is None);
        return None;
    }
    let at = found.unwrap();
    proof {
        lemma_rfind_bounds(s@, '@', 0, cursor as int);
    }
    if at > 0 && (is_alphanumeric(s[at - 1]) || s[at - 1] == '_') {
        return None;
    }
    let mut j = at + 1;
    while j < cursor
        invariant
            at < j <= cursor,
            cursor <= s.len(),
            forall|k: int| at < k < j ==> !is_ws(#[trigger] s@[k]),
            s@ == input@,
            rfind_char(s@, '@', 0, cursor as int) == Some(at as int),
            forall|c2: int|
                0 <= c2 <= input@.len() && byte_len(input@.take(c2)) == cursor_byte ==> c2
                    == cursor,
        decreases cursor - j,
    {
        if is_ws_exec(s[j]) {
            assert(is_ws(s@[j as int]));
            assert(mention_token(input@, cursor as int) is None);
            return None;
        }
        j += 1;
    }
    let mut q: Vec<char> = Vec::new();
    let mut k = at + 1;
    while k < cursor
        invariant
            at < k <= cursor,
            cursor <= s.len(),
            q@ == s@.subrange(at + 1, k as int),
        decreases cursor - k,
    {
        q.push(s[k]);
        k += 1;
        assert(q@ =~= s@.subrange(at + 1, k as int));
    }
    let mut at_byte: usize = 0;
    let mut m: usize = 0;
    while m < at
        invariant
            m <= at < cursor <= s.len(),
            at_byte == byte_len(s@.take(m as int)),
            byte_len(s@) <= usize::MAX,
        decreases at - m,
    {
        proof {
            assert(s@.take(m + 1).drop_last() =~= s@.take(m as int));
            lemma_byte_len_monotone(s@, m + 1, s.len() as int);
            assert(s@.take(s.len() as int) =~= s@);
        }
        at_byte = at_byte + utf8_len_exec(s[m]);
        m += 1;
    }
    Some((at_byte, string_of(q.as_slice())))
}

/// A character found searching backwards lies in the searched range and is that character.
proof fn lemma_rfind_bounds(s: Seq<char>, c: char, lo: int, hi: int)
    ensures
        rfind_char(s, c, lo, hi) matches Some(j) ==> lo <= j < hi && s[j] == c,
    decreases hi - lo,
{
    if hi <= lo || lo < 0 || hi > s.len() {
    } else if s[hi - 1] == c {
    } else {
        lemma_rfind_bounds(s, c, lo, hi - 1);
    }
}

/// The timeout, in milliseconds, that a `timeout_ms` attribute asks for; 30 seconds
/// when it is absent or not a number.
pub fn parse_command_timeout(timeout_ms: Option<&str>) -> (r: u64)
    ensures
        r == match timeout_ms {
            Some(v) => match parse_unsigned(v@, u64::MAX as nat) {
                Some(n) => n as u64,
                None => 30000,
            },
            None => 30000,
        },
{
    match timeout_ms {
        Some(v) => {
            let c = chars_of(v);
            assert(c@.subrange(0, c.len() as int) =~= c@);
            match parse_unsigned_exec(&c, 0, c.len(), u64::MAX) {
                Some(n) => n,
                None => 30000,
            }
        },
        None => 30000,
    }
}

/// The prefixes of the commands that count as validation.
pub open spec fn validation_prefixes() -> Seq<Seq<char>> {
    seq![
        "cargo test"@,
        "cargo clippy"@,
        "cargo fmt"@,
        "./evaluate.sh"@,
        "pytest"@,
        "go test"@,
        "npm test"@,
        "pnpm test"@,
        "bun test"@,
    ]
}

/// Whether a shell command runs tests, lints or formatting: its trimmed, lower-cased
/// text starts with one of [`validation_prefixes`].
pub open spec fn is_validation(command: Seq<char>) -> bool {
    let n = ascii_lower_seq(trim(command));
    exists|i: int| 0 <= i < validation_prefixes().len() && matches_at(n, #[trigger] validation_prefixes()[i], 0)
}

fn starts_with_lit(n: &Vec<char>, lit: &str) -> (r: bool)
    ensures
        r == matches_at(n@, lit@, 0),
{
    let p = chars_of(lit);
    matches_at_exec(n, &p, 0)
}

/// Whether a shell command runs tests, lints or formatting.
pub fn is_validation_command(command: &str) -> (r: bool)
    ensures
        r == is_validation(command@),
{
    let c = chars_of(command);
    let (a, b) = trim_bounds(&c, 0, c.len());
    assert(c@.subrange(0, c.len() as int) =~= c@);
    let t = crate::patch::slice_chars(&c, a, b);
    let n = ascii_lower_vec(&t);
    let ghost ps = validation_prefixes();
    let r = starts_with_lit(&n, "cargo test") || starts_with_lit(&n, "cargo clippy")
        || starts_with_lit(&n, "cargo fmt") || starts_with_lit(&n, "./evaluate.sh")
        || starts_with_lit(&n, "pytest") || starts_with_lit(&n, "go test") || starts_with_lit(
        &n,
        "npm test",
    ) || starts_with_lit(&n, "pnpm test") || starts_with_lit(&n, "bun test");
    proof {
        if r {
            if matches_at(n@, ps[0], 0) {
            } else if matches_at(n@, ps[1], 0) {
            } else if matches_at(n@, ps[2], 0) {
            } else if matches_at(n@, ps[3], 0) {
            } else if matches_at(n@, ps[4], 0) {
            } else if matches_at(n@, ps[5], 0) {
            } else if matches_at(n@, ps[6], 0) {
            } else if matches_at(n@, ps[7], 0) {
            } else {
                assert(matches_at(n@, ps[8], 0));
            }
        } else {
            assert forall|i: int| 0 <= i < ps.len() implies !matches_at(n@, #[trigger] ps[i], 0) by {
            }
        }
    }
    r
}

/// The index of `candidate` in `models`, inserting it at the front when it is not
/// listed.
pub fn select_or_insert_model(models: &mut Vec<String>, candidate: &str) -> (r: usize)
    ensures
        ({
            let old_names = old(models)@.map_values(|m: String| m@);
            let new_names = final(models)@.map_values(|m: String| m@);
            if old_names.contains(candidate@) {
                new_names == old_names && r < new_names.len() && new_names[r as int]
                    == candidate@ && forall|i: int| 0 <= i < r ==> old_names[i] != candidate@
            } else {
                new_names == seq![candidate@] + old_names && r == 0
            }
        }),
{
    let ghost old_names = models@.map_values(|m: String| m@);
    let mut i: usize = 0;
    while i < models.len()
        invariant
            i <= models.len(),
            models@.map_values(|m: String| m@) == old_names,
            forall|j: int| 0 <= j < i ==> old_names[j] != candidate@,
        decreases models.len() - i,
    {
        let same = models[i].as_str().to_owned() == candidate.to_owned();
        if same {
            assert(old_names[i as int] == models@[i as int]@);
            return i;
        }
        assert(old_names[i as int] == models@[i as int]@);
        i += 1;
    }
    assert(!old_names.contains(candidate@)) by {
        if old_names.contains(candidate@) {
            let j = choose|j: int| 0 <= j < old_names.len() && old_names[j] == candidate@;
        }
    }
    models.insert(0, candidate.to_owned());
    assert(models@.map_values(|m: String| m@) =~= seq![candidate@] + old_names);
    0
}

/// Prompt compaction settings a session can choose.
#[derive(Debug, Clone, Copy, PartialEq, Eq, Structural)]
pub enum PromptCompactionPolicy {
    CurrentDefault,
    Last6Ledger768,
    Last8Ledger1024,
    BenchmarkRepairMinimal,
    BenchmarkStatePacket,
    Off,
}

/// The reply to a `/compaction` command: `None` for input that is not one; an error
/// message for a missing or unknown policy; else the policy to use (`None` for the
/// default).
pub open spec fn compaction_command(input: Seq<char>) -> Option<
    Result<Option<PromptCompactionPolicy>, Seq<char>>,
> {
    if !matches_at(input, "/compaction"@, 0) {
        None
    } else {
        let policy = trim(input.subrange("/compaction"@.len() as int, input.len() as int));
        if policy.len() == 0 {
            Some(
                Err(
                    "Usage: /compaction default|last6-ledger768|last8-ledger1024|benchmark-state-packet|off"@,
                ),
            )
        } else if policy == "default"@ {
            Some(Ok(None))
        } else if policy == "last6-ledger768"@ {
            Some(Ok(Some(PromptCompactionPolicy::Last6Ledger768)))
        } else if policy == "last8-ledger1024"@ {
            Some(Ok(Some(PromptCompactionPolicy::Last8Ledger1024)))
        } else if policy == "benchmark-state-packet"@ {
            Some(Ok(Some(PromptCompactionPolicy::BenchmarkStatePacket)))
        } else if policy == "off"@ {
            Some(Ok(Some(PromptCompactionPolicy::Off)))
        } else {
            Some(
                Err(
                    "Unknown compaction policy `"@ + policy
                        + "`. Use /compaction default|last6-ledger768|last8-ledger1024|benchmark-state-packet|off."@,
                ),
            )
        }
    }
}

pub open spec fn compaction_reply_view(r: Option<Result<Option<PromptCompactionPolicy>, String>>) -> Option<
    Result<Option<PromptCompactionPolicy>, Seq<char>>,
> {
    match r {
        None => None,
        Some(Ok(p)) => Some(Ok(p)),
        Some(Err(m)) => Some(Err(m@)),
    }
}

/// Reads a `/compaction <policy>` command typed into the composer.
pub fn parse_compaction_command(input: &str) -> (r: Option<
    Result<Option<PromptCompactionPolicy>, String>,
>)
    ensures
        compaction_reply_view(r) == compaction_command(input@),
{
    let s = chars_of(input);
    let head = chars_of("/compaction");
    if !matches_at_exec(&s, &head, 0) {
        return None;
    }
    let (a, b) = trim_bounds(&s, head.len(), s.len());
    let policy = crate::patch::slice_chars(&s, a, b);
    if policy.len() == 0 {
        return Some(
            Err(
                "Usage: /compaction default|last6-ledger768|last8-ledger1024|benchmark-state-packet|off".to_owned(),
            ),
        );
    }
    if crate::patch::chars_eq(&policy, &chars_of("default")) {
        Some(Ok(None))
    } else if crate::patch::chars_eq(&policy, &chars_of("last6-ledger768")) {
        Some(Ok(Some(PromptCompactionPolicy::Last6Ledger768)))
    } else if crate::patch::chars_eq(&policy, &chars_of("last8-ledger1024")) {
        Some(Ok(Some(PromptCompactionPolicy::Last8Ledger1024)))
    } else if crate::patch::chars_eq(&policy, &chars_of("benchmark-state-packet")) {
        Some(Ok(Some(PromptCompactionPolicy::BenchmarkStatePacket)))
    } else if crate::patch::chars_eq(&policy, &chars_of("off")) {
        Some(Ok(Some(PromptCompactionPolicy::Off)))
    } else {
        let mut m: Vec<char> = Vec::new();
        push_str(&mut m, "Unknown compaction policy `");
        push_chars(&mut m, &policy);
        push_str(
            &mut m,
            "`. Use /compaction default|last6-ledger768|last8-ledger1024|benchmark-state-packet|off.",
        );
        Some(Err(string_of(m.as_slice())))
    }
}

/// The label of the compaction policy a session uses.
pub fn compaction_policy_label(policy: Option<PromptCompactionPolicy>) -> (r: &'static str)
    ensures
        r@ == match policy {
            None | Some(PromptCompactionPolicy::CurrentDefault) => "default"@,
            Some(PromptCompactionPolicy::Last6Ledger768) => "last6-ledger768"@,
            Some(PromptCompactionPolicy::Last8Ledger1024) => "last8-ledger1024"@,
            Some(PromptCompactionPolicy::BenchmarkRepairMinimal) => "benchmark-repair-minimal"@,
            Some(PromptCompactionPolicy::BenchmarkStatePacket) => "benchmark-state-packet"@,
            Some(PromptCompactionPolicy::Off) => "off"@,
        },
{
    match policy {
        None | Some(PromptCompactionPolicy::CurrentDefault) => "default",
        Some(PromptCompactionPolicy::Last6Ledger768) => "last6-ledger768",
        Some(PromptCompactionPolicy::Last8Ledger1024) => "last8-ledger1024",
        Some(PromptCompactionPolicy::BenchmarkRepairMinimal) => "benchmark-repair-minimal",
        Some(PromptCompactionPolicy::BenchmarkStatePacket) => "benchmark-state-packet",
        Some(PromptCompactionPolicy::Off) => "off",
    }
}

/// The model index after moving `delta` places through a list of `len` models,
/// wrapping around; the index is kept when the list is empty.
pub fn cycle_index(index: usize, len: usize, delta: i64) -> (r: usize)
    ensures
        len == 0 ==> r == index,
        len > 0 ==> r < len && r as int == (index as int + delta as int) % (len as int),
{
    if len == 0 {
        return index;
    }
    let l = len as u128;
    let ghost x: int = index as int + delta as int;
    if delta >= 0 {
        let d = delta as u128;
        let m = d % l;
        let s = (index as u128) + m;
        let r = s % l;
        proof {
            let qd = d as int / l as int;
            let qs = s as int / l as int;
            lemma_fundamental_div_mod(d as int, l as int);
            lemma_fundamental_div_mod(s as int, l as int);
            assert(x == (qd + qs) * l + r) by (nonlinear_arith)
                requires
                    x == index + d,
                    d == l * qd + m,
                    s == index + m,
                    s == l * qs + r,
            ;
            lemma_fundamental_div_mod_converse_mod(x, l as int, qd + qs, r as int);
        }
        r as usize
    } else {
        let d = (0i128 - (delta as i128)) as u128;
        let m = d % l;
        let s = (index as u128) + l - m;
        let r = s % l;
        proof {
            let qd = d as int / l as int;
            let qs = s as int / l as int;
            lemma_fundamental_div_mod(d as int, l as int);
            lemma_fundamental_div_mod(s as int, l as int);
            assert(x == (qs - qd - 1) * l + r) by (nonlinear_arith)
                requires
                    x == index - d,
                    d == l * qd + m,
                    s == index + l - m,
                    s == l * qs + r,
            ;
            lemma_fundamental_div_mod_converse_mod(x, l as int, qs - qd - 1, r as int);
        }
        r as usize
    }
}

/// The title of a chat session named after its first message: the first line of the
/// trimmed message, cut to 32 characters and trimmed again, or `Chat` when that is
/// empty.
pub open spec fn session_title(text: Seq<char>) -> Seq<char> {
    let t = trim(text);
    let first = crate::patch::lines(t);
    let line = if first.len() > 0 {
        first[0]
    } else {
        seq![]
    };
    let cut = if line.len() > 32 {
        line.take(32)
    } else {
        line
    };
    let s = trim(cut);
    if s.len() == 0 {
        "Chat"@
    } else {
        s
    }
}

/// The title a session gets from its first message.
pub fn title_from_user_message(text: &str) -> (r: String)
    ensures
        r@ == session_title(text@),
{
    let c = chars_of(text);
    let (a, b) = trim_bounds(&c, 0, c.len());
    assert(c@.subrange(0, c.len() as int) =~= c@);
    let t = crate::patch::slice_chars(&c, a, b);
    let ls = crate::patch::split_lines(&t);
    let line: Vec<char> = if ls.len() > 0 {
        assert(crate::patch::lines_view(ls@)[0] == ls@[0]@);
        ls[0].clone()
    } else {
        Vec::new()
    };
    let cut = if line.len() > 32 {
        crate::patch::slice_chars(&line, 0, 32)
    } else {
        line
    };
    let (x, y) = trim_bounds(&cut, 0, cut.len());
    assert(cut@.subrange(0, cut.len() as int) =~= cut@);
    if x == y {
        "Chat".to_owned()
    } else {
        crate::text::substring(&cut, x, y)
    }
}

/// A command counts as validation exactly when its trimmed, lower-cased text starts with
/// `cargo test`, `cargo clippy`, `cargo fmt`, `./evaluate.sh`, `pytest`, `go test`,
/// `npm test`, `pnpm test` or `bun test`.
pub proof fn lemma_validation_command_prefixes(command: Seq<char>)
    ensures
        is_validation(command) <==> {
            let n = ascii_lower_seq(trim(command));
            ||| matches_at(n, "cargo test"@, 0)
            ||| matches_at(n, "cargo clippy"@, 0)
            ||| matches_at(n, "cargo fmt"@, 0)
            ||| matches_at(n, "./evaluate.sh"@, 0)
            ||| matches_at(n, "pytest"@, 0)
            ||| matches_at(n, "go test"@, 0)
            ||| matches_at(n, "npm test"@, 0)
            ||| matches_at(n, "pnpm test"@, 0)
            ||| matches_at(n, "bun test"@, 0)
        },
{
    let n = ascii_lower_seq(trim(command));
    let ps = validation_prefixes();
    if is_validation(command) {
        let i = choose|i: int| 0 <= i < ps.len() && matches_at(n, #[trigger] ps[i], 0);
        assert(0 <= i < 9);
    }
    if matches_at(n, "cargo test"@, 0) {
        assert(matches_at(n, ps[0], 0));
    }
    if matches_at(n, "cargo clippy"@, 0) {
        assert(matches_at(n, ps[1], 0));
    }
    if matches_at(n, "cargo fmt"@, 0) {
        assert(matches_at(n, ps[2], 0));
    }
    if matches_at(n, "./evaluate.sh"@, 0) {
        assert(matches_at(n, ps[3], 0));
    }
    if matches_at(n, "pytest"@, 0) {
        assert(matches_at(n, ps[4], 0));
    }
    if matches_at(n, "go test"@, 0) {
        assert(matches_at(n, ps[5], 0));
    }
    if matches_at(n, "npm test"@, 0) {
        assert(matches_at(n, ps[6], 0));
    }
    if matches_at(n, "pnpm test"@, 0) {
        assert(matches_at(n, ps[7], 0));
    }
    if matches_at(n, "bun test"@, 0) {
        assert(matches_at(n, ps[8], 0));
    }
}

} // verus!
