//! Splitting an assistant reply into text, reasoning, code fences and tool tags.
use vstd::prelude::*;
use crate::text::{
    chars_of, contains_seq, find_in, find_in_exec, lemma_find_in_some, matches_at, matches_at_exec, parse_unsigned,
    parse_unsigned_exec, substring, trim, trim_bounds,
};

verus! {

/// A 1-based inclusive line range of a file.
#[derive(Clone, Copy, Debug, PartialEq, Eq, Structural)]
pub struct ReadFileRange {
    pub start_line: usize,
    pub end_line: usize,
}

impl ReadFileRange {
    /// A usable range starts at line 1 or later and does not end before it starts.
    pub open spec fn is_normal(self) -> bool {
        1 <= self.start_line <= self.end_line
    }

    /// The range itself when it is usable, else `None`.
    pub fn normalized(self) -> (r: Option<ReadFileRange>)
        ensures
            r == (if self.is_normal() {
                Some(self)
            } else {
                None
            }),
    {
        if 1 <= self.start_line && self.start_line <= self.end_line {
            Some(self)
        } else {
            None
        }
    }
}

/// The range a pair of optional line numbers stands for, as the tag parser and the
/// persisted command format both read it.
pub open spec fn range_from_lines(start: Option<usize>, end: Option<usize>) -> Option<
    ReadFileRange,
> {
    match (start, end) {
        (Some(a), Some(b)) => {
            let r = ReadFileRange { start_line: a, end_line: b };
            if r.is_normal() {
                Some(r)
            } else {
                None
            }
        },
        _ => None,
    }
}

pub fn range_from_lines_exec(start: Option<usize>, end: Option<usize>) -> (r: Option<
    ReadFileRange,
>)
    ensures
        r == range_from_lines(start, end),
{
    match (start, end) {
        (Some(a), Some(b)) => ReadFileRange { start_line: a, end_line: b }.normalized(),
        _ => None,
    }
}

/// One piece of an assistant reply.
#[derive(Debug, Clone, PartialEq, Eq)]
pub enum AssistantSegment {
    Text(String),
    Think(String),
    Code { language: String, body: String },
    RunCommand { command: String, timeout_ms: u64 },
    ReadFile { path: String, range: Option<ReadFileRange> },
    ListDirectory { path: String },
    WriteFile { path: String, content: String },
    ApplyPatch { path: String, patch: String },
    ReplaceBlock { path: String, search_block: String, replace_block: String },
    /// `arguments` is the JSON text of the call's arguments, trimmed; it is always a
    /// document that `serde_json` accepts.
    McpCallTool { server_name: String, tool_name: String, arguments: String },
}

/// The mathematical content of an [`AssistantSegment`].
pub enum SegmentView {
    Text(Seq<char>),
    Think(Seq<char>),
    Code { language: Seq<char>, body: Seq<char> },
    RunCommand { command: Seq<char>, timeout_ms: u64 },
    ReadFile { path: Seq<char>, range: Option<ReadFileRange> },
    ListDirectory { path: Seq<char> },
    WriteFile { path: Seq<char>, content: Seq<char> },
    ApplyPatch { path: Seq<char>, patch: Seq<char> },
    ReplaceBlock { path: Seq<char>, search_block: Seq<char>, replace_block: Seq<char> },
    McpCallTool { server_name: Seq<char>, tool_name: Seq<char>, arguments: Seq<char> },
}

impl View for AssistantSegment {
    type V = SegmentView;

    open spec fn view(&self) -> SegmentView {
        match self {
            AssistantSegment::Text(t) => SegmentView::Text(t@),
            AssistantSegment::Think(t) => SegmentView::Think(t@),
            AssistantSegment::Code { language, body } => SegmentView::Code {
                language: language@,
                body: body@,
            },
            AssistantSegment::RunCommand { command, timeout_ms } => SegmentView::RunCommand {
                command: command@,
                timeout_ms: *timeout_ms,
            },
            AssistantSegment::ReadFile { path, range } => SegmentView::ReadFile {
                path: path@,
                range: *range,
            },
            AssistantSegment::ListDirectory { path } => SegmentView::ListDirectory { path: path@ },
            AssistantSegment::WriteFile { path, content } => SegmentView::WriteFile {
                path: path@,
                content: content@,
            },
            AssistantSegment::ApplyPatch { path, patch } => SegmentView::ApplyPatch {
                path: path@,
                patch: patch@,
            },
            AssistantSegment::ReplaceBlock { path, search_block, replace_block } =>
                SegmentView::ReplaceBlock {
                path: path@,
                search_block: search_block@,
                replace_block: replace_block@,
            },
            AssistantSegment::McpCallTool { server_name, tool_name, arguments } =>
                SegmentView::McpCallTool {
                server_name: server_name@,
                tool_name: tool_name@,
                arguments: arguments@,
            },
        }
    }
}

pub open spec fn segments_view(v: Seq<AssistantSegment>) -> Seq<SegmentView> {
    v.map_values(|x: AssistantSegment| x@)
}

/// Where a transcript is shown.
#[derive(Debug, Clone, Copy, PartialEq, Eq, Structural)]
pub enum TranscriptSurface {
    Chat,
    Shell,
}

impl TranscriptSurface {
    pub open spec fn name(self) -> Seq<char> {
        match self {
            TranscriptSurface::Chat => "chat"@,
            TranscriptSurface::Shell => "shell"@,
        }
    }

    pub fn as_str(self) -> (r: &'static str)
        ensures
            r@ == self.name(),
    {
        match self {
            TranscriptSurface::Chat => "chat",
            TranscriptSurface::Shell => "shell",
        }
    }
}

/// The kind of a segment, without its content.
#[derive(Debug, Clone, Copy, PartialEq, Eq, Structural)]
pub enum SegmentKind {
    Text,
    Think,
    Code,
    RunCommand,
    ReadFile,
    ListDirectory,
    WriteFile,
    ApplyPatch,
    ReplaceBlock,
    McpCallTool,
}

impl SegmentKind {
    pub open spec fn name(self) -> Seq<char> {
        match self {
            SegmentKind::Text => "text"@,
            SegmentKind::Think => "reasoning"@,
            SegmentKind::Code => "code"@,
            SegmentKind::RunCommand => "command"@,
            SegmentKind::ReadFile => "read_file"@,
            SegmentKind::ListDirectory => "list_directory"@,
            SegmentKind::WriteFile => "write_file"@,
            SegmentKind::ApplyPatch => "apply_patch"@,
            SegmentKind::ReplaceBlock => "replace_block"@,
            SegmentKind::McpCallTool => "mcp_call_tool"@,
        }
    }

    /// The label used for this kind in diagnostics.
    pub fn as_str(self) -> (r: &'static str)
        ensures
            r@ == self.name(),
    {
        match self {
            SegmentKind::Text => "text",
            SegmentKind::Think => "reasoning",
            SegmentKind::Code => "code",
            SegmentKind::RunCommand => "command",
            SegmentKind::ReadFile => "read_file",
            SegmentKind::ListDirectory => "list_directory",
            SegmentKind::WriteFile => "write_file",
            SegmentKind::ApplyPatch => "apply_patch",
            SegmentKind::ReplaceBlock => "replace_block",
            SegmentKind::McpCallTool => "mcp_call_tool",
        }
    }
}

pub open spec fn kind_of(s: SegmentView) -> SegmentKind {
    match s {
        SegmentView::Text(_) => SegmentKind::Text,
        SegmentView::Think(_) => SegmentKind::Think,
        SegmentView::Code { .. } => SegmentKind::Code,
        SegmentView::RunCommand { .. } => SegmentKind::RunCommand,
        SegmentView::ReadFile { .. } => SegmentKind::ReadFile,
        SegmentView::ListDirectory { .. } => SegmentKind::ListDirectory,
        SegmentView::WriteFile { .. } => SegmentKind::WriteFile,
        SegmentView::ApplyPatch { .. } => SegmentKind::ApplyPatch,
        SegmentView::ReplaceBlock { .. } => SegmentKind::ReplaceBlock,
        SegmentView::McpCallTool { .. } => SegmentKind::McpCallTool,
    }
}

/// The kind of a segment.
pub fn segment_kind(segment: &AssistantSegment) -> (r: SegmentKind)
    ensures
        r == kind_of(segment@),
{
    match segment {
        AssistantSegment::Text(_) => SegmentKind::Text,
        AssistantSegment::Think(_) => SegmentKind::Think,
        AssistantSegment::Code { .. } => SegmentKind::Code,
        AssistantSegment::RunCommand { .. } => SegmentKind::RunCommand,
        AssistantSegment::ReadFile { .. } => SegmentKind::ReadFile,
        AssistantSegment::ListDirectory { .. } => SegmentKind::ListDirectory,
        AssistantSegment::WriteFile { .. } => SegmentKind::WriteFile,
        AssistantSegment::ApplyPatch { .. } => SegmentKind::ApplyPatch,
        AssistantSegment::ReplaceBlock { .. } => SegmentKind::ReplaceBlock,
        AssistantSegment::McpCallTool { .. } => SegmentKind::McpCallTool,
    }
}

/// How segments are laid out on a surface.
#[derive(Debug, Clone, Copy)]
pub struct SegmentRenderOptions {
    pub surface: TranscriptSurface,
    pub left_pad: &'static str,
}

impl SegmentRenderOptions {
    /// Options for the chat pane: two spaces of left padding.
    pub fn chat() -> (r: Self)
        ensures
            r.surface == TranscriptSurface::Chat,
            r.left_pad@ == "  "@,
    {
        SegmentRenderOptions { surface: TranscriptSurface::Chat, left_pad: "  " }
    }

    /// Options for the shell feed: no left padding.
    pub fn shell() -> (r: Self)
        ensures
            r.surface == TranscriptSurface::Shell,
            r.left_pad@ == ""@,
    {
        SegmentRenderOptions { surface: TranscriptSurface::Shell, left_pad: "" }
    }
}

// ---------------------------------------------------------------------------
// The grammar, over the characters `s` of a whole reply.
// ---------------------------------------------------------------------------

/// What `serde_json` accepts as a JSON document.
pub uninterp spec fn json_accepts(text: Seq<char>) -> bool;

/// `serde_json::from_str::<serde_json::Value>`: whether the text is a JSON document.
/// The contract claims only that the answer is a function of the text.
#[verifier::external_body]
fn json_text_is_valid(text: &str) -> (r: bool)
    ensures
        r == json_accepts(text@),
{
    serde_json::from_str::<serde_json::Value>(text).is_ok()
}

/// The character right after `<tag` may be whitespace or `>`.
pub open spec fn open_tag_sep(c: char) -> bool {
    c == ' ' || c == '\t' || c == '\r' || c == '\n' || c == '>'
}

/// The opening tag `open` (`<name`) at `pos`: the bounds `(lo, hi)` of its attribute
/// text; the body starts after the `>` at `hi`.
pub open spec fn open_tag(s: Seq<char>, pos: int, open: Seq<char>) -> Option<(int, int)> {
    let a = pos + open.len();
    if !matches_at(s, open, pos) {
        None
    } else {
        match find_in(s, seq!['>'], a, s.len() as int) {
            None => None,
            Some(close) => if a < s.len() && open_tag_sep(s[a]) {
                Some((a, close))
            } else {
                None
            },
        }
    }
}

/// The bounds of the value of the attribute whose prefix `name="` is `pat`, inside
/// the attribute text `s[lo..hi]`.
pub open spec fn attr_bounds(s: Seq<char>, lo: int, hi: int, pat: Seq<char>) -> Option<(int, int)> {
    match find_in(s, pat, lo, hi) {
        None => None,
        Some(st) => {
            let vs = st + pat.len();
            match find_in(s, seq!['"'], vs, hi) {
                None => None,
                Some(e) => Some((vs, e)),
            }
        },
    }
}

/// The value of the attribute with prefix `pat` inside `s[lo..hi]`.
pub open spec fn attr_value(s: Seq<char>, lo: int, hi: int, pat: Seq<char>) -> Option<Seq<char>> {
    match attr_bounds(s, lo, hi, pat) {
        None => None,
        Some((a, b)) => Some(s.subrange(a, b)),
    }
}

/// An attribute read as a number of type `usize`.
pub open spec fn attr_usize(s: Seq<char>, lo: int, hi: int, pat: Seq<char>) -> Option<usize> {
    match attr_value(s, lo, hi, pat) {
        None => None,
        Some(v) => match parse_unsigned(v, usize::MAX as nat) {
            None => None,
            Some(n) => Some(n as usize),
        },
    }
}

/// The line range that `start_line` and `end_line` attributes describe.
pub open spec fn range_attrs(s: Seq<char>, lo: int, hi: int) -> Option<ReadFileRange> {
    range_from_lines(
        attr_usize(s, lo, hi, "start_line=\""@),
        attr_usize(s, lo, hi, "end_line=\""@),
    )
}

/// The `timeout_ms` attribute, 30 seconds when absent or not a number.
pub open spec fn timeout_attr(s: Seq<char>, lo: int, hi: int) -> u64 {
    match attr_value(s, lo, hi, "timeout_ms=\""@) {
        None => 30000,
        Some(v) => match parse_unsigned(v, u64::MAX as nat) {
            None => 30000,
            Some(n) => n as u64,
        },
    }
}

/// The body of a tag that starts after the `>` at `close` and ends at the closing tag
/// `end_tag`: its bounds and where the text after the closing tag starts.
pub open spec fn tag_body(s: Seq<char>, close: int, end_tag: Seq<char>) -> Option<(int, int, int)> {
    match find_in(s, end_tag, close + 1, s.len() as int) {
        None => None,
        Some(e) => Some((close + 1, e, e + end_tag.len())),
    }
}

pub open spec fn run_command_tag(s: Seq<char>, pos: int) -> Option<(SegmentView, int)> {
    match open_tag(s, pos, "<run_command"@) {
        None => None,
        Some((lo, hi)) => match tag_body(s, hi, "</run_command>"@) {
            None => None,
            Some((a, b, rest)) => Some(
                (
                    SegmentView::RunCommand {
                        command: trim(s.subrange(a, b)),
                        timeout_ms: timeout_attr(s, lo, hi),
                    },
                    rest,
                ),
            ),
        },
    }
}

pub open spec fn read_file_tag(s: Seq<char>, pos: int) -> Option<(SegmentView, int)> {
    match open_tag(s, pos, "<read_file"@) {
        None => None,
        Some((lo, hi)) => match attr_value(s, lo, hi, "path=\""@) {
            None => None,
            Some(path) => match tag_body(s, hi, "</read_file>"@) {
                None => None,
                Some((a, b, rest)) => if trim(s.subrange(a, b)).len() == 0 {
                    Some((SegmentView::ReadFile { path, range: range_attrs(s, lo, hi) }, rest))
                } else {
                    None
                },
            },
        },
    }
}

pub open spec fn list_directory_tag(s: Seq<char>, pos: int) -> Option<(SegmentView, int)> {
    match open_tag(s, pos, "<list_directory"@) {
        None => None,
        Some((lo, hi)) => match attr_value(s, lo, hi, "path=\""@) {
            None => None,
            Some(path) => match tag_body(s, hi, "</list_directory>"@) {
                None => None,
                Some((a, b, rest)) => if trim(s.subrange(a, b)).len() == 0 {
                    Some((SegmentView::ListDirectory { path }, rest))
                } else {
                    None
                },
            },
        },
    }
}

pub open spec fn write_file_tag(s: Seq<char>, pos: int) -> Option<(SegmentView, int)> {
    match open_tag(s, pos, "<write_file"@) {
        None => None,
        Some((lo, hi)) => match attr_value(s, lo, hi, "path=\""@) {
            None => None,
            Some(path) => match tag_body(s, hi, "</write_file>"@) {
                None => None,
                Some((a, b, rest)) => Some(
                    (SegmentView::WriteFile { path, content: s.subrange(a, b) }, rest),
                ),
            },
        },
    }
}

pub open spec fn apply_patch_tag(s: Seq<char>, pos: int) -> Option<(SegmentView, int)> {
    match open_tag(s, pos, "<apply_patch"@) {
        None => None,
        Some((lo, hi)) => match attr_value(s, lo, hi, "path=\""@) {
            None => None,
            Some(path) => match tag_body(s, hi, "</apply_patch>"@) {
                None => None,
                Some((a, b, rest)) => Some(
                    (SegmentView::ApplyPatch { path, patch: s.subrange(a, b) }, rest),
                ),
            },
        },
    }
}

pub open spec fn replace_block_tag(s: Seq<char>, pos: int) -> Option<(SegmentView, int)> {
    match open_tag(s, pos, "<replace_block"@) {
        None => None,
        Some((lo, hi)) => match attr_value(s, lo, hi, "path=\""@) {
            None => None,
            Some(path) => match attr_value(s, lo, hi, "search_block=\""@) {
                None => None,
                Some(search_block) => match tag_body(s, hi, "</replace_block>"@) {
                    None => None,
                    Some((a, b, rest)) => Some(
                        (
                            SegmentView::ReplaceBlock {
                                path,
                                search_block,
                                replace_block: s.subrange(a, b),
                            },
                            rest,
                        ),
                    ),
                },
            },
        },
    }
}

pub open spec fn mcp_call_tool_tag(s: Seq<char>, pos: int) -> Option<(SegmentView, int)> {
    match open_tag(s, pos, "<mcp_call_tool"@) {
        None => None,
        Some((lo, hi)) => match attr_value(s, lo, hi, "server_name=\""@) {
            None => None,
            Some(server_name) => match attr_value(s, lo, hi, "tool_name=\""@) {
                None => None,
                Some(tool_name) => match tag_body(s, hi, "</mcp_call_tool>"@) {
                    None => None,
                    Some((a, b, rest)) => {
                        let arguments = trim(s.subrange(a, b));
                        if json_accepts(arguments) {
                            Some(
                                (SegmentView::McpCallTool { server_name, tool_name, arguments }, rest),
                            )
                        } else {
                            None
                        }
                    },
                },
            },
        },
    }
}

/// A `<think>` block at `pos`; an unclosed one runs to the end of the reply.
pub open spec fn think_block(s: Seq<char>, pos: int) -> (SegmentView, int) {
    let a = pos + "<think>"@.len();
    match find_in(s, "</think>"@, a, s.len() as int) {
        Some(e) => (SegmentView::Think(s.subrange(a, e)), e + "</think>"@.len()),
        None => (SegmentView::Think(s.subrange(a, s.len() as int)), s.len() as int),
    }
}

/// A fenced code block at `pos`: the language is the trimmed rest of the opening line;
/// an unclosed fence runs to the end of the reply.
pub open spec fn code_block(s: Seq<char>, pos: int) -> (SegmentView, int) {
    let a = pos + "```"@.len();
    let le = match find_in(s, seq!['\n'], a, s.len() as int) {
        Some(e) => e,
        None => s.len() as int,
    };
    let language = trim(s.subrange(a, le));
    let bs = if le < s.len() {
        le + 1
    } else {
        le
    };
    match find_in(s, "```"@, bs, s.len() as int) {
        Some(e) => (SegmentView::Code { language, body: s.subrange(bs, e) }, e + "```"@.len()),
        None => (SegmentView::Code { language, body: s.subrange(bs, s.len() as int) }, s.len() as int),
    }
}

pub open spec fn opt_min(a: Option<int>, b: Option<int>) -> Option<int> {
    match (a, b) {
        (Some(x), Some(y)) => Some(if x <= y {
            x
        } else {
            y
        }),
        (Some(x), None) => Some(x),
        (None, y) => y,
    }
}

/// The first occurrence, at or after `pos`, of the nine markers a reply is split at.
pub open spec fn markers(s: Seq<char>, pos: int) -> Seq<Option<int>> {
    let n = s.len() as int;
    seq![
        find_in(s, "<run_command"@, pos, n),
        find_in(s, "<read_file"@, pos, n),
        find_in(s, "<list_directory"@, pos, n),
        find_in(s, "<write_file"@, pos, n),
        find_in(s, "<apply_patch"@, pos, n),
        find_in(s, "<replace_block"@, pos, n),
        find_in(s, "<mcp_call_tool"@, pos, n),
        find_in(s, "<think>"@, pos, n),
        find_in(s, "```"@, pos, n),
    ]
}

pub open spec fn min_marker(m: Seq<Option<int>>) -> Option<int>
    decreases m.len(),
{
    if m.len() == 0 {
        None
    } else {
        opt_min(min_marker(m.drop_last()), m.last())
    }
}

/// The segment that starts with the marker found at `pos`, and where the text after it
/// starts; `None` when the tag there is malformed.
pub open spec fn tag_at(s: Seq<char>, pos: int) -> Option<(SegmentView, int)> {
    let m = markers(s, pos);
    let tagged = if m[0] == Some(pos) {
        run_command_tag(s, pos)
    } else if m[1] == Some(pos) {
        read_file_tag(s, pos)
    } else if m[2] == Some(pos) {
        list_directory_tag(s, pos)
    } else if m[3] == Some(pos) {
        write_file_tag(s, pos)
    } else if m[4] == Some(pos) {
        apply_patch_tag(s, pos)
    } else if m[5] == Some(pos) {
        replace_block_tag(s, pos)
    } else if m[6] == Some(pos) {
        mcp_call_tool_tag(s, pos)
    } else {
        None
    };
    if tagged is Some {
        tagged
    } else if m[7] == Some(pos) {
        Some(think_block(s, pos))
    } else if m[8] == Some(pos) {
        Some(code_block(s, pos))
    } else {
        None
    }
}

/// The segments of the reply text from `pos` on.
pub open spec fn segments_from(s: Seq<char>, pos: int) -> Seq<SegmentView>
    decreases s.len() - pos,
{
    if pos < 0 || pos >= s.len() {
        seq![]
    } else {
        proof {
            lemma_markers_bounds(s, pos);
            lemma_tag_at_progress(s, pos);
        }
        match min_marker(markers(s, pos)) {
            None => seq![SegmentView::Text(s.subrange(pos, s.len() as int))],
            Some(n) => if n > pos {
                seq![SegmentView::Text(s.subrange(pos, n))] + segments_from(s, n)
            } else {
                match tag_at(s, pos) {
                    Some((seg, rest)) => seq![seg] + segments_from(s, rest),
                    None => seq![SegmentView::Text(s.subrange(pos, s.len() as int))],
                }
            },
        }
    }
}

/// The segments of a whole reply.
pub open spec fn segments(s: Seq<char>) -> Seq<SegmentView> {
    segments_from(s, 0)
}

/// The texts of the text segments, one after another.
pub open spec fn texts_joined(segs: Seq<SegmentView>) -> Seq<char>
    decreases segs.len(),
{
    if segs.len() == 0 {
        seq![]
    } else {
        (match segs[0] {
            SegmentView::Text(t) => t,
            _ => seq![],
        }) + texts_joined(segs.skip(1))
    }
}

// ---------------------------------------------------------------------------
// Facts about the grammar.
// ---------------------------------------------------------------------------

/// A pattern found lies within the searched range, which lies within the text.
proof fn lemma_find_bounds(s: Seq<char>, pat: Seq<char>, i: int, hi: int)
    requires
        0 <= i,
    ensures
        find_in(s, pat, i, hi) matches Some(j) ==> i <= j && j + pat.len() <= hi && hi <= s.len(),
{
    lemma_find_in_some(s, pat, i, hi);
    if find_in(s, pat, i, hi) is Some {
        lemma_find_in_hi(s, pat, i, hi);
    }
}

/// A search that finds the pattern searched within the text.
proof fn lemma_find_in_hi(s: Seq<char>, pat: Seq<char>, i: int, hi: int)
    ensures
        find_in(s, pat, i, hi) is Some ==> hi <= s.len(),
    decreases hi - i,
{
    if i < 0 || i + pat.len() > hi || hi > s.len() {
    } else if s.subrange(i, i + pat.len()) == pat || pat.len() == 0 {
    } else {
        lemma_find_in_hi(s, pat, i + 1, hi);
    }
}

/// The earliest marker is one of the markers, no later than any other, and within their
/// common bounds; there is none only when no marker was found.
proof fn lemma_min_marker_in(m: Seq<Option<int>>, lo: int, hi: int)
    requires
        forall|k: int| 0 <= k < m.len() ==> (#[trigger] m[k] matches Some(j) ==> lo <= j <= hi),
    ensures
        min_marker(m) matches Some(j) ==> lo <= j <= hi,
        min_marker(m) matches Some(j) ==> exists|k: int| 0 <= k < m.len() && m[k] == Some(j),
        min_marker(m) matches Some(j) ==> forall|k: int|
            0 <= k < m.len() ==> (#[trigger] m[k] matches Some(x) ==> j <= x),
        min_marker(m) is None ==> forall|k: int| 0 <= k < m.len() ==> #[trigger] m[k] is None,
    decreases m.len(),
{
    if m.len() > 0 {
        let p = m.drop_last();
        assert forall|k: int| 0 <= k < p.len() implies (#[trigger] p[k] matches Some(j) ==> lo
            <= j <= hi) by {
            assert(p[k] == m[k]);
        }
        lemma_min_marker_in(p, lo, hi);
        if let Some(j) = min_marker(p) {
            let k = choose|k: int| 0 <= k < p.len() && p[k] == Some(j);
            assert(m[k] == Some(j));
        }
        assert forall|k: int| 0 <= k < m.len() - 1 implies #[trigger] m[k] == p[k] by {}
    }
}

/// The earliest tag marker after `pos` lies between `pos` and the end of the text.
pub proof fn lemma_markers_bounds(s: Seq<char>, pos: int)
    requires
        0 <= pos,
    ensures
        min_marker(markers(s, pos)) matches Some(j) ==> pos <= j <= s.len(),
{
    let n = s.len() as int;
    let m = markers(s, pos);
    lemma_find_bounds(s, "<run_command"@, pos, n);
    lemma_find_bounds(s, "<read_file"@, pos, n);
    lemma_find_bounds(s, "<list_directory"@, pos, n);
    lemma_find_bounds(s, "<write_file"@, pos, n);
    lemma_find_bounds(s, "<apply_patch"@, pos, n);
    lemma_find_bounds(s, "<replace_block"@, pos, n);
    lemma_find_bounds(s, "<mcp_call_tool"@, pos, n);
    lemma_find_bounds(s, "<think>"@, pos, n);
    lemma_find_bounds(s, "```"@, pos, n);
    assert forall|k: int| 0 <= k < m.len() implies (#[trigger] m[k] matches Some(j) ==> pos <= j
        <= n) by {}
    lemma_min_marker_in(m, pos, n);
}

/// The attributes of an opening tag lie after its name and before the text ends.
proof fn lemma_open_tag_bounds(s: Seq<char>, pos: int, open: Seq<char>)
    requires
        0 <= pos,
        open.len() > 0,
    ensures
        open_tag(s, pos, open) matches Some((lo, hi)) ==> pos < lo <= hi < s.len(),
{
    let a = pos + open.len();
    if matches_at(s, open, pos) {
        lemma_find_bounds(s, seq!['>'], a, s.len() as int);
    }
}

/// A tag's body starts after its opening tag and ends before the text does.
proof fn lemma_tag_body_bounds(s: Seq<char>, close: int, end_tag: Seq<char>)
    requires
        0 <= close,
    ensures
        tag_body(s, close, end_tag) matches Some((a, b, rest)) ==> a == close + 1 && a <= b
            && b <= rest && rest <= s.len(),
{
    lemma_find_bounds(s, end_tag, close + 1, s.len() as int);
}

/// Reading a tag consumes at least one character.
pub proof fn lemma_tag_at_progress(s: Seq<char>, pos: int)
    requires
        0 <= pos < s.len(),
    ensures
        tag_at(s, pos) matches Some((_, rest)) ==> pos < rest <= s.len(),
{
    reveal_strlit("<run_command");
    reveal_strlit("<read_file");
    reveal_strlit("<list_directory");
    reveal_strlit("<write_file");
    reveal_strlit("<apply_patch");
    reveal_strlit("<replace_block");
    reveal_strlit("<mcp_call_tool");
    lemma_open_tag_bounds(s, pos, "<run_command"@);
    lemma_open_tag_bounds(s, pos, "<read_file"@);
    lemma_open_tag_bounds(s, pos, "<list_directory"@);
    lemma_open_tag_bounds(s, pos, "<write_file"@);
    lemma_open_tag_bounds(s, pos, "<apply_patch"@);
    lemma_open_tag_bounds(s, pos, "<replace_block"@);
    lemma_open_tag_bounds(s, pos, "<mcp_call_tool"@);
    if let Some((lo, hi)) = open_tag(s, pos, "<run_command"@) {
        lemma_tag_body_bounds(s, hi, "</run_command>"@);
    }
    if let Some((lo, hi)) = open_tag(s, pos, "<read_file"@) {
        lemma_tag_body_bounds(s, hi, "</read_file>"@);
    }
    if let Some((lo, hi)) = open_tag(s, pos, "<list_directory"@) {
        lemma_tag_body_bounds(s, hi, "</list_directory>"@);
    }
    if let Some((lo, hi)) = open_tag(s, pos, "<write_file"@) {
        lemma_tag_body_bounds(s, hi, "</write_file>"@);
    }
    if let Some((lo, hi)) = open_tag(s, pos, "<apply_patch"@) {
        lemma_tag_body_bounds(s, hi, "</apply_patch>"@);
    }
    if let Some((lo, hi)) = open_tag(s, pos, "<replace_block"@) {
        lemma_tag_body_bounds(s, hi, "</replace_block>"@);
    }
    if let Some((lo, hi)) = open_tag(s, pos, "<mcp_call_tool"@) {
        lemma_tag_body_bounds(s, hi, "</mcp_call_tool>"@);
    }
    let m = markers(s, pos);
    if m[7] == Some(pos) {
        lemma_find_bounds(s, "<think>"@, pos, s.len() as int);
        lemma_think_progress(s, pos);
    }
    if m[8] == Some(pos) {
        lemma_find_bounds(s, "```"@, pos, s.len() as int);
        lemma_code_progress(s, pos);
    }
}

/// Reading a reasoning block consumes at least one character.
proof fn lemma_think_progress(s: Seq<char>, pos: int)
    requires
        0 <= pos < s.len(),
        pos + "<think>"@.len() <= s.len(),
    ensures
        pos < think_block(s, pos).1 <= s.len(),
{
    reveal_strlit("<think>");
    lemma_find_bounds(s, "</think>"@, pos + "<think>"@.len(), s.len() as int);
}

/// Reading a code block consumes at least one character.
proof fn lemma_code_progress(s: Seq<char>, pos: int)
    requires
        0 <= pos < s.len(),
        pos + "```"@.len() <= s.len(),
    ensures
        pos < code_block(s, pos).1 <= s.len(),
{
    reveal_strlit("```");
    let a = pos + "```"@.len();
    lemma_find_bounds(s, seq!['\n'], a, s.len() as int);
    let le = match find_in(s, seq!['\n'], a, s.len() as int) {
        Some(e) => e,
        None => s.len() as int,
    };
    let bs = if le < s.len() {
        le + 1
    } else {
        le
    };
    lemma_find_bounds(s, "```"@, bs, s.len() as int);
}


// ---------------------------------------------------------------------------
// The parser.
// ---------------------------------------------------------------------------

pub open spec fn seg_result(r: Option<(AssistantSegment, usize)>) -> Option<(SegmentView, int)> {
    match r {
        Some((seg, rest)) => Some((seg@, rest as int)),
        None => None,
    }
}

fn open_tag_sep_exec(c: char) -> (r: bool)
    ensures
        r == open_tag_sep(c),
{
    c == ' ' || c == '\t' || c == '\r' || c == '\n' || c == '>'
}

fn open_tag_exec(s: &Vec<char>, pos: usize, open: &Vec<char>) -> (r: Option<(usize, usize)>)
    ensures
        match r {
            Some((lo, hi)) => open_tag(s@, pos as int, open@) == Some((lo as int, hi as int)),
            None => open_tag(s@, pos as int, open@) is None,
        },
{
    if !matches_at_exec(s, open, pos) {
        return None;
    }
    let ol = open.len();
    assert(pos + ol <= s.len());
    let a = pos + ol;
    let gt = vec!['>'];
    assert(gt@ =~= seq!['>']);
    match find_in_exec(s, &gt, a, s.len()) {
        None => None,
        Some(close) => {
            if a < s.len() && open_tag_sep_exec(s[a]) {
                Some((a, close))
            } else {
                None
            }
        },
    }
}

fn attr_bounds_exec(s: &Vec<char>, lo: usize, hi: usize, pat: &Vec<char>) -> (r: Option<
    (usize, usize),
>)
    requires
        lo <= hi <= s.len(),
    ensures
        match r {
            Some((a, b)) => attr_bounds(s@, lo as int, hi as int, pat@) == Some(
                (a as int, b as int),
            ) && a <= b <= hi,
            None => attr_bounds(s@, lo as int, hi as int, pat@) is None,
        },
{
    match find_in_exec(s, pat, lo, hi) {
        None => None,
        Some(st) => {
            proof {
                lemma_find_in_some(s@, pat@, lo as int, hi as int);
            }
            let vs = st + pat.len();
            let quote = vec!['"'];
            assert(quote@ =~= seq!['"']);
            match find_in_exec(s, &quote, vs, hi) {
                None => None,
                Some(e) => {
                    proof {
                        lemma_find_in_some(s@, quote@, vs as int, hi as int);
                    }
                    Some((vs, e))
                },
            }
        },
    }
}

fn attr_usize_exec(s: &Vec<char>, lo: usize, hi: usize, pat: &Vec<char>) -> (r: Option<usize>)
    requires
        lo <= hi <= s.len(),
    ensures
        r == attr_usize(s@, lo as int, hi as int, pat@),
{
    match attr_bounds_exec(s, lo, hi, pat) {
        None => None,
        Some((a, b)) => match parse_unsigned_exec(s, a, b, usize::MAX as u64) {
            None => None,
            Some(n) => Some(n as usize),
        },
    }
}

fn tag_body_exec(s: &Vec<char>, close: usize, end_tag: &Vec<char>) -> (r: Option<
    (usize, usize, usize),
>)
    requires
        close < s.len(),
    ensures
        match r {
            Some((a, b, rest)) => tag_body(s@, close as int, end_tag@) == Some(
                (a as int, b as int, rest as int),
            ) && a <= b <= rest <= s.len(),
            None => tag_body(s@, close as int, end_tag@) is None,
        },
{
    match find_in_exec(s, end_tag, close + 1, s.len()) {
        None => None,
        Some(e) => {
            proof {
                lemma_find_in_some(s@, end_tag@, close + 1, s.len() as int);
            }
            Some((close + 1, e, e + end_tag.len()))
        },
    }
}

/// The trimmed text of `s[a..b]`.
fn trimmed(s: &Vec<char>, a: usize, b: usize) -> (r: String)
    requires
        a <= b <= s.len(),
    ensures
        r@ == trim(s@.subrange(a as int, b as int)),
{
    let (x, y) = trim_bounds(s, a, b);
    substring(s, x, y)
}

fn attr_string(s: &Vec<char>, lo: usize, hi: usize, name: &str) -> (r: Option<String>)
    requires
        lo <= hi <= s.len(),
    ensures
        match r {
            Some(v) => attr_value(s@, lo as int, hi as int, name@) == Some(v@),
            None => attr_value(s@, lo as int, hi as int, name@) is None,
        },
{
    let pat = chars_of(name);
    match attr_bounds_exec(s, lo, hi, &pat) {
        None => None,
        Some((a, b)) => Some(substring(s, a, b)),
    }
}

fn run_command_tag_exec(s: &Vec<char>, pos: usize) -> (r: Option<(AssistantSegment, usize)>)
    ensures
        seg_result(r) == run_command_tag(s@, pos as int),
{
    let open = chars_of("<run_command");
    let (lo, hi) = match open_tag_exec(s, pos, &open) {
        None => return None,
        Some(b) => b,
    };
    proof {
        lemma_find_in_some(s@, seq!['>'], pos + open@.len(), s.len() as int);
    }
    let timeout_pat = chars_of("timeout_ms=\"");
    let timeout_ms: u64 = match attr_bounds_exec(s, lo, hi, &timeout_pat) {
        None => 30000,
        Some((a, b)) => match parse_unsigned_exec(s, a, b, u64::MAX) {
            None => 30000,
            Some(n) => n,
        },
    };
    let end_tag = chars_of("</run_command>");
    match tag_body_exec(s, hi, &end_tag) {
        None => None,
        Some((a, b, rest)) => Some(
            (AssistantSegment::RunCommand { command: trimmed(s, a, b), timeout_ms }, rest),
        ),
    }
}

fn read_file_tag_exec(s: &Vec<char>, pos: usize) -> (r: Option<(AssistantSegment, usize)>)
    ensures
        seg_result(r) == read_file_tag(s@, pos as int),
{
    let open = chars_of("<read_file");
    let (lo, hi) = match open_tag_exec(s, pos, &open) {
        None => return None,
        Some(b) => b,
    };
    proof {
        lemma_find_in_some(s@, seq!['>'], pos + open@.len(), s.len() as int);
    }
    let path = match attr_string(s, lo, hi, "path=\"") {
        None => return None,
        Some(p) => p,
    };
    let start_pat = chars_of("start_line=\"");
    let end_pat = chars_of("end_line=\"");
    let start_line = attr_usize_exec(s, lo, hi, &start_pat);
    let end_line = attr_usize_exec(s, lo, hi, &end_pat);
    let range = range_from_lines_exec(start_line, end_line);
    let end_tag = chars_of("</read_file>");
    match tag_body_exec(s, hi, &end_tag) {
        None => None,
        Some((a, b, rest)) => {
            let (x, y) = trim_bounds(s, a, b);
            if x == y {
                Some((AssistantSegment::ReadFile { path, range }, rest))
            } else {
                None
            }
        },
    }
}

fn list_directory_tag_exec(s: &Vec<char>, pos: usize) -> (r: Option<(AssistantSegment, usize)>)
    ensures
        seg_result(r) == list_directory_tag(s@, pos as int),
{
    let open = chars_of("<list_directory");
    let (lo, hi) = match open_tag_exec(s, pos, &open) {
        None => return None,
        Some(b) => b,
    };
    proof {
        lemma_find_in_some(s@, seq!['>'], pos + open@.len(), s.len() as int);
    }
    let path = match attr_string(s, lo, hi, "path=\"") {
        None => return None,
        Some(p) => p,
    };
    let end_tag = chars_of("</list_directory>");
    match tag_body_exec(s, hi, &end_tag) {
        None => None,
        Some((a, b, rest)) => {
            let (x, y) = trim_bounds(s, a, b);
            if x == y {
                Some((AssistantSegment::ListDirectory { path }, rest))
            } else {
                None
            }
        },
    }
}

fn write_file_tag_exec(s: &Vec<char>, pos: usize) -> (r: Option<(AssistantSegment, usize)>)
    ensures
        seg_result(r) == write_file_tag(s@, pos as int),
{
    let open = chars_of("<write_file");
    let (lo, hi) = match open_tag_exec(s, pos, &open) {
        None => return None,
        Some(b) => b,
    };
    proof {
        lemma_find_in_some(s@, seq!['>'], pos + open@.len(), s.len() as int);
    }
    let path = match attr_string(s, lo, hi, "path=\"") {
        None => return None,
        Some(p) => p,
    };
    let end_tag = chars_of("</write_file>");
    match tag_body_exec(s, hi, &end_tag) {
        None => None,
        Some((a, b, rest)) => Some(
            (AssistantSegment::WriteFile { path, content: substring(s, a, b) }, rest),
        ),
    }
}

fn apply_patch_tag_exec(s: &Vec<char>, pos: usize) -> (r: Option<(AssistantSegment, usize)>)
    ensures
        seg_result(r) == apply_patch_tag(s@, pos as int),
{
    let open = chars_of("<apply_patch");
    let (lo, hi) = match open_tag_exec(s, pos, &open) {
        None => return None,
        Some(b) => b,
    };
    proof {
        lemma_find_in_some(s@, seq!['>'], pos + open@.len(), s.len() as int);
    }
    let path = match attr_string(s, lo, hi, "path=\"") {
        None => return None,
        Some(p) => p,
    };
    let end_tag = chars_of("</apply_patch>");
    match tag_body_exec(s, hi, &end_tag) {
        None => None,
        Some((a, b, rest)) => Some(
            (AssistantSegment::ApplyPatch { path, patch: substring(s, a, b) }, rest),
        ),
    }
}

fn replace_block_tag_exec(s: &Vec<char>, pos: usize) -> (r: Option<(AssistantSegment, usize)>)
    ensures
        seg_result(r) == replace_block_tag(s@, pos as int),
{
    let open = chars_of("<replace_block");
    let (lo, hi) = match open_tag_exec(s, pos, &open) {
        None => return None,
        Some(b) => b,
    };
    proof {
        lemma_find_in_some(s@, seq!['>'], pos + open@.len(), s.len() as int);
    }
    let path = match attr_string(s, lo, hi, "path=\"") {
        None => return None,
        Some(p) => p,
    };
    let search_block = match attr_string(s, lo, hi, "search_block=\"") {
        None => return None,
        Some(p) => p,
    };
    let end_tag = chars_of("</replace_block>");
    match tag_body_exec(s, hi, &end_tag) {
        None => None,
        Some((a, b, rest)) => Some(
            (
                AssistantSegment::ReplaceBlock {
                    path,
                    search_block,
                    replace_block: substring(s, a, b),
                },
                rest,
            ),
        ),
    }
}

fn mcp_call_tool_tag_exec(s: &Vec<char>, pos: usize) -> (r: Option<(AssistantSegment, usize)>)
    ensures
        seg_result(r) == mcp_call_tool_tag(s@, pos as int),
{
    let open = chars_of("<mcp_call_tool");
    let (lo, hi) = match open_tag_exec(s, pos, &open) {
        None => return None,
        Some(b) => b,
    };
    proof {
        lemma_find_in_some(s@, seq!['>'], pos + open@.len(), s.len() as int);
    }
    let server_name = match attr_string(s, lo, hi, "server_name=\"") {
        None => return None,
        Some(p) => p,
    };
    let tool_name = match attr_string(s, lo, hi, "tool_name=\"") {
        None => return None,
        Some(p) => p,
    };
    let end_tag = chars_of("</mcp_call_tool>");
    match tag_body_exec(s, hi, &end_tag) {
        None => None,
        Some((a, b, rest)) => {
            let arguments = trimmed(s, a, b);
            if json_text_is_valid(arguments.as_str()) {
                Some((AssistantSegment::McpCallTool { server_name, tool_name, arguments }, rest))
            } else {
                None
            }
        },
    }
}

fn think_block_exec(s: &Vec<char>, pos: usize) -> (r: (AssistantSegment, usize))
    requires
        pos + "<think>"@.len() <= s.len(),
    ensures
        (r.0@, r.1 as int) == think_block(s@, pos as int),
{
    let open = chars_of("<think>");
    let close = chars_of("</think>");
    let a = pos + open.len();
    match find_in_exec(s, &close, a, s.len()) {
        Some(e) => {
            proof {
                lemma_find_in_some(s@, close@, a as int, s.len() as int);
            }
            (AssistantSegment::Think(substring(s, a, e)), e + close.len())
        },
        None => (AssistantSegment::Think(substring(s, a, s.len())), s.len()),
    }
}

fn code_block_exec(s: &Vec<char>, pos: usize) -> (r: (AssistantSegment, usize))
    requires
        pos + "```"@.len() <= s.len(),
    ensures
        (r.0@, r.1 as int) == code_block(s@, pos as int),
{
    let fence = chars_of("```");
    let a = pos + fence.len();
    let newline = vec!['\n'];
    assert(newline@ =~= seq!['\n']);
    let le = match find_in_exec(s, &newline, a, s.len()) {
        Some(e) => {
            proof {
                lemma_find_in_some(s@, newline@, a as int, s.len() as int);
            }
            e
        },
        None => s.len(),
    };
    let language = trimmed(s, a, le);
    let bs = if le < s.len() {
        le + 1
    } else {
        le
    };
    match find_in_exec(s, &fence, bs, s.len()) {
        Some(e) => {
            proof {
                lemma_find_in_some(s@, fence@, bs as int, s.len() as int);
            }
            (AssistantSegment::Code { language, body: substring(s, bs, e) }, e + fence.len())
        },
        None => (AssistantSegment::Code { language, body: substring(s, bs, s.len()) }, s.len()),
    }
}

fn opt_min_exec(a: Option<usize>, b: Option<usize>) -> (r: Option<usize>)
    ensures
        opt_usize(r) == opt_min(opt_usize(a), opt_usize(b)),
{
    match (a, b) {
        (Some(x), Some(y)) => Some(
            if x <= y {
                x
            } else {
                y
            },
        ),
        (Some(x), None) => Some(x),
        (None, y) => y,
    }
}

pub open spec fn opt_usize(a: Option<usize>) -> Option<int> {
    match a {
        Some(x) => Some(x as int),
        None => None,
    }
}

fn find_marker(s: &Vec<char>, pos: usize, lit: &str) -> (r: Option<usize>)
    requires
        pos <= s.len(),
    ensures
        opt_usize(r) == find_in(s@, lit@, pos as int, s.len() as int),
{
    let pat = chars_of(lit);
    find_in_exec(s, &pat, pos, s.len())
}

/// Splits an assistant reply into segments: plain text, `<think>` reasoning, fenced
/// code, and the tool tags `run_command`, `read_file`, `list_directory`, `write_file`,
/// `apply_patch`, `replace_block` and `mcp_call_tool`. A tag that is malformed turns
/// the rest of the reply into text.
pub fn parse_assistant_segments(
    text: &str,
    session_id: usize,
    message_index: usize,
    surface: TranscriptSurface,
) -> (r: Vec<AssistantSegment>)
    ensures
        segments_view(r@) == segments(text@),
{
    let s = chars_of(text);
    let n = s.len();
    let mut out: Vec<AssistantSegment> = Vec::new();
    let mut pos: usize = 0;
    while pos < n
        invariant
            n == s.len(),
            pos <= n,
            s@ == text@,
            segments_view(out@) + segments_from(s@, pos as int) == segments(s@),
        decreases n - pos,
    {
        let ghost old_out = out@;
        proof {
            lemma_markers_bounds(s@, pos as int);
            lemma_tag_at_progress(s@, pos as int);
        }
        let m0 = find_marker(&s, pos, "<run_command");
        let m1 = find_marker(&s, pos, "<read_file");
        let m2 = find_marker(&s, pos, "<list_directory");
        let m3 = find_marker(&s, pos, "<write_file");
        let m4 = find_marker(&s, pos, "<apply_patch");
        let m5 = find_marker(&s, pos, "<replace_block");
        let m6 = find_marker(&s, pos, "<mcp_call_tool");
        let m7 = find_marker(&s, pos, "<think>");
        let m8 = find_marker(&s, pos, "```");
        let ghost m = markers(s@, pos as int);
        assert(m[0] == opt_usize(m0) && m[1] == opt_usize(m1) && m[2] == opt_usize(m2) && m[3]
            == opt_usize(m3) && m[4] == opt_usize(m4) && m[5] == opt_usize(m5) && m[6]
            == opt_usize(m6) && m[7] == opt_usize(m7) && m[8] == opt_usize(m8));
        let next = opt_min_exec(
            opt_min_exec(
                opt_min_exec(
                    opt_min_exec(
                        opt_min_exec(
                            opt_min_exec(
                                opt_min_exec(opt_min_exec(opt_min_exec(None, m0), m1), m2),
                                m3,
                            ),
                            m4,
                        ),
                        m5,
                    ),
                    m6,
                ),
                m7,
            ),
            m8,
        );
        proof {
            reveal_with_fuel(min_marker, 10);
            assert(m.take(0) =~= seq![]);
            assert(m.take(9) =~= m);
            assert(m.take(1).drop_last() =~= m.take(0));
            assert(m.take(2).drop_last() =~= m.take(1));
            assert(m.take(3).drop_last() =~= m.take(2));
            assert(m.take(4).drop_last() =~= m.take(3));
            assert(m.take(5).drop_last() =~= m.take(4));
            assert(m.take(6).drop_last() =~= m.take(5));
            assert(m.take(7).drop_last() =~= m.take(6));
            assert(m.take(8).drop_last() =~= m.take(7));
            assert(m.take(9).drop_last() =~= m.take(8));
            assert(opt_usize(next) == min_marker(m));
        }
        match next {
            None => {
                out.push(AssistantSegment::Text(substring(&s, pos, n)));
                pos = n;
            },
            Some(np) => {
                if np > pos {
                    out.push(AssistantSegment::Text(substring(&s, pos, np)));
                    pos = np;
                } else {
                    let tagged = if m0 == Some(pos) {
                        run_command_tag_exec(&s, pos)
                    } else if m1 == Some(pos) {
                        read_file_tag_exec(&s, pos)
                    } else if m2 == Some(pos) {
                        list_directory_tag_exec(&s, pos)
                    } else if m3 == Some(pos) {
                        write_file_tag_exec(&s, pos)
                    } else if m4 == Some(pos) {
                        apply_patch_tag_exec(&s, pos)
                    } else if m5 == Some(pos) {
                        replace_block_tag_exec(&s, pos)
                    } else if m6 == Some(pos) {
                        mcp_call_tool_tag_exec(&s, pos)
                    } else {
                        None
                    };
                    let found = if tagged.is_some() {
                        tagged
                    } else if m7 == Some(pos) {
                        proof {
                            lemma_find_in_some(s@, "<think>"@, pos as int, n as int);
                        }
                        Some(think_block_exec(&s, pos))
                    } else if m8 == Some(pos) {
                        proof {
                            lemma_find_in_some(s@, "```"@, pos as int, n as int);
                        }
                        Some(code_block_exec(&s, pos))
                    } else {
                        None
                    };
                    assert(seg_result(found) == tag_at(s@, pos as int));
                    match found {
                        Some((seg, rest)) => {
                            out.push(seg);
                            pos = rest;
                        },
                        None => {
                            out.push(AssistantSegment::Text(substring(&s, pos, n)));
                            pos = n;
                        },
                    }
                }
            },
        }
        assert(segments_view(out@) =~= segments_view(old_out).push(out@.last()@));
    }
    out
}


/// A tag found at a marker is never a text segment.
proof fn lemma_tag_is_not_text(s: Seq<char>, pos: int)
    ensures
        tag_at(s, pos) matches Some((seg, _)) ==> seg !is Text,
{
}

proof fn lemma_text_segments_rebuild_from(s: Seq<char>, pos: int)
    requires
        0 <= pos <= s.len(),
        forall|i: int| 0 <= i < segments_from(s, pos).len() ==> #[trigger] segments_from(s, pos)[i] is Text,
    ensures
        texts_joined(segments_from(s, pos)) == s.subrange(pos, s.len() as int),
    decreases s.len() - pos,
{
    if pos < s.len() {
        lemma_markers_bounds(s, pos);
        lemma_tag_at_progress(s, pos);
        lemma_tag_is_not_text(s, pos);
        let segs = segments_from(s, pos);
        match min_marker(markers(s, pos)) {
            None => {
                assert(segs.skip(1) =~= seq![]);
                assert(texts_joined(seq![]) == Seq::<char>::empty());
                assert(texts_joined(segs) == s.subrange(pos, s.len() as int) + texts_joined(segs.skip(1)));
            },
            Some(n) => {
                if n > pos {
                    let rest = segments_from(s, n);
                    assert(segs.skip(1) =~= rest);
                    assert forall|i: int| 0 <= i < rest.len() implies #[trigger] rest[i] is Text by {
                        assert(rest[i] == segs[i + 1]);
                    }
                    lemma_text_segments_rebuild_from(s, n);
                    assert(texts_joined(segs) == s.subrange(pos, n) + texts_joined(rest));
                    assert(s.subrange(pos, n) + s.subrange(n, s.len() as int) =~= s.subrange(pos, s.len() as int));
                } else {
                    match tag_at(s, pos) {
                        Some((seg, rest)) => {
                            assert(segs[0] == seg);
                        },
                        None => {
                            assert(segs.skip(1) =~= seq![]);
                            assert(texts_joined(seq![]) == Seq::<char>::empty());
                            assert(texts_joined(segs) == s.subrange(pos, s.len() as int) + texts_joined(segs.skip(1)));
                        },
                    }
                }
            },
        }
    } else {
        assert(s.subrange(pos, s.len() as int) =~= seq![]);
        assert(segments_from(s, pos) == Seq::<SegmentView>::empty());
    }
}

/// A reply that parses into text segments alone is rebuilt by their texts, one after
/// another: nothing is dropped or repeated.
pub proof fn lemma_text_segments_rebuild_reply(s: Seq<char>)
    requires
        forall|i: int| 0 <= i < segments(s).len() ==> #[trigger] segments(s)[i] is Text,
    ensures
        texts_joined(segments(s)) == s,
{
    assert(segments(s) == segments_from(s, 0));
    assert forall|i: int| 0 <= i < segments_from(s, 0).len() implies #[trigger] segments_from(s, 0)[i] is Text by {
        assert(segments(s)[i] == segments_from(s, 0)[i]);
    }
    lemma_text_segments_rebuild_from(s, 0);
    assert(s.subrange(0, s.len() as int) =~= s);
}

proof fn lemma_absent_marker_not_found(s: Seq<char>, pat: Seq<char>)
    requires
        !contains_seq(s, pat),
    ensures
        find_in(s, pat, 0, s.len() as int) is None,
{
    lemma_find_in_some(s, pat, 0, s.len() as int);
    if let Some(j) = find_in(s, pat, 0, s.len() as int) {
        assert(matches_at(s, pat, j));
    }
}

/// A reply in which none of the nine markers occurs (the seven tool tags, `<think>` and a
/// code fence) is one text segment, or no segment when it is empty.
pub proof fn lemma_reply_without_markers_is_text(s: Seq<char>)
    requires
        !contains_seq(s, "<run_command"@),
        !contains_seq(s, "<read_file"@),
        !contains_seq(s, "<list_directory"@),
        !contains_seq(s, "<write_file"@),
        !contains_seq(s, "<apply_patch"@),
        !contains_seq(s, "<replace_block"@),
        !contains_seq(s, "<mcp_call_tool"@),
        !contains_seq(s, "<think>"@),
        !contains_seq(s, "```"@),
    ensures
        segments(s) == (if s.len() == 0 {
            seq![]
        } else {
            seq![SegmentView::Text(s)]
        }),
{
    lemma_absent_marker_not_found(s, "<run_command"@);
    lemma_absent_marker_not_found(s, "<read_file"@);
    lemma_absent_marker_not_found(s, "<list_directory"@);
    lemma_absent_marker_not_found(s, "<write_file"@);
    lemma_absent_marker_not_found(s, "<apply_patch"@);
    lemma_absent_marker_not_found(s, "<replace_block"@);
    lemma_absent_marker_not_found(s, "<mcp_call_tool"@);
    lemma_absent_marker_not_found(s, "<think>"@);
    lemma_absent_marker_not_found(s, "```"@);
    let m = markers(s, 0);
    reveal_with_fuel(min_marker, 10);
    assert(min_marker(m) is None);
    if s.len() > 0 {
        assert(s.subrange(0, s.len() as int) =~= s);
    }
}

/// The first occurrence of `pat` in `s[i..hi]` is the one at `j` when none starts earlier.
proof fn lemma_find_first(s: Seq<char>, pat: Seq<char>, i: int, hi: int, j: int)
    requires
        0 <= i <= j,
        j + pat.len() <= hi <= s.len(),
        matches_at(s, pat, j),
        forall|k: int| i <= k < j ==> !matches_at(s, pat, k),
    ensures
        find_in(s, pat, i, hi) == Some(j),
    decreases j - i,
{
    if i < j {
        assert(!matches_at(s, pat, i));
        if pat.len() == 0 {
            assert(s.subrange(i, i) =~= pat);
        }
        lemma_find_first(s, pat, i + 1, hi, j);
    }
}

/// The first `c` in `s[i..hi]` is the one at `j` when there is none before it.
proof fn lemma_find_first_char(s: Seq<char>, c: char, i: int, hi: int, j: int)
    requires
        0 <= i <= j < hi <= s.len(),
        s[j] == c,
        forall|k: int| i <= k < j ==> s[k] != c,
    ensures
        find_in(s, seq![c], i, hi) == Some(j),
{
    assert(s.subrange(j, j + 1) =~= seq![c]);
    assert forall|k: int| i <= k < j implies !matches_at(s, seq![c], k) by {
        if matches_at(s, seq![c], k) {
            assert(s.subrange(k, k + 1)[0] == s[k]);
        }
    }
    lemma_find_first(s, seq![c], i, hi, j);
}

/// A search that does not match at `i` finds nothing at `i`.
proof fn lemma_find_not_here(s: Seq<char>, pat: Seq<char>, i: int, d: int)
    requires
        0 <= i,
        0 <= d < pat.len(),
        i + d < s.len(),
        s[i + d] != pat[d],
    ensures
        find_in(s, pat, i, s.len() as int) != Some(i),
{
    lemma_find_bounds(s, pat, i + 1, s.len() as int);
    if i + pat.len() <= s.len() {
        assert(s.subrange(i, i + pat.len())[d] == s[i + d]);
    }
}

/// The text of a reply that is one `replace_block` tag.
spec fn replace_block_reply(path: Seq<char>, search: Seq<char>, body: Seq<char>) -> Seq<char> {
    "<replace_block path=\""@ + path + "\" search_block=\""@ + search + "\">"@ + body
        + "</replace_block>"@
}

/// Where the parts of a one-tag `replace_block` reply stand in its text.
proof fn lemma_replace_block_layout(path: Seq<char>, search: Seq<char>, body: Seq<char>)
    ensures
        ({
            let s = replace_block_reply(path, search, body);
            let p = path.len() as int;
            let q = search.len() as int;
            let n = s.len() as int;
            &&& n == 55 + p + q + body.len()
            &&& forall|k: int| 0 <= k < 21 ==> s[k] == #[trigger] "<replace_block path=\""@[k]
            &&& forall|k: int| 0 <= k < p ==> s[21 + k] == #[trigger] path[k]
            &&& forall|k: int| 0 <= k < 16 ==> s[21 + p + k] == #[trigger] "\" search_block=\""@[k]
            &&& forall|k: int| 0 <= k < q ==> s[37 + p + k] == #[trigger] search[k]
            &&& s[37 + p + q] == '"'
            &&& s[38 + p + q] == '>'
            &&& s.subrange(39 + p + q, n) == body + "</replace_block>"@
            &&& s.subrange(0, 14) == "<replace_block"@
            &&& s.subrange(15, 21) == "path=\""@
            &&& s.subrange(23 + p, 37 + p) == "search_block=\""@
        }),
{
    reveal_strlit("<replace_block path=\"");
    reveal_strlit("\" search_block=\"");
    reveal_strlit("\">");
    reveal_strlit("</replace_block>");
    reveal_strlit("<replace_block");
    reveal_strlit("path=\"");
    reveal_strlit("search_block=\"");
    let s = replace_block_reply(path, search, body);
    let p = path.len() as int;
    let q = search.len() as int;
    let n = s.len() as int;
    assert(s.subrange(39 + p + q, n) =~= body + "</replace_block>"@);
    assert(s.subrange(0, 14) =~= "<replace_block"@);
    assert(s.subrange(15, 21) =~= "path=\""@);
    assert(s.subrange(23 + p, 37 + p) =~= "search_block=\""@);
}

/// A reply that is one `replace_block` tag, with attributes `path="P"` and
/// `search_block="S"` and body `B`, is read as one replace-block segment whose path is
/// `P`, whose search block is `S` (the attribute) and whose replacement is `B` (the body).
/// `P` and `S` hold no `"` or `>`, `P` does not end with `search_block=`, and `B` holds no
/// `</replace_block>` (nor one that would start inside it).
#[verifier::spinoff_prover]
pub proof fn lemma_replace_block_reads_attribute_and_body(
    path: Seq<char>,
    search: Seq<char>,
    body: Seq<char>,
)
    requires
        forall|k: int| 0 <= k < path.len() ==> #[trigger] path[k] != '"' && path[k] != '>',
        forall|k: int| 0 <= k < search.len() ==> #[trigger] search[k] != '"' && search[k] != '>',
        !(path.len() >= 13 && path.subrange(path.len() - 13, path.len() as int)
            == "search_block="@),
        forall|k: int|
            0 <= k < body.len() ==> !matches_at(
                #[trigger] (body + "</replace_block>"@),
                "</replace_block>"@,
                k,
            ),
    ensures
        segments(
            "<replace_block path=\""@ + path + "\" search_block=\""@ + search + "\">"@ + body
                + "</replace_block>"@,
        ) == seq![SegmentView::ReplaceBlock { path, search_block: search, replace_block: body }],
{
    let s = replace_block_reply(path, search, body);
    let p = path.len() as int;
    let q = search.len() as int;
    let n = s.len() as int;
    let c = 38 + p + q;
    lemma_replace_block_layout(path, search, body);
    reveal_strlit("<replace_block path=\"");
    reveal_strlit("\" search_block=\"");
    reveal_strlit("</replace_block>");
    reveal_strlit("<replace_block");
    reveal_strlit("<run_command");
    reveal_strlit("<read_file");
    reveal_strlit("<list_directory");
    reveal_strlit("<write_file");
    reveal_strlit("<apply_patch");
    reveal_strlit("<mcp_call_tool");
    reveal_strlit("<think>");
    reveal_strlit("path=\"");
    reveal_strlit("search_block=\"");
    reveal_strlit("search_block=");
    // The earliest marker is the tag at the start.
    lemma_find_first(s, "<replace_block"@, 0, n, 0);
    assert(markers(s, 0)[5] == Some(0int));
    lemma_first_marker_at_start(s, 5);
    lemma_find_not_here(s, "<run_command"@, 0, 2);
    lemma_find_not_here(s, "<read_file"@, 0, 3);
    lemma_find_not_here(s, "<list_directory"@, 0, 1);
    lemma_find_not_here(s, "<write_file"@, 0, 1);
    lemma_find_not_here(s, "<apply_patch"@, 0, 1);
    // The opening tag ends at the `>` after the search block.
    assert forall|k: int| 14 <= k < c implies s[k] != '>' by {
        if k < 21 {
        } else if k < 21 + p {
            assert(s[21 + (k - 21)] == path[k - 21]);
        } else if k < 37 + p {
            assert(s[21 + p + (k - 21 - p)] == "\" search_block=\""@[k - 21 - p]);
        } else if k < 37 + p + q {
            assert(s[37 + p + (k - 37 - p)] == search[k - 37 - p]);
        }
    }
    lemma_find_first_char(s, '>', 14, n, c);
    assert(open_tag(s, 0, "<replace_block"@) == Some((14int, c)));
    // The path attribute.
    lemma_find_not_here(s, "path=\""@, 14, 0);
    lemma_find_first(s, "path=\""@, 15, c, 15);
    assert(s[14] != 'p');
    assert(!matches_at(s, "path=\""@, 14)) by {
        if matches_at(s, "path=\""@, 14) {
            assert(s.subrange(14, 20)[0] == s[14]);
        }
    }
    lemma_find_first(s, "path=\""@, 14, c, 15);
    assert forall|k: int| 21 <= k < 21 + p implies s[k] != '"' by {
        assert(s[21 + (k - 21)] == path[k - 21]);
    }
    assert(s[21 + p + 0] == "\" search_block=\""@[0]);
    lemma_find_first_char(s, '"', 21, c, 21 + p);
    assert(s.subrange(21, 21 + p) =~= path);
    assert(attr_value(s, 14, c, "path=\""@) == Some(path));
    // The search-block attribute.
    let sb = "search_block=\""@;
    assert forall|k: int| 14 <= k < 23 + p implies !matches_at(s, sb, k) by {
        if matches_at(s, sb, k) {
            assert(s.subrange(k, k + 14)[13] == s[k + 13]);
            assert(s[k + 13] == '"');
            if k + 13 < 21 + p {
                assert(s[21 + (k + 13 - 21)] == path[k + 13 - 21]);
            } else if k + 13 > 21 + p {
                assert(s[21 + p + (k + 13 - 21 - p)] == "\" search_block=\""@[k + 13 - 21 - p]);
            } else if p >= 13 {
                assert(path.subrange(p - 13, p) =~= "search_block="@) by {
                    assert forall|t: int| 0 <= t < 13 implies path.subrange(p - 13, p)[t]
                        == "search_block="@[t] by {
                        assert(s.subrange(k, k + 14)[t] == s[k + t]);
                        assert(s[21 + (p - 13 + t)] == path[p - 13 + t]);
                    }
                }
            } else {
                assert(s.subrange(k, k + 14)[12 - p] == s[20]);
            }
        }
    }
    lemma_find_first(s, sb, 14, c, 23 + p);
    assert forall|k: int| 37 + p <= k < 37 + p + q implies s[k] != '"' by {
        assert(s[37 + p + (k - 37 - p)] == search[k - 37 - p]);
    }
    lemma_find_first_char(s, '"', 37 + p, c, 37 + p + q);
    assert(s.subrange(37 + p, 37 + p + q) =~= search);
    assert(attr_value(s, 14, c, sb) == Some(search));
    // The body runs to the closing tag.
    lemma_body_runs_to_close(s, c, "</replace_block>"@, body);
    let seg = SegmentView::ReplaceBlock { path, search_block: search, replace_block: body };
    assert(replace_block_tag(s, 0) == Some((seg, n)));
    assert(tag_at(s, 0) == Some((seg, n)));
    assert(segments_from(s, n) == Seq::<SegmentView>::empty());
    assert(segments(s) =~= seq![seg]);
}

/// The body of a tag whose `>` is at `c`, when the rest of the text is `body` and then the
/// closing tag, with no closing tag starting inside `body`.
proof fn lemma_body_runs_to_close(s: Seq<char>, c: int, end_tag: Seq<char>, body: Seq<char>)
    requires
        0 <= c,
        c + 1 + body.len() + end_tag.len() == s.len(),
        s.subrange(c + 1, s.len() as int) == body + end_tag,
        forall|k: int| 0 <= k < body.len() ==> !matches_at(#[trigger] (body + end_tag), end_tag, k),
    ensures
        tag_body(s, c, end_tag) == Some((c + 1, c + 1 + body.len(), s.len() as int)),
        s.subrange(c + 1, c + 1 + body.len()) == body,
{
    let n = s.len() as int;
    let st = c + 1;
    let tail = body + end_tag;
    let e = end_tag.len() as int;
    assert forall|k: int| st <= k < st + body.len() implies !matches_at(s, end_tag, k) by {
        if matches_at(s, end_tag, k) {
            assert(s.subrange(k, k + e) =~= tail.subrange(k - st, k - st + e)) by {
                assert forall|t: int| 0 <= t < e implies #[trigger] s.subrange(k, k + e)[t]
                    == tail.subrange(k - st, k - st + e)[t] by {
                    assert(s.subrange(st, n)[k - st + t] == s[k + t]);
                }
            }
            assert(matches_at(tail, end_tag, k - st));
        }
    }
    assert(s.subrange(st + body.len(), n) =~= end_tag) by {
        assert forall|t: int| 0 <= t < e implies #[trigger] s.subrange(st + body.len(), n)[t]
            == end_tag[t] by {
            assert(s.subrange(st, n)[body.len() + t] == s[st + body.len() + t]);
        }
    }
    lemma_find_first(s, end_tag, st, n, st + body.len());
    assert(s.subrange(st, st + body.len()) =~= body) by {
        assert forall|t: int| 0 <= t < body.len() implies #[trigger] s.subrange(
            st,
            st + body.len(),
        )[t] == body[t] by {
            assert(s.subrange(st, n)[t] == s[st + t]);
        }
    }
}

/// The text of a reply that is one tag opened by `open` with one `path` attribute.
spec fn path_tag_reply(open: Seq<char>, path: Seq<char>, body: Seq<char>, end_tag: Seq<char>) -> Seq<char> {
    open + " path=\""@ + path + "\">"@ + body + end_tag
}

/// Reading the opening tag, `path` attribute and body of a one-tag reply whose tag has
/// only a `path` attribute.
proof fn lemma_path_tag_parts(open: Seq<char>, path: Seq<char>, body: Seq<char>, end_tag: Seq<char>)
    requires
        open.len() > 0,
        forall|k: int| 0 <= k < open.len() ==> #[trigger] open[k] != '>',
        forall|k: int| 0 <= k < path.len() ==> #[trigger] path[k] != '"' && path[k] != '>',
        forall|k: int| 0 <= k < body.len() ==> !matches_at(#[trigger] (body + end_tag), end_tag, k),
    ensures
        ({
            let s = path_tag_reply(open, path, body, end_tag);
            let o = open.len() as int;
            let c = o + 8 + path.len();
            &&& open_tag(s, 0, open) == Some((o, c))
            &&& attr_value(s, o, c, "path=\""@) == Some(path)
            &&& tag_body(s, c, end_tag) == Some((c + 1, c + 1 + body.len(), s.len() as int))
            &&& s.subrange(c + 1, c + 1 + body.len()) == body
            &&& matches_at(s, open, 0)
        }),
{
    reveal_strlit(" path=\"");
    reveal_strlit("path=\"");
    reveal_strlit("\">");
    let s = path_tag_reply(open, path, body, end_tag);
    let o = open.len() as int;
    let p = path.len() as int;
    let c = o + 8 + p;
    let n = s.len() as int;
    assert(s.subrange(0, o) =~= open);
    assert forall|k: int| 0 <= k < p implies #[trigger] s[o + 7 + k] == path[k] by {}
    assert forall|k: int| o <= k < c implies s[k] != '>' by {
        if k >= o + 7 && k < o + 7 + p {
            assert(s[o + 7 + (k - o - 7)] == path[k - o - 7]);
        }
    }
    assert(s[c] == '>');
    lemma_find_first_char(s, '>', o, n, c);
    assert(s.subrange(o + 1, o + 7) =~= "path=\""@);
    assert(!matches_at(s, "path=\""@, o)) by {
        if matches_at(s, "path=\""@, o) {
            assert(s.subrange(o, o + 6)[0] == s[o]);
        }
    }
    lemma_find_first(s, "path=\""@, o, c, o + 1);
    assert forall|k: int| o + 7 <= k < o + 7 + p implies s[k] != '"' by {
        assert(s[o + 7 + (k - o - 7)] == path[k - o - 7]);
    }
    lemma_find_first_char(s, '"', o + 7, c, o + 7 + p);
    assert(s.subrange(o + 7, o + 7 + p) =~= path);
    assert(s.subrange(c + 1, n) =~= body + end_tag);
    lemma_body_runs_to_close(s, c, end_tag, body);
}

/// The earliest marker of a reply whose `k`-th marker is found at its start is there.
proof fn lemma_first_marker_at_start(s: Seq<char>, k: int)
    requires
        0 <= k < 9,
        markers(s, 0)[k] == Some(0int),
    ensures
        min_marker(markers(s, 0)) == Some(0int),
{
    let n = s.len() as int;
    let m = markers(s, 0);
    lemma_find_bounds(s, "<run_command"@, 0, n);
    lemma_find_bounds(s, "<read_file"@, 0, n);
    lemma_find_bounds(s, "<list_directory"@, 0, n);
    lemma_find_bounds(s, "<write_file"@, 0, n);
    lemma_find_bounds(s, "<apply_patch"@, 0, n);
    lemma_find_bounds(s, "<replace_block"@, 0, n);
    lemma_find_bounds(s, "<mcp_call_tool"@, 0, n);
    lemma_find_bounds(s, "<think>"@, 0, n);
    lemma_find_bounds(s, "```"@, 0, n);
    assert forall|i: int| 0 <= i < m.len() implies (#[trigger] m[i] matches Some(j) ==> 0 <= j
        <= n) by {}
    lemma_min_marker_in(m, 0, n);
}

/// A reply that is one `write_file` tag with attribute `path="P"` and body `B` is read as
/// one write-file segment whose path is `P` and whose content is `B`. `P` holds no `"`
/// or `>`, and `B` holds no `</write_file>` (nor one that would start inside it).
pub proof fn lemma_write_file_reads_path_and_body(path: Seq<char>, body: Seq<char>)
    requires
        forall|k: int| 0 <= k < path.len() ==> #[trigger] path[k] != '"' && path[k] != '>',
        forall|k: int|
            0 <= k < body.len() ==> !matches_at(#[trigger] (body + "</write_file>"@), "</write_file>"@, k),
    ensures
        segments("<write_file path=\""@ + path + "\">"@ + body + "</write_file>"@) == seq![
            SegmentView::WriteFile { path, content: body },
        ],
{
    reveal_strlit("<write_file path=\"");
    reveal_strlit("<write_file");
    reveal_strlit(" path=\"");
    reveal_strlit("<run_command");
    reveal_strlit("<read_file");
    reveal_strlit("<list_directory");
    let open = "<write_file"@;
    let end_tag = "</write_file>"@;
    let s = path_tag_reply(open, path, body, end_tag);
    assert(s =~= "<write_file path=\""@ + path + "\">"@ + body + "</write_file>"@);
    lemma_path_tag_parts(open, path, body, end_tag);
    let n = s.len() as int;
    lemma_find_first(s, open, 0, n, 0);
    assert(markers(s, 0)[3] == Some(0int));
    lemma_first_marker_at_start(s, 3);
    lemma_find_not_here(s, "<run_command"@, 0, 1);
    lemma_find_not_here(s, "<read_file"@, 0, 1);
    lemma_find_not_here(s, "<list_directory"@, 0, 1);
    let seg = SegmentView::WriteFile { path, content: body };
    assert(tag_at(s, 0) == Some((seg, n)));
    assert(segments_from(s, n) == Seq::<SegmentView>::empty());
    assert(segments(s) =~= seq![seg]);
}

/// A reply that is one `apply_patch` tag with attribute `path="P"` and body `B` is read
/// as one apply-patch segment whose path is `P` and whose patch is `B`. `P` holds no `"`
/// or `>`, and `B` holds no `</apply_patch>` (nor one that would start inside it).
pub proof fn lemma_apply_patch_reads_path_and_body(path: Seq<char>, body: Seq<char>)
    requires
        forall|k: int| 0 <= k < path.len() ==> #[trigger] path[k] != '"' && path[k] != '>',
        forall|k: int|
            0 <= k < body.len() ==> !matches_at(#[trigger] (body + "</apply_patch>"@), "</apply_patch>"@, k),
    ensures
        segments("<apply_patch path=\""@ + path + "\">"@ + body + "</apply_patch>"@) == seq![
            SegmentView::ApplyPatch { path, patch: body },
        ],
{
    reveal_strlit("<apply_patch path=\"");
    reveal_strlit("<apply_patch");
    reveal_strlit(" path=\"");
    reveal_strlit("<run_command");
    reveal_strlit("<read_file");
    reveal_strlit("<list_directory");
    reveal_strlit("<write_file");
    let open = "<apply_patch"@;
    let end_tag = "</apply_patch>"@;
    let s = path_tag_reply(open, path, body, end_tag);
    assert(s =~= "<apply_patch path=\""@ + path + "\">"@ + body + "</apply_patch>"@);
    lemma_path_tag_parts(open, path, body, end_tag);
    let n = s.len() as int;
    lemma_find_first(s, open, 0, n, 0);
    assert(markers(s, 0)[4] == Some(0int));
    lemma_first_marker_at_start(s, 4);
    lemma_find_not_here(s, "<run_command"@, 0, 1);
    lemma_find_not_here(s, "<read_file"@, 0, 1);
    lemma_find_not_here(s, "<list_directory"@, 0, 1);
    lemma_find_not_here(s, "<write_file"@, 0, 1);
    let seg = SegmentView::ApplyPatch { path, patch: body };
    assert(tag_at(s, 0) == Some((seg, n)));
    assert(segments_from(s, n) == Seq::<SegmentView>::empty());
    assert(segments(s) =~= seq![seg]);
}

/// The text of a reply that is one `mcp_call_tool` tag.
spec fn mcp_call_reply(server: Seq<char>, tool: Seq<char>, body: Seq<char>) -> Seq<char> {
    "<mcp_call_tool server_name=\""@ + server + "\" tool_name=\""@ + tool + "\">"@ + body
        + "</mcp_call_tool>"@
}

/// Where the parts of a one-tag `mcp_call_tool` reply stand in its text.
proof fn lemma_mcp_call_layout(server: Seq<char>, tool: Seq<char>, body: Seq<char>)
    ensures
        ({
            let s = mcp_call_reply(server, tool, body);
            let a = server.len() as int;
            let t = tool.len() as int;
            let n = s.len() as int;
            &&& n == 59 + a + t + body.len()
            &&& forall|k: int| 0 <= k < 28 ==> s[k] == #[trigger] "<mcp_call_tool server_name=\""@[k]
            &&& forall|k: int| 0 <= k < a ==> s[28 + k] == #[trigger] server[k]
            &&& forall|k: int| 0 <= k < 13 ==> s[28 + a + k] == #[trigger] "\" tool_name=\""@[k]
            &&& forall|k: int| 0 <= k < t ==> s[41 + a + k] == #[trigger] tool[k]
            &&& s[41 + a + t] == '"'
            &&& s[42 + a + t] == '>'
            &&& s.subrange(43 + a + t, n) == body + "</mcp_call_tool>"@
            &&& s.subrange(0, 14) == "<mcp_call_tool"@
            &&& s.subrange(15, 28) == "server_name=\""@
            &&& s.subrange(30 + a, 41 + a) == "tool_name=\""@
        }),
{
    reveal_strlit("<mcp_call_tool server_name=\"");
    reveal_strlit("\" tool_name=\"");
    reveal_strlit("\">");
    reveal_strlit("</mcp_call_tool>");
    reveal_strlit("<mcp_call_tool");
    reveal_strlit("server_name=\"");
    reveal_strlit("tool_name=\"");
    let s = mcp_call_reply(server, tool, body);
    let a = server.len() as int;
    let t = tool.len() as int;
    let n = s.len() as int;
    assert(s.subrange(43 + a + t, n) =~= body + "</mcp_call_tool>"@);
    assert(s.subrange(0, 14) =~= "<mcp_call_tool"@);
    assert(s.subrange(15, 28) =~= "server_name=\""@);
    assert(s.subrange(30 + a, 41 + a) =~= "tool_name=\""@);
}

/// A reply that is one `mcp_call_tool` tag, with attributes `server_name="A"` and
/// `tool_name="T"` and a body `B` whose trimmed text is a JSON document, is read as one
/// tool-call segment whose server is `A`, whose tool is `T` and whose arguments are `B`
/// trimmed. `A` and `T` hold no `"` or `>`, `A` does not end with `tool_name=`, and `B`
/// holds no `</mcp_call_tool>` (nor one that would start inside it).
#[verifier::spinoff_prover]
pub proof fn lemma_mcp_call_reads_server_tool_and_arguments(
    server: Seq<char>,
    tool: Seq<char>,
    body: Seq<char>,
)
    requires
        forall|k: int| 0 <= k < server.len() ==> #[trigger] server[k] != '"' && server[k] != '>',
        forall|k: int| 0 <= k < tool.len() ==> #[trigger] tool[k] != '"' && tool[k] != '>',
        !(server.len() >= 10 && server.subrange(server.len() - 10, server.len() as int)
            == "tool_name="@),
        forall|k: int|
            0 <= k < body.len() ==> !matches_at(
                #[trigger] (body + "</mcp_call_tool>"@),
                "</mcp_call_tool>"@,
                k,
            ),
        json_accepts(trim(body)),
    ensures
        segments(
            "<mcp_call_tool server_name=\""@ + server + "\" tool_name=\""@ + tool + "\">"@ + body
                + "</mcp_call_tool>"@,
        ) == seq![
            SegmentView::McpCallTool { server_name: server, tool_name: tool, arguments: trim(body) },
        ],
{
    let s = mcp_call_reply(server, tool, body);
    let a = server.len() as int;
    let t = tool.len() as int;
    let n = s.len() as int;
    let c = 42 + a + t;
    lemma_mcp_call_layout(server, tool, body);
    reveal_strlit("<mcp_call_tool server_name=\"");
    reveal_strlit("\" tool_name=\"");
    reveal_strlit("<mcp_call_tool");
    reveal_strlit("<run_command");
    reveal_strlit("<read_file");
    reveal_strlit("<list_directory");
    reveal_strlit("<write_file");
    reveal_strlit("<apply_patch");
    reveal_strlit("<replace_block");
    reveal_strlit("server_name=\"");
    reveal_strlit("tool_name=\"");
    reveal_strlit("tool_name=");
    reveal_strlit("</mcp_call_tool>");
    lemma_find_first(s, "<mcp_call_tool"@, 0, n, 0);
    assert(markers(s, 0)[6] == Some(0int));
    lemma_first_marker_at_start(s, 6);
    lemma_find_not_here(s, "<run_command"@, 0, 1);
    lemma_find_not_here(s, "<read_file"@, 0, 1);
    lemma_find_not_here(s, "<list_directory"@, 0, 1);
    lemma_find_not_here(s, "<write_file"@, 0, 1);
    lemma_find_not_here(s, "<apply_patch"@, 0, 1);
    lemma_find_not_here(s, "<replace_block"@, 0, 1);
    // The opening tag ends at the `>` after the tool name.
    assert forall|k: int| 14 <= k < c implies s[k] != '>' by {
        if k < 28 {
        } else if k < 28 + a {
            assert(s[28 + (k - 28)] == server[k - 28]);
        } else if k < 41 + a {
            assert(s[28 + a + (k - 28 - a)] == "\" tool_name=\""@[k - 28 - a]);
        } else if k < 41 + a + t {
            assert(s[41 + a + (k - 41 - a)] == tool[k - 41 - a]);
        }
    }
    lemma_find_first_char(s, '>', 14, n, c);
    assert(open_tag(s, 0, "<mcp_call_tool"@) == Some((14int, c)));
    // The server name.
    assert(!matches_at(s, "server_name=\""@, 14)) by {
        if matches_at(s, "server_name=\""@, 14) {
            assert(s.subrange(14, 27)[0] == s[14]);
        }
    }
    lemma_find_first(s, "server_name=\""@, 14, c, 15);
    assert forall|k: int| 28 <= k < 28 + a implies s[k] != '"' by {
        assert(s[28 + (k - 28)] == server[k - 28]);
    }
    assert(s[28 + a + 0] == "\" tool_name=\""@[0]);
    lemma_find_first_char(s, '"', 28, c, 28 + a);
    assert(s.subrange(28, 28 + a) =~= server);
    assert(attr_value(s, 14, c, "server_name=\""@) == Some(server));
    // The tool name.
    let tn = "tool_name=\""@;
    assert forall|k: int| 14 <= k < 30 + a implies !matches_at(s, tn, k) by {
        if matches_at(s, tn, k) {
            assert(s.subrange(k, k + 11)[10] == s[k + 10]);
            assert(s[k + 10] == '"');
            if k + 10 < 28 {
                assert(s.subrange(k, k + 11)[0] == s[k]);
            } else if k + 10 < 28 + a {
                assert(s[28 + (k + 10 - 28)] == server[k + 10 - 28]);
            } else if k + 10 > 28 + a {
                assert(s[28 + a + (k + 10 - 28 - a)] == "\" tool_name=\""@[k + 10 - 28 - a]);
            } else if a >= 10 {
                assert(server.subrange(a - 10, a) =~= "tool_name="@) by {
                    assert forall|i: int| 0 <= i < 10 implies #[trigger] server.subrange(a - 10, a)[i]
                        == "tool_name="@[i] by {
                        assert(s.subrange(k, k + 11)[i] == s[k + i]);
                        assert(s[28 + (a - 10 + i)] == server[a - 10 + i]);
                    }
                }
            } else {
                assert(s.subrange(k, k + 11)[9 - a] == s[27]);
            }
        }
    }
    lemma_find_first(s, tn, 14, c, 30 + a);
    assert forall|k: int| 41 + a <= k < 41 + a + t implies s[k] != '"' by {
        assert(s[41 + a + (k - 41 - a)] == tool[k - 41 - a]);
    }
    lemma_find_first_char(s, '"', 41 + a, c, 41 + a + t);
    assert(s.subrange(41 + a, 41 + a + t) =~= tool);
    assert(attr_value(s, 14, c, tn) == Some(tool));
    lemma_body_runs_to_close(s, c, "</mcp_call_tool>"@, body);
    let seg = SegmentView::McpCallTool { server_name: server, tool_name: tool, arguments: trim(body) };
    assert(mcp_call_tool_tag(s, 0) == Some((seg, n)));
    assert(tag_at(s, 0) == Some((seg, n)));
    assert(segments_from(s, n) == Seq::<SegmentView>::empty());
    assert(segments(s) =~= seq![seg]);
}

/// A reply that is one `list_directory` tag with attribute `path="P"` and an empty body is
/// read as one list-directory segment for `P`, which holds no `"` or `>`.
pub proof fn lemma_list_directory_reads_path(path: Seq<char>)
    requires
        forall|k: int| 0 <= k < path.len() ==> #[trigger] path[k] != '"' && path[k] != '>',
    ensures
        segments("<list_directory path=\""@ + path + "\"></list_directory>"@) == seq![
            SegmentView::ListDirectory { path },
        ],
{
    reveal_strlit("<list_directory path=\"");
    reveal_strlit("\"></list_directory>");
    reveal_strlit("\">");
    reveal_strlit("<list_directory");
    reveal_strlit("</list_directory>");
    reveal_strlit(" path=\"");
    reveal_strlit("<run_command");
    reveal_strlit("<read_file");
    let open = "<list_directory"@;
    let end_tag = "</list_directory>"@;
    let body = Seq::<char>::empty();
    let s = path_tag_reply(open, path, body, end_tag);
    assert(s =~= "<list_directory path=\""@ + path + "\"></list_directory>"@);
    lemma_path_tag_parts(open, path, body, end_tag);
    let n = s.len() as int;
    lemma_find_first(s, open, 0, n, 0);
    assert(markers(s, 0)[2] == Some(0int));
    lemma_first_marker_at_start(s, 2);
    lemma_find_not_here(s, "<run_command"@, 0, 1);
    lemma_find_not_here(s, "<read_file"@, 0, 1);
    let c = open.len() + 8 + path.len() as int;
    assert(s.subrange(c + 1, c + 1) =~= Seq::<char>::empty());
    assert(trim(Seq::<char>::empty()).len() == 0) by {
        assert(crate::text::trim_start(Seq::<char>::empty()) =~= Seq::<char>::empty());
    }
    let seg = SegmentView::ListDirectory { path };
    assert(tag_at(s, 0) == Some((seg, n)));
    assert(segments_from(s, n) == Seq::<SegmentView>::empty());
    assert(segments(s) =~= seq![seg]);
}

/// A reply that is one `run_command` tag with no attributes and body `C` is read as one
/// command segment running `C` trimmed, with the default timeout of 30 seconds. `C` holds
/// no `</run_command>` (nor one that would start inside it).
pub proof fn lemma_run_command_reads_body_with_default_timeout(body: Seq<char>)
    requires
        forall|k: int|
            0 <= k < body.len() ==> !matches_at(#[trigger] (body + "</run_command>"@), "</run_command>"@, k),
    ensures
        segments("<run_command>"@ + body + "</run_command>"@) == seq![
            SegmentView::RunCommand { command: trim(body), timeout_ms: 30000 },
        ],
{
    reveal_strlit("<run_command>");
    reveal_strlit("<run_command");
    reveal_strlit("</run_command>");
    reveal_strlit("timeout_ms=\"");
    let s = "<run_command>"@ + body + "</run_command>"@;
    let n = s.len() as int;
    let open = "<run_command"@;
    assert(s.subrange(0, 12) =~= open);
    lemma_find_first(s, open, 0, n, 0);
    assert(markers(s, 0)[0] == Some(0int));
    lemma_first_marker_at_start(s, 0);
    assert(s[12] == '>');
    lemma_find_first_char(s, '>', 12, n, 12);
    assert(open_tag(s, 0, open) == Some((12int, 12int)));
    assert(attr_value(s, 12, 12, "timeout_ms=\""@) is None);
    assert(s.subrange(13, n) =~= body + "</run_command>"@);
    lemma_body_runs_to_close(s, 12, "</run_command>"@, body);
    let seg = SegmentView::RunCommand { command: trim(body), timeout_ms: 30000 };
    assert(tag_at(s, 0) == Some((seg, n)));
    assert(segments_from(s, n) == Seq::<SegmentView>::empty());
    assert(segments(s) =~= seq![seg]);
}

/// A reply that is one reasoning block `<think>T</think>` is read as one reasoning
/// segment holding `T`, which holds no `</think>` (nor one that would start inside it).
pub proof fn lemma_think_block_reads_its_text(text: Seq<char>)
    requires
        forall|k: int| 0 <= k < text.len() ==> !matches_at(#[trigger] (text + "</think>"@), "</think>"@, k),
    ensures
        segments("<think>"@ + text + "</think>"@) == seq![SegmentView::Think(text)],
{
    reveal_strlit("<think>");
    reveal_strlit("</think>");
    reveal_strlit("<run_command");
    reveal_strlit("<read_file");
    reveal_strlit("<list_directory");
    reveal_strlit("<write_file");
    reveal_strlit("<apply_patch");
    reveal_strlit("<replace_block");
    reveal_strlit("<mcp_call_tool");
    let s = "<think>"@ + text + "</think>"@;
    let n = s.len() as int;
    assert(s.subrange(0, 7) =~= "<think>"@);
    lemma_find_first(s, "<think>"@, 0, n, 0);
    assert(markers(s, 0)[7] == Some(0int));
    lemma_first_marker_at_start(s, 7);
    lemma_find_not_here(s, "<run_command"@, 0, 1);
    lemma_find_not_here(s, "<read_file"@, 0, 1);
    lemma_find_not_here(s, "<list_directory"@, 0, 1);
    lemma_find_not_here(s, "<write_file"@, 0, 1);
    lemma_find_not_here(s, "<apply_patch"@, 0, 1);
    lemma_find_not_here(s, "<replace_block"@, 0, 1);
    lemma_find_not_here(s, "<mcp_call_tool"@, 0, 1);
    assert(s.subrange(7, n) =~= text + "</think>"@);
    lemma_body_runs_to_close(s, 6, "</think>"@, text);
    assert(tag_at(s, 0) == Some((SegmentView::Think(text), n)));
    assert(segments_from(s, n) == Seq::<SegmentView>::empty());
    assert(segments(s) =~= seq![SegmentView::Think(text)]);
}

/// A reply that is one fenced code block, "```" then the language line `L`, a newline,
/// the code `C` and the closing "```", is read as one code segment whose language is `L`
/// trimmed and whose body is `C`. `L` holds no newline, and `C` holds no "```" (nor one
/// that would start inside it).
pub proof fn lemma_code_block_reads_language_and_body(language: Seq<char>, code: Seq<char>)
    requires
        forall|k: int| 0 <= k < language.len() ==> #[trigger] language[k] != '\n',
        forall|k: int| 0 <= k < code.len() ==> !matches_at(#[trigger] (code + "```"@), "```"@, k),
    ensures
        segments("```"@ + language + "\n"@ + code + "```"@) == seq![
            SegmentView::Code { language: trim(language), body: code },
        ],
{
    reveal_strlit("```");
    reveal_strlit("\n");
    reveal_strlit("<run_command");
    reveal_strlit("<read_file");
    reveal_strlit("<list_directory");
    reveal_strlit("<write_file");
    reveal_strlit("<apply_patch");
    reveal_strlit("<replace_block");
    reveal_strlit("<mcp_call_tool");
    reveal_strlit("<think>");
    let s = "```"@ + language + "\n"@ + code + "```"@;
    let n = s.len() as int;
    let l = language.len() as int;
    assert(s.subrange(0, 3) =~= "```"@);
    lemma_find_first(s, "```"@, 0, n, 0);
    assert(markers(s, 0)[8] == Some(0int));
    lemma_first_marker_at_start(s, 8);
    lemma_find_not_here(s, "<run_command"@, 0, 0);
    lemma_find_not_here(s, "<read_file"@, 0, 0);
    lemma_find_not_here(s, "<list_directory"@, 0, 0);
    lemma_find_not_here(s, "<write_file"@, 0, 0);
    lemma_find_not_here(s, "<apply_patch"@, 0, 0);
    lemma_find_not_here(s, "<replace_block"@, 0, 0);
    lemma_find_not_here(s, "<mcp_call_tool"@, 0, 0);
    lemma_find_not_here(s, "<think>"@, 0, 0);
    assert forall|k: int| 3 <= k < 3 + l implies s[k] != '\n' by {
        assert(s[k] == language[k - 3]);
    }
    lemma_find_first_char(s, '\n', 3, n, 3 + l);
    assert(s.subrange(3, 3 + l) =~= language);
    assert(s.subrange(4 + l, n) =~= code + "```"@);
    lemma_body_runs_to_close(s, 3 + l, "```"@, code);
    let seg = SegmentView::Code { language: trim(language), body: code };
    assert(code_block(s, 0) == (seg, n));
    assert(tag_at(s, 0) == Some((seg, n)));
    assert(segments_from(s, n) == Seq::<SegmentView>::empty());
    assert(segments(s) =~= seq![seg]);
}

} // verus!
