//! How the segments of an assistant reply are laid out as lines of styled text: code in a
//! numbered box, tool calls in labelled boxes. Styles are named by their role; the theme
//! gives each role its colours.
use vstd::prelude::*;
use crate::glyphs::TermColor;
use crate::patch::{lines, lines_view, split_lines};
use crate::text::{chars_of, decimal, decimal_exec, push_chars, push_str, string_of};
use crate::transcript::{
    json_accepts, AssistantSegment, ReadFileRange, SegmentRenderOptions, SegmentView,
    TranscriptSurface, segments_view,
};

verus! {

/// An RGB colour.
#[derive(Debug, Clone, Copy, PartialEq, Eq, Structural)]
pub struct Rgb {
    pub r: u8,
    pub g: u8,
    pub b: u8,
}

/// The role a span's style plays; the theme maps each role to colours.
#[derive(Debug, Clone, Copy, PartialEq, Eq, Structural)]
pub enum SpanStyle {
    /// The default style.
    Plain,
    /// Reply text, in the text colour.
    Text,
    /// The frame of a code box, in the faint text colour on the code background.
    CodeBorder,
    /// A line number of a code box, bold and muted on the code background.
    CodeGutter,
    /// Blank space inside a code box, on the code background.
    CodeFill,
    /// A highlighted piece of code on the code background, in the given colour, or in the
    /// text colour where there is none.
    CodeToken(Option<Rgb>),
    /// The frame of a command box, in the success colour.
    Command,
    /// A command line, in the text colour on the code-block background.
    CommandLine,
    /// The frame of a tool box, bold in the success colour.
    Label,
    /// The value of a tool's field, in the faint text colour.
    FieldValue,
    /// The body of a tool box, in the text colour on the code-block background.
    Body,
}

/// A piece of a rendered line: its text and the role of its style.
#[derive(Debug, Clone)]
pub struct StyledSpan {
    pub text: String,
    pub style: SpanStyle,
}

/// A rendered line: styled spans, or the reasoning of a `<think>` block, which the
/// reasoning ledger lays out.
#[derive(Debug, Clone)]
pub enum RenderedLine {
    Spans(Vec<StyledSpan>),
    ReasonLedger(String),
}

/// The value of a [`RenderedLine`].
pub enum LineView {
    Spans(Seq<(Seq<char>, SpanStyle)>),
    ReasonLedger(Seq<char>),
}

/// The text and style of each span.
pub open spec fn span_views(v: Seq<StyledSpan>) -> Seq<(Seq<char>, SpanStyle)> {
    v.map_values(|s: StyledSpan| (s.text@, s.style))
}

impl View for RenderedLine {
    type V = LineView;

    open spec fn view(&self) -> LineView {
        match self {
            RenderedLine::Spans(v) => LineView::Spans(span_views(v@)),
            RenderedLine::ReasonLedger(t) => LineView::ReasonLedger(t@),
        }
    }
}

/// The values of a sequence of rendered lines.
pub open spec fn line_views(v: Seq<RenderedLine>) -> Seq<LineView> {
    v.map_values(|l: RenderedLine| l@)
}

/// A piece of highlighted code and the colour the highlighter gave it.
#[derive(Debug, Clone)]
pub struct CodeToken {
    pub text: String,
    pub fg: TermColor,
}

/// The text and colour of each token of a line.
pub open spec fn tokens_view(v: Seq<CodeToken>) -> Seq<(Seq<char>, TermColor)> {
    v.map_values(|t: CodeToken| (t.text@, t.fg))
}

/// The text and colour of each token of each line.
pub open spec fn token_lines_view(v: Seq<Vec<CodeToken>>) -> Seq<Seq<(Seq<char>, TermColor)>> {
    v.map_values(|l: Vec<CodeToken>| tokens_view(l@))
}

// ---------------------------------------------------------------------------
// Colours.
// ---------------------------------------------------------------------------

/// One channel of a highlighter colour, lifted so that it reads on a dark background:
/// dark channels are raised a lot, middle ones less, bright ones dimmed slightly.
pub open spec fn lift(c: u8) -> u8 {
    if c <= 40 {
        (c + 180) as u8
    } else if c <= 80 {
        (c + 120) as u8
    } else if c <= 140 {
        (c + 60) as u8
    } else if c <= 230 {
        (c - 20) as u8
    } else {
        255
    }
}

/// The colour a highlighted token is drawn in: an RGB colour lifted channel by channel,
/// or `None`, the text colour, for any other colour or where the lifted colour is black.
pub open spec fn code_token_color(fg: TermColor) -> Option<Rgb> {
    match fg {
        TermColor::Rgb(r, g, b) => {
            let lifted = Rgb { r: lift(r), g: lift(g), b: lift(b) };
            if lifted == (Rgb { r: 0, g: 0, b: 0 }) {
                None
            } else {
                Some(lifted)
            }
        },
        _ => None,
    }
}

/// One channel of a highlighter colour, lifted.
pub fn lift_channel(c: u8) -> (r: u8)
    ensures
        r == lift(c),
{
    if c <= 40 {
        c + 180
    } else if c <= 80 {
        c + 120
    } else if c <= 140 {
        c + 60
    } else if c <= 230 {
        c - 20
    } else {
        255
    }
}

/// The colour a highlighted token is drawn in.
pub fn high_contrast_code_color(fg: TermColor) -> (r: Option<Rgb>)
    ensures
        r == code_token_color(fg),
{
    match fg {
        TermColor::Rgb(r, g, b) => {
            let lifted = Rgb { r: lift_channel(r), g: lift_channel(g), b: lift_channel(b) };
            if lifted.r == 0 && lifted.g == 0 && lifted.b == 0 {
                None
            } else {
                Some(lifted)
            }
        },
        _ => None,
    }
}

/// The background of code boxes on a surface: the theme's code-block background in the
/// shell feed; in the chat pane an RGB background is darkened a little.
pub open spec fn code_background(code_block_bg: TermColor, surface: TranscriptSurface) -> TermColor {
    if surface == TranscriptSurface::Shell {
        code_block_bg
    } else {
        match code_block_bg {
            TermColor::Rgb(r, g, b) => TermColor::Rgb(
                (if r >= 14 { r - 14 } else { 0 }) as u8,
                (if g >= 12 { g - 12 } else { 0 }) as u8,
                (if b >= 8 { b - 8 } else { 0 }) as u8,
            ),
            other => other,
        }
    }
}

/// The background of code boxes on a surface.
pub fn code_block_background(code_block_bg: TermColor, surface: TranscriptSurface) -> (r: TermColor)
    ensures
        r == code_background(code_block_bg, surface),
{
    if surface == TranscriptSurface::Shell {
        return code_block_bg;
    }
    match code_block_bg {
        TermColor::Rgb(r, g, b) => TermColor::Rgb(
            r.saturating_sub(14),
            g.saturating_sub(12),
            b.saturating_sub(8),
        ),
        other => other,
    }
}

// ---------------------------------------------------------------------------
// The layout.
// ---------------------------------------------------------------------------

/// `n` spaces.
pub open spec fn spaces(n: int) -> Seq<char> {
    Seq::new(n as nat, |i: int| ' ')
}

/// `s` right-aligned in a field `width` characters wide, as `{:>width$}` formats it.
pub open spec fn pad_left(s: Seq<char>, width: int) -> Seq<char> {
    if s.len() < width {
        spaces(width - s.len()) + s
    } else {
        s
    }
}

/// The padding span that starts a line.
pub open spec fn pad_span(lp: Seq<char>) -> (Seq<char>, SpanStyle) {
    (lp, SpanStyle::Plain)
}

/// The rule that closes a box.
pub open spec fn box_rule() -> Seq<char> {
    "└────────────"@
}

/// The width of the line-number gutter of a code box for `body`: the digits of its line
/// count (at least one line), at least two, plus three.
pub open spec fn gutter_width(body: Seq<char>) -> int {
    let n: nat = if lines(body).len() >= 1 {
        lines(body).len()
    } else {
        1
    };
    let digits = decimal(n).len() as int;
    (if digits >= 2 {
        digits
    } else {
        2
    }) + 3
}

/// The label of a code box: the fence's language, or `code` where it names none.
pub open spec fn code_label(language: Seq<char>) -> Seq<char> {
    if language.len() == 0 {
        "code"@
    } else {
        language
    }
}

/// The spans of a highlighted line of code: its tokens, or a blank where it has none.
pub open spec fn token_spans(tokens: Seq<(Seq<char>, TermColor)>) -> Seq<(Seq<char>, SpanStyle)> {
    if tokens.len() == 0 {
        seq![(" "@, SpanStyle::CodeFill)]
    } else {
        tokens.map_values(|t: (Seq<char>, TermColor)| (t.0, SpanStyle::CodeToken(code_token_color(t.1))))
    }
}

/// Line `i` (from zero) of a code box: a bar, its number right-aligned in the gutter,
/// then its tokens.
pub open spec fn code_row(lp: Seq<char>, i: int, gw: int, tokens: Seq<(Seq<char>, TermColor)>) -> LineView {
    LineView::Spans(
        seq![
            pad_span(lp),
            ("│"@, SpanStyle::CodeFill),
            (" "@ + pad_left(decimal((i + 1) as nat), gw - 1) + " "@, SpanStyle::CodeGutter),
        ] + token_spans(tokens),
    )
}

/// A box of code: a header with its label, one numbered row per highlighted line (a
/// single row numbered 1 where there is none), and a closing rule.
pub open spec fn code_box(
    lp: Seq<char>,
    language: Seq<char>,
    body: Seq<char>,
    tokens: Seq<Seq<(Seq<char>, TermColor)>>,
) -> Seq<LineView> {
    let gw = gutter_width(body);
    let rows = if tokens.len() == 0 {
        seq![
            LineView::Spans(
                seq![
                    pad_span(lp),
                    (pad_left("1"@, gw) + " "@, SpanStyle::CodeGutter),
                    (" "@, SpanStyle::CodeFill),
                ],
            ),
        ]
    } else {
        Seq::new(tokens.len(), |i: int| code_row(lp, i, gw, tokens[i]))
    };
    seq![
        LineView::Spans(
            seq![pad_span(lp), ("┌── "@ + code_label(language) + " "@, SpanStyle::CodeBorder)],
        ),
    ] + rows + seq![LineView::Spans(seq![pad_span(lp), (box_rule(), SpanStyle::CodeBorder)])]
}

/// A line of reply text, after the padding.
pub open spec fn text_row(lp: Seq<char>, l: Seq<char>) -> LineView {
    LineView::Spans(seq![pad_span(lp), (l, SpanStyle::Text)])
}

/// The lines of reply text.
pub open spec fn text_block(lp: Seq<char>, text: Seq<char>) -> Seq<LineView> {
    lines(text).map_values(|l: Seq<char>| text_row(lp, l))
}

/// A line of a command, after a prompt.
pub open spec fn command_row(lp: Seq<char>, l: Seq<char>) -> LineView {
    LineView::Spans(seq![(lp + "│ $ "@, SpanStyle::Command), (l, SpanStyle::CommandLine)])
}

/// A command box: a header, each line of the command, a closing rule.
pub open spec fn command_box(lp: Seq<char>, command: Seq<char>) -> Seq<LineView> {
    seq![LineView::Spans(seq![(lp + "┌── command"@, SpanStyle::Command)])] + lines(command).map_values(
        |l: Seq<char>| command_row(lp, l),
    ) + seq![LineView::Spans(seq![(lp + box_rule(), SpanStyle::Command)])]
}

/// The header of a tool box.
pub open spec fn tool_head(lp: Seq<char>, name: Seq<char>) -> LineView {
    LineView::Spans(seq![(lp + "┌── "@ + name, SpanStyle::Label)])
}

/// The closing rule of a tool box.
pub open spec fn tool_foot(lp: Seq<char>) -> LineView {
    LineView::Spans(seq![(lp + box_rule(), SpanStyle::Label)])
}

/// A field of a tool box: its name, then its value.
pub open spec fn field_line(lp: Seq<char>, field: Seq<char>, value: Seq<char>) -> LineView {
    LineView::Spans(seq![(lp + "│ "@ + field + ": "@, SpanStyle::Plain), (value, SpanStyle::FieldValue)])
}

/// The most lines of a body a tool box shows.
pub open spec fn preview_limit() -> int {
    10
}

/// A line of the body of a tool box.
pub open spec fn preview_row(lp: Seq<char>, l: Seq<char>) -> LineView {
    LineView::Spans(seq![(lp + "│ "@, SpanStyle::Body), (l, SpanStyle::Body)])
}

/// The first lines of a body, and an ellipsis line where it has more.
pub open spec fn preview(lp: Seq<char>, text: Seq<char>) -> Seq<LineView> {
    let ls = lines(text);
    let shown = if ls.len() > preview_limit() {
        ls.take(preview_limit())
    } else {
        ls
    };
    shown.map_values(|l: Seq<char>| preview_row(lp, l)) + if ls.len() > preview_limit() {
        seq![LineView::Spans(seq![(lp + "│ ..."@, SpanStyle::Body)])]
    } else {
        seq![]
    }
}

/// How a line range is shown: its first and last line, joined by a hyphen.
pub open spec fn range_label(r: ReadFileRange) -> Seq<char> {
    decimal(r.start_line as nat) + "-"@ + decimal(r.end_line as nat)
}

/// What `serde_json::to_string_pretty` gives for the document `text`.
pub uninterp spec fn pretty_json(text: Seq<char>) -> Seq<char>;

/// `serde_json::from_str::<serde_json::Value>`, then `serde_json::to_string_pretty` of the
/// document: the text pretty-printed. The contract claims that a document comes back
/// exactly when `serde_json` accepts the text (printing a parsed document does not fail),
/// and that what comes back is a function of the text.
#[verifier::external_body]
fn pretty_json_text(text: &str) -> (r: Option<String>)
    ensures
        r is Some <==> json_accepts(text@),
        r matches Some(p) ==> p@ == pretty_json(text@),
{
    match serde_json::from_str::<serde_json::Value>(text) {
        Ok(v) => serde_json::to_string_pretty(&v).ok(),
        Err(_) => None,
    }
}

/// The arguments of a tool call as a box shows them: the document pretty-printed, or the
/// text as it is where it is not a document.
pub open spec fn shown_arguments(arguments: Seq<char>) -> Seq<char> {
    if json_accepts(arguments) {
        pretty_json(arguments)
    } else {
        arguments
    }
}

/// The lines one segment renders to, given the highlighting of its code (for a code
/// segment) and whether anything that counts as content was rendered before it; also
/// whether that holds after it. Reply text, reasoning, code and commands count as
/// content; the boxes of the other tools do not.
pub open spec fn segment_lines(
    seg: SegmentView,
    tokens: Seq<Seq<(Seq<char>, TermColor)>>,
    lp: Seq<char>,
    emitted: bool,
) -> (Seq<LineView>, bool) {
    match seg {
        SegmentView::Text(t) => if t.len() == 0 && !emitted {
            (seq![LineView::Spans(seq![pad_span(lp)])], true)
        } else {
            (text_block(lp, t), emitted || lines(t).len() > 0)
        },
        SegmentView::Think(c) => (seq![LineView::ReasonLedger(c)], true),
        SegmentView::Code { language, body } => (code_box(lp, language, body, tokens), true),
        SegmentView::RunCommand { command, .. } => (command_box(lp, command), true),
        SegmentView::ReadFile { path, range } => (
            seq![tool_head(lp, "read_file"@), field_line(lp, "path"@, path)] + match range {
                Some(r) => if r.is_normal() {
                    seq![field_line(lp, "lines"@, range_label(r))]
                } else {
                    seq![]
                },
                None => seq![],
            } + seq![tool_foot(lp)],
            emitted,
        ),
        SegmentView::ListDirectory { path } => (
            seq![tool_head(lp, "list_directory"@), field_line(lp, "path"@, path), tool_foot(lp)],
            emitted,
        ),
        SegmentView::WriteFile { path, content } => (
            seq![tool_head(lp, "write_file"@), field_line(lp, "path"@, path)] + preview(lp, content)
                + seq![tool_foot(lp)],
            emitted,
        ),
        SegmentView::ApplyPatch { path, patch } => (
            seq![tool_head(lp, "apply_patch"@), field_line(lp, "path"@, path)] + preview(lp, patch)
                + seq![tool_foot(lp)],
            emitted,
        ),
        SegmentView::ReplaceBlock { path, .. } => (
            seq![tool_head(lp, "replace_block"@), field_line(lp, "path"@, path), tool_foot(lp)],
            emitted,
        ),
        SegmentView::McpCallTool { server_name, tool_name, arguments } => (
            seq![
                tool_head(lp, "mcp_call_tool"@),
                field_line(lp, "server"@, server_name),
                field_line(lp, "tool"@, tool_name),
            ] + preview(lp, shown_arguments(arguments)) + seq![tool_foot(lp)],
            emitted,
        ),
    }
}

/// The highlighting given for segment `i`; none where there is no entry for it.
pub open spec fn tokens_at(toks: Seq<Seq<Seq<(Seq<char>, TermColor)>>>, i: int) -> Seq<
    Seq<(Seq<char>, TermColor)>,
> {
    if 0 <= i < toks.len() {
        toks[i]
    } else {
        seq![]
    }
}

/// The lines the first `n` segments render to, and whether content was rendered.
pub open spec fn render_prefix(
    segs: Seq<SegmentView>,
    toks: Seq<Seq<Seq<(Seq<char>, TermColor)>>>,
    lp: Seq<char>,
    n: int,
) -> (Seq<LineView>, bool)
    decreases n,
{
    if n <= 0 {
        (seq![], false)
    } else {
        let before = render_prefix(segs, toks, lp, n - 1);
        let here = segment_lines(segs[n - 1], tokens_at(toks, n - 1), lp, before.1);
        (before.0 + here.0, here.1)
    }
}

/// The lines a reply renders to: those of its segments in order, or a single padding
/// line where there are none.
pub open spec fn rendered_lines(
    segs: Seq<SegmentView>,
    toks: Seq<Seq<Seq<(Seq<char>, TermColor)>>>,
    lp: Seq<char>,
) -> Seq<LineView> {
    let all = render_prefix(segs, toks, lp, segs.len() as int);
    if !all.1 && all.0.len() == 0 {
        seq![LineView::Spans(seq![pad_span(lp)])]
    } else {
        all.0
    }
}

// ---------------------------------------------------------------------------
// Building the lines.
// ---------------------------------------------------------------------------

/// A span of the given text and style.
fn styled(text: String, style: SpanStyle) -> (r: StyledSpan)
    ensures
        r.text@ == text@,
        r.style == style,
{
    StyledSpan { text, style }
}

/// The concatenation of two texts.
fn concat2(a: &str, b: &str) -> (r: String)
    ensures
        r@ == a@ + b@,
{
    let mut out = chars_of(a);
    push_str(&mut out, b);
    string_of(out.as_slice())
}

/// The concatenation of three texts.
fn concat3(a: &str, b: &str, c: &str) -> (r: String)
    ensures
        r@ == a@ + b@ + c@,
{
    let mut out = chars_of(a);
    push_str(&mut out, b);
    push_str(&mut out, c);
    string_of(out.as_slice())
}

/// Appends a line of one span.
fn push_single(out: &mut Vec<RenderedLine>, text: String, style: SpanStyle)
    ensures
        line_views(final(out)@) == line_views(old(out)@).push(LineView::Spans(seq![(text@, style)])),
{
    let mut v: Vec<StyledSpan> = Vec::new();
    let t = styled(text, style);
    v.push(t);
    assert(span_views(v@) =~= seq![(t.text@, style)]);
    let ghost before = out@;
    out.push(RenderedLine::Spans(v));
    assert(line_views(out@) =~= line_views(before).push(LineView::Spans(seq![(text@, style)])));
}

/// Appends a line of two spans.
fn push_pair(out: &mut Vec<RenderedLine>, a: String, sa: SpanStyle, b: String, sb: SpanStyle)
    ensures
        line_views(final(out)@) == line_views(old(out)@).push(
            LineView::Spans(seq![(a@, sa), (b@, sb)]),
        ),
{
    let mut v: Vec<StyledSpan> = Vec::new();
    let x = styled(a, sa);
    let y = styled(b, sb);
    v.push(x);
    v.push(y);
    assert(span_views(v@) =~= seq![(x.text@, sa), (y.text@, sb)]);
    let ghost before = out@;
    out.push(RenderedLine::Spans(v));
    assert(line_views(out@) =~= line_views(before).push(LineView::Spans(seq![(a@, sa), (b@, sb)])));
}

/// A copy of a text.
fn owned(s: &str) -> (r: String)
    ensures
        r@ == s@,
{
    string_of(chars_of(s).as_slice())
}

/// The lines of a text.
fn text_lines(text: &str) -> (r: Vec<Vec<char>>)
    ensures
        lines_view(r@) == lines(text@),
{
    let c = chars_of(text);
    split_lines(&c)
}

/// Appends the lines of reply text.
fn push_text_block(out: &mut Vec<RenderedLine>, lp: &str, text: &str)
    ensures
        line_views(final(out)@) == line_views(old(out)@) + text_block(lp@, text@),
{
    let ls = text_lines(text);
    let ghost base = line_views(out@);
    let mut i: usize = 0;
    while i < ls.len()
        invariant
            i <= ls.len(),
            lines_view(ls@) == lines(text@),
            line_views(out@) == base + lines(text@).take(i as int).map_values(
                |l: Seq<char>| text_row(lp@, l),
            ),
        decreases ls.len() - i,
    {
        proof {
            assert(lines_view(ls@)[i as int] == ls@[i as int]@);
        }
        push_pair(out, owned(lp), SpanStyle::Plain, string_of(ls[i].as_slice()), SpanStyle::Text);
        proof {
            assert(lines(text@).take(i + 1).map_values(|l: Seq<char>| text_row(lp@, l))
                =~= lines(text@).take(i as int).map_values(|l: Seq<char>| text_row(lp@, l)).push(
                text_row(lp@, lines(text@)[i as int]),
            ));
        }
        i += 1;
    }
    assert(lines(text@).take(ls.len() as int) =~= lines(text@));
}

/// `s` right-aligned in a field `width` characters wide.
fn pad_left_exec(s: &Vec<char>, width: usize) -> (r: Vec<char>)
    ensures
        r@ == pad_left(s@, width as int),
{
    let mut out: Vec<char> = Vec::new();
    if s.len() < width {
        let n = width - s.len();
        let mut i: usize = 0;
        while i < n
            invariant
                i <= n,
                out@ == spaces(i as int),
            decreases n - i,
        {
            out.push(' ');
            i += 1;
            assert(out@ =~= spaces(i as int));
        }
    }
    push_chars(&mut out, s);
    assert(s.len() >= width ==> out@ =~= s@);
    out
}

/// The width of the line-number gutter of a code box for `body`.
fn gutter_width_exec(body: &str) -> (r: usize)
    ensures
        r == gutter_width(body@),
        5 <= r,
{
    let count = text_lines(body).len();
    let n: usize = if count >= 1 {
        count
    } else {
        1
    };
    let digits = decimal_exec(n).len();
    proof {
        lemma_decimal_len_bound(n as nat);
    }
    (if digits >= 2 {
        digits
    } else {
        2
    }) + 3
}

/// The decimal rendering of `n` has at most one digit more than a tenth of `n`.
pub proof fn lemma_decimal_len_bound(n: nat)
    ensures
        decimal(n).len() <= 1 + n / 10,
        decimal(n).len() >= 1,
    decreases n,
{
    if n >= 10 {
        lemma_decimal_len_bound(n / 10);
    }
}

/// The spans of a highlighted line of code.
fn token_spans_exec(tokens: &Vec<CodeToken>) -> (r: Vec<StyledSpan>)
    ensures
        span_views(r@) == token_spans(tokens_view(tokens@)),
{
    let ghost tv = tokens_view(tokens@);
    let mut v: Vec<StyledSpan> = Vec::new();
    if tokens.len() == 0 {
        v.push(styled(owned(" "), SpanStyle::CodeFill));
        assert(span_views(v@) =~= token_spans(tv));
        return v;
    }
    let mut i: usize = 0;
    while i < tokens.len()
        invariant
            i <= tokens.len(),
            tv == tokens_view(tokens@),
            span_views(v@) == tv.take(i as int).map_values(
                |t: (Seq<char>, TermColor)| (t.0, SpanStyle::CodeToken(code_token_color(t.1))),
            ),
        decreases tokens.len() - i,
    {
        let t = &tokens[i];
        let color = high_contrast_code_color(t.fg);
        let ghost before = v@;
        v.push(styled(owned(t.text.as_str()), SpanStyle::CodeToken(color)));
        proof {
            assert(span_views(v@) =~= span_views(before).push(
                (t.text@, SpanStyle::CodeToken(code_token_color(t.fg))),
            ));
            assert(tv.take(i + 1).map_values(
                |t: (Seq<char>, TermColor)| (t.0, SpanStyle::CodeToken(code_token_color(t.1))),
            ) =~= tv.take(i as int).map_values(
                |t: (Seq<char>, TermColor)| (t.0, SpanStyle::CodeToken(code_token_color(t.1))),
            ).push((tv[i as int].0, SpanStyle::CodeToken(code_token_color(tv[i as int].1)))));
        }
        i += 1;
    }
    assert(tv.take(tokens.len() as int) =~= tv);
    v
}

/// A numbered row of a code box.
fn code_row_exec(lp: &str, i: usize, gw: usize, tokens: &Vec<CodeToken>) -> (r: RenderedLine)
    requires
        i < usize::MAX,
        gw >= 1,
    ensures
        r@ == code_row(lp@, i as int, gw as int, tokens_view(tokens@)),
{
    let mut v: Vec<StyledSpan> = Vec::new();
    v.push(styled(owned(lp), SpanStyle::Plain));
    v.push(styled(owned("│"), SpanStyle::CodeFill));
    let mut gutter = chars_of(" ");
    let digits = decimal_exec(i + 1);
    let padded = pad_left_exec(&digits, gw - 1);
    push_chars(&mut gutter, &padded);
    push_str(&mut gutter, " ");
    v.push(styled(string_of(gutter.as_slice()), SpanStyle::CodeGutter));
    let head = v;
    let ghost hv = span_views(head@);
    let rest = token_spans_exec(tokens);
    let mut all = head;
    let mut k: usize = 0;
    while k < rest.len()
        invariant
            k <= rest.len(),
            span_views(all@) == hv + span_views(rest@).take(k as int),
        decreases rest.len() - k,
    {
        let sp = &rest[k];
        let ghost before = all@;
        all.push(styled(owned(sp.text.as_str()), sp.style));
        assert(span_views(all@) =~= span_views(before).push((sp.text@, sp.style)));
        assert(span_views(rest@)[k as int] == (sp.text@, sp.style));
        assert(span_views(all@) =~= hv + span_views(rest@).take(k + 1));
        k += 1;
    }
    assert(span_views(rest@).take(rest.len() as int) =~= span_views(rest@));
    let r = RenderedLine::Spans(all);
    assert(span_views(all@) =~= seq![
        pad_span(lp@),
        ("│"@, SpanStyle::CodeFill),
        (" "@ + pad_left(decimal((i + 1) as nat), gw - 1) + " "@, SpanStyle::CodeGutter),
    ] + token_spans(tokens_view(tokens@)));
    r
}

/// Appends a box of code.
fn push_code_box(
    out: &mut Vec<RenderedLine>,
    lp: &str,
    language: &str,
    body: &str,
    tokens: &Vec<Vec<CodeToken>>,
)
    ensures
        line_views(final(out)@) == line_views(old(out)@) + code_box(
            lp@,
            language@,
            body@,
            token_lines_view(tokens@),
        ),
{
    let ghost base = line_views(out@);
    let ghost tv = token_lines_view(tokens@);
    let gw = gutter_width_exec(body);
    let label = if chars_of(language).len() == 0 {
        owned("code")
    } else {
        owned(language)
    };
    assert(label@ == code_label(language@));
    push_pair(out, owned(lp), SpanStyle::Plain, concat3("┌── ", label.as_str(), " "), SpanStyle::CodeBorder);
    let ghost with_head = line_views(out@);
    if tokens.len() == 0 {
        let mut v: Vec<StyledSpan> = Vec::new();
        v.push(styled(owned(lp), SpanStyle::Plain));
        let one = chars_of("1");
        let mut g = pad_left_exec(&one, gw);
        push_str(&mut g, " ");
        v.push(styled(string_of(g.as_slice()), SpanStyle::CodeGutter));
        v.push(styled(owned(" "), SpanStyle::CodeFill));
        assert(span_views(v@) =~= seq![
            pad_span(lp@),
            (pad_left("1"@, gw as int) + " "@, SpanStyle::CodeGutter),
            (" "@, SpanStyle::CodeFill),
        ]);
        out.push(RenderedLine::Spans(v));
    } else {
        let mut i: usize = 0;
        while i < tokens.len()
            invariant
                i <= tokens.len(),
                gw >= 5,
                tv == token_lines_view(tokens@),
                line_views(out@) == with_head + Seq::new(
                    i as nat,
                    |j: int| code_row(lp@, j, gw as int, tv[j]),
                ),
            decreases tokens.len() - i,
        {
            let row = code_row_exec(lp, i, gw, &tokens[i]);
            assert(tv[i as int] == tokens_view(tokens@[i as int]@));
            let ghost before = out@;
            out.push(row);
            assert(line_views(out@) =~= line_views(before).push(row@));
            assert(line_views(out@) =~= with_head + Seq::new(
                (i + 1) as nat,
                |j: int| code_row(lp@, j, gw as int, tv[j]),
            ));
            i += 1;
        }
    }
    let ghost with_rows = line_views(out@);
    let ghost gwi = gutter_width(body@);
    let ghost rows = if tv.len() == 0 {
        seq![
            LineView::Spans(
                seq![
                    pad_span(lp@),
                    (pad_left("1"@, gwi) + " "@, SpanStyle::CodeGutter),
                    (" "@, SpanStyle::CodeFill),
                ],
            ),
        ]
    } else {
        Seq::new(tv.len(), |i: int| code_row(lp@, i, gwi, tv[i]))
    };
    assert(with_rows =~= with_head + rows);
    push_pair(out, owned(lp), SpanStyle::Plain, owned("└────────────"), SpanStyle::CodeBorder);
    assert(line_views(out@) =~= base + code_box(lp@, language@, body@, tv));
}

/// Appends a command box.
fn push_command_box(out: &mut Vec<RenderedLine>, lp: &str, command: &str)
    ensures
        line_views(final(out)@) == line_views(old(out)@) + command_box(lp@, command@),
{
    let ghost base = line_views(out@);
    push_single(out, concat2(lp, "┌── command"), SpanStyle::Command);
    let ghost with_head = line_views(out@);
    let ls = text_lines(command);
    let mut i: usize = 0;
    while i < ls.len()
        invariant
            i <= ls.len(),
            lines_view(ls@) == lines(command@),
            line_views(out@) == with_head + lines(command@).take(i as int).map_values(
                |l: Seq<char>| command_row(lp@, l),
            ),
        decreases ls.len() - i,
    {
        proof {
            assert(lines_view(ls@)[i as int] == ls@[i as int]@);
        }
        push_pair(out, concat2(lp, "│ $ "), SpanStyle::Command, string_of(ls[i].as_slice()), SpanStyle::CommandLine);
        proof {
            assert(lines(command@).take(i + 1).map_values(|l: Seq<char>| command_row(lp@, l))
                =~= lines(command@).take(i as int).map_values(|l: Seq<char>| command_row(lp@, l)).push(
                command_row(lp@, lines(command@)[i as int]),
            ));
        }
        i += 1;
    }
    assert(lines(command@).take(ls.len() as int) =~= lines(command@));
    push_single(out, concat2(lp, "└────────────"), SpanStyle::Command);
    assert(line_views(out@) =~= base + command_box(lp@, command@));
}

/// Appends the header of a tool box.
fn push_tool_head(out: &mut Vec<RenderedLine>, lp: &str, name: &str)
    ensures
        line_views(final(out)@) == line_views(old(out)@).push(tool_head(lp@, name@)),
{
    push_single(out, concat3(lp, "┌── ", name), SpanStyle::Label);
}

/// Appends the closing rule of a tool box.
fn push_tool_foot(out: &mut Vec<RenderedLine>, lp: &str)
    ensures
        line_views(final(out)@) == line_views(old(out)@).push(tool_foot(lp@)),
{
    push_single(out, concat2(lp, "└────────────"), SpanStyle::Label);
}

/// Appends a field of a tool box.
fn push_field(out: &mut Vec<RenderedLine>, lp: &str, field: &str, value: &str)
    ensures
        line_views(final(out)@) == line_views(old(out)@).push(field_line(lp@, field@, value@)),
{
    let mut label = chars_of(lp);
    push_str(&mut label, "│ ");
    push_str(&mut label, field);
    push_str(&mut label, ": ");
    push_pair(out, string_of(label.as_slice()), SpanStyle::Plain, owned(value), SpanStyle::FieldValue);
}

/// Appends the first lines of a body, and an ellipsis line where it has more.
fn push_preview(out: &mut Vec<RenderedLine>, lp: &str, text: &str)
    ensures
        line_views(final(out)@) == line_views(old(out)@) + preview(lp@, text@),
{
    let ghost base = line_views(out@);
    let ls = text_lines(text);
    let shown: usize = if ls.len() > 10 {
        10
    } else {
        ls.len()
    };
    let ghost full = lines(text@);
    let ghost kept = if full.len() > preview_limit() {
        full.take(preview_limit())
    } else {
        full
    };
    assert(kept =~= full.take(shown as int));
    let mut i: usize = 0;
    while i < shown
        invariant
            i <= shown <= ls.len(),
            lines_view(ls@) == full,
            full == lines(text@),
            line_views(out@) == base + full.take(i as int).map_values(|l: Seq<char>| preview_row(lp@, l)),
        decreases shown - i,
    {
        proof {
            assert(lines_view(ls@)[i as int] == ls@[i as int]@);
        }
        push_pair(out, concat2(lp, "│ "), SpanStyle::Body, string_of(ls[i].as_slice()), SpanStyle::Body);
        proof {
            assert(full.take(i + 1).map_values(|l: Seq<char>| preview_row(lp@, l)) =~= full.take(
                i as int,
            ).map_values(|l: Seq<char>| preview_row(lp@, l)).push(preview_row(lp@, full[i as int])));
        }
        i += 1;
    }
    let ghost rows = line_views(out@);
    if ls.len() > 10 {
        push_single(out, concat2(lp, "│ ..."), SpanStyle::Body);
    }
    assert(line_views(out@) =~= base + preview(lp@, text@));
}

/// The arguments of a tool call as a box shows them.
fn shown_arguments_exec(arguments: &String) -> (r: String)
    ensures
        r@ == shown_arguments(arguments@),
{
    match pretty_json_text(arguments.as_str()) {
        Some(p) => p,
        None => owned(arguments.as_str()),
    }
}

/// How a line range is shown.
fn range_label_exec(r: ReadFileRange) -> (s: String)
    ensures
        s@ == range_label(r),
{
    let mut out = decimal_exec(r.start_line);
    push_str(&mut out, "-");
    push_chars(&mut out, &decimal_exec(r.end_line));
    string_of(out.as_slice())
}

/// Appends the lines one segment renders to; answers whether content has been rendered
/// once it is done.
fn push_segment(
    out: &mut Vec<RenderedLine>,
    seg: &AssistantSegment,
    tokens: &Vec<Vec<CodeToken>>,
    lp: &str,
    emitted: bool,
) -> (r: bool)
    ensures
        line_views(final(out)@) == line_views(old(out)@) + segment_lines(
            seg@,
            token_lines_view(tokens@),
            lp@,
            emitted,
        ).0,
        r == segment_lines(seg@, token_lines_view(tokens@), lp@, emitted).1,
{
    let ghost base = line_views(out@);
    match seg {
        AssistantSegment::Text(t) => {
            let n = chars_of(t.as_str()).len();
            if n == 0 && !emitted {
                push_single(out, owned(lp), SpanStyle::Plain);
                assert(line_views(out@) =~= base + seq![LineView::Spans(seq![pad_span(lp@)])]);
                true
            } else {
                let count = text_lines(t.as_str()).len();
                push_text_block(out, lp, t.as_str());
                emitted || count > 0
            }
        },
        AssistantSegment::Think(c) => {
            let ghost before = out@;
            out.push(RenderedLine::ReasonLedger(owned(c.as_str())));
            assert(line_views(out@) =~= base + seq![LineView::ReasonLedger(c@)]);
            true
        },
        AssistantSegment::Code { language, body } => {
            push_code_box(out, lp, language.as_str(), body.as_str(), tokens);
            true
        },
        AssistantSegment::RunCommand { command, .. } => {
            push_command_box(out, lp, command.as_str());
            true
        },
        AssistantSegment::ReadFile { path, range } => {
            push_tool_head(out, lp, "read_file");
            push_field(out, lp, "path", path.as_str());
            let ghost mid = line_views(out@);
            match range {
                Some(r) => {
                    match r.normalized() {
                        Some(n) => {
                            let label = range_label_exec(n);
                            push_field(out, lp, "lines", label.as_str());
                        },
                        None => {},
                    }
                },
                None => {},
            }
            push_tool_foot(out, lp);
            assert(line_views(out@) =~= base + segment_lines(
                seg@,
                token_lines_view(tokens@),
                lp@,
                emitted,
            ).0);
            emitted
        },
        AssistantSegment::ListDirectory { path } => {
            push_tool_head(out, lp, "list_directory");
            push_field(out, lp, "path", path.as_str());
            push_tool_foot(out, lp);
            assert(line_views(out@) =~= base + segment_lines(
                seg@,
                token_lines_view(tokens@),
                lp@,
                emitted,
            ).0);
            emitted
        },
        AssistantSegment::WriteFile { path, content } => {
            push_tool_head(out, lp, "write_file");
            push_field(out, lp, "path", path.as_str());
            push_preview(out, lp, content.as_str());
            push_tool_foot(out, lp);
            assert(line_views(out@) =~= base + segment_lines(
                seg@,
                token_lines_view(tokens@),
                lp@,
                emitted,
            ).0);
            emitted
        },
        AssistantSegment::ApplyPatch { path, patch } => {
            push_tool_head(out, lp, "apply_patch");
            push_field(out, lp, "path", path.as_str());
            push_preview(out, lp, patch.as_str());
            push_tool_foot(out, lp);
            assert(line_views(out@) =~= base + segment_lines(
                seg@,
                token_lines_view(tokens@),
                lp@,
                emitted,
            ).0);
            emitted
        },
        AssistantSegment::ReplaceBlock { path, .. } => {
            push_tool_head(out, lp, "replace_block");
            push_field(out, lp, "path", path.as_str());
            push_tool_foot(out, lp);
            assert(line_views(out@) =~= base + segment_lines(
                seg@,
                token_lines_view(tokens@),
                lp@,
                emitted,
            ).0);
            emitted
        },
        AssistantSegment::McpCallTool { server_name, tool_name, arguments } => {
            let shown = shown_arguments_exec(arguments);
            push_tool_head(out, lp, "mcp_call_tool");
            push_field(out, lp, "server", server_name.as_str());
            push_field(out, lp, "tool", tool_name.as_str());
            push_preview(out, lp, shown.as_str());
            push_tool_foot(out, lp);
            assert(line_views(out@) =~= base + segment_lines(
                seg@,
                token_lines_view(tokens@),
                lp@,
                emitted,
            ).0);
            emitted
        },
    }
}

/// The lines a reply's segments render to, in order; `highlights[i]` is the highlighting
/// of segment `i` where it is code (a segment without an entry counts as having none).
/// Where nothing at all is rendered, a single padding line stands for the reply.
pub fn render_assistant_segments(
    segments: &Vec<AssistantSegment>,
    highlights: &Vec<Vec<Vec<CodeToken>>>,
    options: SegmentRenderOptions,
) -> (r: Vec<RenderedLine>)
    ensures
        line_views(r@) == rendered_lines(
            segments_view(segments@),
            highlights@.map_values(|h: Vec<Vec<CodeToken>>| token_lines_view(h@)),
            options.left_pad@,
        ),
{
    let ghost segs = segments_view(segments@);
    let ghost toks = highlights@.map_values(|h: Vec<Vec<CodeToken>>| token_lines_view(h@));
    let lp = options.left_pad;
    let empty: Vec<Vec<CodeToken>> = Vec::new();
    let mut out: Vec<RenderedLine> = Vec::new();
    let mut emitted = false;
    let mut i: usize = 0;
    while i < segments.len()
        invariant
            i <= segments.len(),
            segs == segments_view(segments@),
            toks == highlights@.map_values(|h: Vec<Vec<CodeToken>>| token_lines_view(h@)),
            empty@.len() == 0,
            (line_views(out@), emitted) == render_prefix(segs, toks, lp@, i as int),
        decreases segments.len() - i,
    {
        let tokens = if i < highlights.len() {
            &highlights[i]
        } else {
            &empty
        };
        proof {
            assert(token_lines_view(tokens@) =~= tokens_at(toks, i as int));
            assert(segs[i as int] == segments@[i as int]@);
        }
        emitted = push_segment(&mut out, &segments[i], tokens, lp, emitted);
        i += 1;
    }
    if !emitted && out.len() == 0 {
        push_single(&mut out, owned(lp), SpanStyle::Plain);
        assert(line_views(out@) =~= seq![LineView::Spans(seq![pad_span(lp@)])]);
    }
    out
}

// ---------------------------------------------------------------------------
// Laws.
// ---------------------------------------------------------------------------

/// A line starts with the left padding: its first span begins with it. The reasoning
/// ledger lays out its own lines, with the padding.
pub open spec fn padded(l: LineView, lp: Seq<char>) -> bool {
    match l {
        LineView::Spans(sp) => sp.len() > 0 && lp.is_prefix_of(sp[0].0),
        LineView::ReasonLedger(_) => true,
    }
}

/// Every line starts with the left padding.
pub open spec fn all_padded(ls: Seq<LineView>, lp: Seq<char>) -> bool {
    forall|i: int| 0 <= i < ls.len() ==> padded(#[trigger] ls[i], lp)
}

/// Texts that start with the padding.
proof fn lemma_starts_with_pad(lp: Seq<char>, a: Seq<char>, b: Seq<char>, c: Seq<char>)
    ensures
        lp.is_prefix_of(lp),
        lp.is_prefix_of(lp + a),
        lp.is_prefix_of(lp + a + b),
        lp.is_prefix_of(lp + a + b + c),
{
    assert(lp.subrange(0, lp.len() as int) =~= lp);
    assert((lp + a).subrange(0, lp.len() as int) =~= lp);
    assert((lp + a + b).subrange(0, lp.len() as int) =~= lp);
    assert((lp + a + b + c).subrange(0, lp.len() as int) =~= lp);
}

/// Lines that start with the padding, one run after another.
proof fn lemma_all_padded_concat(a: Seq<LineView>, b: Seq<LineView>, lp: Seq<char>)
    requires
        all_padded(a, lp),
        all_padded(b, lp),
    ensures
        all_padded(a + b, lp),
{
    assert forall|i: int| 0 <= i < (a + b).len() implies padded(#[trigger] (a + b)[i], lp) by {
        if i < a.len() {
            assert((a + b)[i] == a[i]);
        } else {
            assert((a + b)[i] == b[i - a.len()]);
        }
    }
}

/// The first lines of a body, and the ellipsis, start with the padding.
proof fn lemma_preview_padded(lp: Seq<char>, text: Seq<char>)
    ensures
        all_padded(preview(lp, text), lp),
{
    let ls = lines(text);
    let shown = if ls.len() > preview_limit() {
        ls.take(preview_limit())
    } else {
        ls
    };
    let rows = shown.map_values(|l: Seq<char>| preview_row(lp, l));
    lemma_starts_with_pad(lp, "│ "@, "│ ..."@, seq![]);
    assert forall|i: int| 0 <= i < rows.len() implies padded(#[trigger] rows[i], lp) by {
        assert(rows[i] == preview_row(lp, shown[i]));
    }
    let tail = if ls.len() > preview_limit() {
        seq![LineView::Spans(seq![(lp + "│ ..."@, SpanStyle::Body)])]
    } else {
        seq![]
    };
    assert(all_padded(tail, lp));
    lemma_all_padded_concat(rows, tail, lp);
}

/// The lines one segment renders to start with the padding.
proof fn lemma_segment_padded(
    seg: SegmentView,
    tokens: Seq<Seq<(Seq<char>, TermColor)>>,
    lp: Seq<char>,
    emitted: bool,
)
    ensures
        all_padded(segment_lines(seg, tokens, lp, emitted).0, lp),
{
    lemma_starts_with_pad(lp, seq![], seq![], seq![]);
    lemma_starts_with_pad(lp, "┌── command"@, seq![], seq![]);
    lemma_starts_with_pad(lp, "│ $ "@, seq![], seq![]);
    lemma_starts_with_pad(lp, box_rule(), seq![], seq![]);
    let out = segment_lines(seg, tokens, lp, emitted).0;
    match seg {
        SegmentView::Text(t) => {
            if !(t.len() == 0 && !emitted) {
                let rows = text_block(lp, t);
                assert forall|i: int| 0 <= i < rows.len() implies padded(#[trigger] rows[i], lp) by {
                    assert(rows[i] == text_row(lp, lines(t)[i]));
                }
            }
        },
        SegmentView::Think(_) => {},
        SegmentView::Code { language, body } => {
            let gw = gutter_width(body);
            let head = seq![
                LineView::Spans(
                    seq![pad_span(lp), ("┌── "@ + code_label(language) + " "@, SpanStyle::CodeBorder)],
                ),
            ];
            let rows = if tokens.len() == 0 {
                seq![
                    LineView::Spans(
                        seq![
                            pad_span(lp),
                            (pad_left("1"@, gw) + " "@, SpanStyle::CodeGutter),
                            (" "@, SpanStyle::CodeFill),
                        ],
                    ),
                ]
            } else {
                Seq::new(tokens.len(), |i: int| code_row(lp, i, gw, tokens[i]))
            };
            let foot = seq![LineView::Spans(seq![pad_span(lp), (box_rule(), SpanStyle::CodeBorder)])];
            assert forall|i: int| 0 <= i < rows.len() implies padded(#[trigger] rows[i], lp) by {
                if tokens.len() > 0 {
                    let first = seq![
                        pad_span(lp),
                        ("│"@, SpanStyle::CodeFill),
                        (" "@ + pad_left(decimal((i + 1) as nat), gw - 1) + " "@, SpanStyle::CodeGutter),
                    ];
                    assert((first + token_spans(tokens[i]))[0] == pad_span(lp));
                }
            }
            assert(all_padded(head, lp));
            assert(all_padded(foot, lp));
            lemma_all_padded_concat(head, rows, lp);
            lemma_all_padded_concat(head + rows, foot, lp);
            assert(out == head + rows + foot);
        },
        SegmentView::RunCommand { command, .. } => {
            let head = seq![LineView::Spans(seq![(lp + "┌── command"@, SpanStyle::Command)])];
            let rows = lines(command).map_values(|l: Seq<char>| command_row(lp, l));
            let foot = seq![LineView::Spans(seq![(lp + box_rule(), SpanStyle::Command)])];
            assert forall|i: int| 0 <= i < rows.len() implies padded(#[trigger] rows[i], lp) by {
                assert(rows[i] == command_row(lp, lines(command)[i]));
            }
            assert(all_padded(head, lp));
            assert(all_padded(foot, lp));
            lemma_all_padded_concat(head, rows, lp);
            lemma_all_padded_concat(head + rows, foot, lp);
        },
        _ => {
            lemma_starts_with_pad(lp, "┌── "@, "read_file"@, seq![]);
            lemma_starts_with_pad(lp, "┌── "@, "list_directory"@, seq![]);
            lemma_starts_with_pad(lp, "┌── "@, "write_file"@, seq![]);
            lemma_starts_with_pad(lp, "┌── "@, "apply_patch"@, seq![]);
            lemma_starts_with_pad(lp, "┌── "@, "replace_block"@, seq![]);
            lemma_starts_with_pad(lp, "┌── "@, "mcp_call_tool"@, seq![]);
            lemma_starts_with_pad(lp, "│ "@, "path"@, ": "@);
            lemma_starts_with_pad(lp, "│ "@, "lines"@, ": "@);
            lemma_starts_with_pad(lp, "│ "@, "server"@, ": "@);
            lemma_starts_with_pad(lp, "│ "@, "tool"@, ": "@);
            match seg {
                SegmentView::ReadFile { path, range } => {
                    let head = seq![tool_head(lp, "read_file"@), field_line(lp, "path"@, path)];
                    let mid = match range {
                        Some(r) => if r.is_normal() {
                            seq![field_line(lp, "lines"@, range_label(r))]
                        } else {
                            seq![]
                        },
                        None => seq![],
                    };
                    let foot = seq![tool_foot(lp)];
                    assert(all_padded(head, lp));
                    assert(all_padded(mid, lp));
                    assert(all_padded(foot, lp));
                    lemma_all_padded_concat(head, mid, lp);
                    lemma_all_padded_concat(head + mid, foot, lp);
                },
                SegmentView::ListDirectory { .. } => {
                    assert(all_padded(out, lp));
                },
                SegmentView::WriteFile { path, content } => {
                    let head = seq![tool_head(lp, "write_file"@), field_line(lp, "path"@, path)];
                    let foot = seq![tool_foot(lp)];
                    lemma_preview_padded(lp, content);
                    assert(all_padded(head, lp));
                    assert(all_padded(foot, lp));
                    lemma_all_padded_concat(head, preview(lp, content), lp);
                    lemma_all_padded_concat(head + preview(lp, content), foot, lp);
                },
                SegmentView::ApplyPatch { path, patch } => {
                    let head = seq![tool_head(lp, "apply_patch"@), field_line(lp, "path"@, path)];
                    let foot = seq![tool_foot(lp)];
                    lemma_preview_padded(lp, patch);
                    assert(all_padded(head, lp));
                    assert(all_padded(foot, lp));
                    lemma_all_padded_concat(head, preview(lp, patch), lp);
                    lemma_all_padded_concat(head + preview(lp, patch), foot, lp);
                },
                SegmentView::ReplaceBlock { .. } => {
                    assert(all_padded(out, lp));
                },
                SegmentView::McpCallTool { server_name, tool_name, arguments } => {
                    let head = seq![
                        tool_head(lp, "mcp_call_tool"@),
                        field_line(lp, "server"@, server_name),
                        field_line(lp, "tool"@, tool_name),
                    ];
                    let foot = seq![tool_foot(lp)];
                    let body = preview(lp, shown_arguments(arguments));
                    lemma_preview_padded(lp, shown_arguments(arguments));
                    assert(all_padded(head, lp));
                    assert(all_padded(foot, lp));
                    lemma_all_padded_concat(head, body, lp);
                    lemma_all_padded_concat(head + body, foot, lp);
                },
                _ => {},
            }
        },
    }
}

/// The lines of the first `n` segments start with the padding.
proof fn lemma_prefix_padded(
    segs: Seq<SegmentView>,
    toks: Seq<Seq<Seq<(Seq<char>, TermColor)>>>,
    lp: Seq<char>,
    n: int,
)
    ensures
        all_padded(render_prefix(segs, toks, lp, n).0, lp),
    decreases n,
{
    if n > 0 {
        let before = render_prefix(segs, toks, lp, n - 1);
        lemma_prefix_padded(segs, toks, lp, n - 1);
        lemma_segment_padded(segs[n - 1], tokens_at(toks, n - 1), lp, before.1);
        lemma_all_padded_concat(
            before.0,
            segment_lines(segs[n - 1], tokens_at(toks, n - 1), lp, before.1).0,
            lp,
        );
    }
}

/// Every line of a rendered reply starts with the surface's left padding, whatever the
/// segments and their highlighting.
pub proof fn lemma_rendered_lines_are_padded(
    segs: Seq<SegmentView>,
    toks: Seq<Seq<Seq<(Seq<char>, TermColor)>>>,
    lp: Seq<char>,
)
    ensures
        all_padded(rendered_lines(segs, toks, lp), lp),
{
    lemma_prefix_padded(segs, toks, lp, segs.len() as int);
    lemma_starts_with_pad(lp, seq![], seq![], seq![]);
}

/// The box of a tool call is headed by the name of the tag the reply used and shows the
/// path it names (the server and the tool for a tool call), then closes with a rule; a
/// tool box leaves unchanged whether content was rendered before. A command's box is
/// headed `command`.
pub proof fn lemma_tool_boxes_name_their_tool(
    seg: SegmentView,
    tokens: Seq<Seq<(Seq<char>, TermColor)>>,
    lp: Seq<char>,
    emitted: bool,
)
    ensures
        ({
            let (ls, after) = segment_lines(seg, tokens, lp, emitted);
            match seg {
                SegmentView::ReadFile { path, .. } => ls[0] == tool_head(lp, "read_file"@) && ls[1]
                    == field_line(lp, "path"@, path) && ls.last() == tool_foot(lp) && after == emitted,
                SegmentView::ListDirectory { path } => ls == seq![
                    tool_head(lp, "list_directory"@),
                    field_line(lp, "path"@, path),
                    tool_foot(lp),
                ] && after == emitted,
                SegmentView::WriteFile { path, .. } => ls[0] == tool_head(lp, "write_file"@) && ls[1]
                    == field_line(lp, "path"@, path) && ls.last() == tool_foot(lp) && after == emitted,
                SegmentView::ApplyPatch { path, .. } => ls[0] == tool_head(lp, "apply_patch"@) && ls[1]
                    == field_line(lp, "path"@, path) && ls.last() == tool_foot(lp) && after == emitted,
                SegmentView::ReplaceBlock { path, .. } => ls == seq![
                    tool_head(lp, "replace_block"@),
                    field_line(lp, "path"@, path),
                    tool_foot(lp),
                ] && after == emitted,
                SegmentView::McpCallTool { server_name, tool_name, .. } => ls[0] == tool_head(
                    lp,
                    "mcp_call_tool"@,
                ) && ls[1] == field_line(lp, "server"@, server_name) && ls[2] == field_line(
                    lp,
                    "tool"@,
                    tool_name,
                ) && ls.last() == tool_foot(lp) && after == emitted,
                SegmentView::RunCommand { .. } => ls[0] == LineView::Spans(
                    seq![(lp + "┌── command"@, SpanStyle::Command)],
                ) && after,
                _ => true,
            }
        }),
{
    let (ls, after) = segment_lines(seg, tokens, lp, emitted);
    match seg {
        SegmentView::ReadFile { path, range } => {
            let tail = match range {
                Some(r) => if r.is_normal() {
                    seq![field_line(lp, "lines"@, range_label(r))]
                } else {
                    seq![]
                },
                None => seq![],
            };
            assert(ls == seq![tool_head(lp, "read_file"@), field_line(lp, "path"@, path)] + tail + seq![
                tool_foot(lp),
            ]);
        },
        SegmentView::WriteFile { path, content } => {
            assert(ls == seq![tool_head(lp, "write_file"@), field_line(lp, "path"@, path)] + preview(
                lp,
                content,
            ) + seq![tool_foot(lp)]);
        },
        SegmentView::ApplyPatch { path, patch } => {
            assert(ls == seq![tool_head(lp, "apply_patch"@), field_line(lp, "path"@, path)] + preview(
                lp,
                patch,
            ) + seq![tool_foot(lp)]);
        },
        SegmentView::McpCallTool { server_name, tool_name, arguments } => {
            assert(ls == seq![
                tool_head(lp, "mcp_call_tool"@),
                field_line(lp, "server"@, server_name),
                field_line(lp, "tool"@, tool_name),
            ] + preview(lp, shown_arguments(arguments)) + seq![tool_foot(lp)]);
        },
        _ => {},
    }
}

} // verus!
