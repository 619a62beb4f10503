//! The assistant's conversation as the shell's feed shows it: one block per user message,
//! per segment of an assistant reply, and for the last error and a running command with
//! its output, each with its role and tone.
use vstd::prelude::*;
use crate::chat::{is_validation, is_validation_command, ChatMessage, MessageView};
use crate::highlight::{code_highlights, highlight_segments, HighlightAssets};
use crate::render::{
    line_views, render_assistant_segments, rendered_lines, span_views, LineView, RenderedLine,
    SpanStyle,
};
use crate::text::{chars_of, join, push_chars, push_str, string_of};
use crate::thread::ChatSession;
use crate::transcript::{
    parse_assistant_segments, segments, segments_view, AssistantSegment, SegmentRenderOptions,
    SegmentView, TranscriptSurface,
};

verus! {

/// How a block of the feed is toned.
#[derive(Debug, Clone, Copy, PartialEq, Eq, Structural)]
pub enum AssistantTone {
    Normal,
    Muted,
    Error,
    Success,
}

/// A block of the feed: its role label, its text, its tone and, for a segment of a reply,
/// the segment's rendered lines.
#[derive(Debug)]
pub struct AssistantBlock {
    pub role: String,
    pub text: String,
    pub tone: AssistantTone,
    pub rich_lines: Option<Vec<RenderedLine>>,
}

/// The content of an [`AssistantBlock`].
pub struct BlockView {
    pub role: Seq<char>,
    pub text: Seq<char>,
    pub tone: AssistantTone,
    pub rich_lines: Option<Seq<LineView>>,
}

impl View for AssistantBlock {
    type V = BlockView;

    open spec fn view(&self) -> BlockView {
        BlockView {
            role: self.role@,
            text: self.text@,
            tone: self.tone,
            rich_lines: match self.rich_lines {
                Some(v) => Some(line_views(v@)),
                None => None,
            },
        }
    }
}

/// The role and tone of a segment's block: text and code are the assistant's, reasoning
/// is muted, a command is a validation when it runs tests, lints or formatting, reads
/// and listings and tool calls are tools, and edits are files.
pub open spec fn segment_role(seg: SegmentView) -> (Seq<char>, AssistantTone) {
    match seg {
        SegmentView::Text(_) => ("Assistant:"@, AssistantTone::Normal),
        SegmentView::Code { .. } => ("Assistant:"@, AssistantTone::Normal),
        SegmentView::Think(_) => ("Reasoning:"@, AssistantTone::Muted),
        SegmentView::RunCommand { command, .. } => if is_validation(command) {
            ("Validation:"@, AssistantTone::Success)
        } else {
            ("Command:"@, AssistantTone::Success)
        },
        SegmentView::ReadFile { .. } => ("Tool:"@, AssistantTone::Muted),
        SegmentView::ListDirectory { .. } => ("Tool:"@, AssistantTone::Muted),
        SegmentView::McpCallTool { .. } => ("Tool:"@, AssistantTone::Muted),
        SegmentView::WriteFile { .. } => ("Files:"@, AssistantTone::Success),
        SegmentView::ApplyPatch { .. } => ("Files:"@, AssistantTone::Success),
        SegmentView::ReplaceBlock { .. } => ("Files:"@, AssistantTone::Success),
    }
}

/// The text of a rendered line: its spans' texts one after another; for the reasoning
/// of a `<think>` block, the reasoning.
pub open spec fn line_text(l: LineView) -> Seq<char> {
    match l {
        LineView::Spans(spans) => spans_text(spans),
        LineView::ReasonLedger(t) => t,
    }
}

/// The texts of spans one after another.
pub open spec fn spans_text(spans: Seq<(Seq<char>, SpanStyle)>) -> Seq<char>
    decreases spans.len(),
{
    if spans.len() == 0 {
        seq![]
    } else {
        spans_text(spans.drop_last()) + spans.last().0
    }
}

/// The text of rendered lines, one per row.
pub open spec fn lines_text(lines: Seq<LineView>) -> Seq<char> {
    join(lines.map_values(|l: LineView| line_text(l)), "\n"@)
}

/// What a block holds: a text as it is, or a segment of a reply to render.
pub enum BlockContent {
    Plain(Seq<char>),
    Rendered(SegmentView),
}

/// The role, tone and content of the blocks of one message.
pub open spec fn message_plan(m: MessageView) -> Seq<(Seq<char>, AssistantTone, BlockContent)> {
    match m {
        MessageView::User(t) => seq![("User:"@, AssistantTone::Muted, BlockContent::Plain(t))],
        MessageView::Assistant(t) => segments(t).map_values(
            |seg: SegmentView| (segment_role(seg).0, segment_role(seg).1, BlockContent::Rendered(seg)),
        ),
    }
}

/// The blocks of the messages, in order.
pub open spec fn messages_plan(ms: Seq<MessageView>) -> Seq<(Seq<char>, AssistantTone, BlockContent)>
    decreases ms.len(),
{
    if ms.len() == 0 {
        seq![]
    } else {
        messages_plan(ms.drop_last()) + message_plan(ms.last())
    }
}

/// The blocks after the messages: the last error, then a running command (named, or
/// "Command running") followed by one block per line of its output.
pub open spec fn tail_plan(
    last_error: Option<Seq<char>>,
    running: bool,
    running_name: Option<Seq<char>>,
    output: Seq<Seq<char>>,
) -> Seq<(Seq<char>, AssistantTone, BlockContent)> {
    let err = match last_error {
        Some(e) => seq![("Error:"@, AssistantTone::Error, BlockContent::Plain(e))],
        None => seq![],
    };
    let cmd = if running {
        seq![
            (
                "Command:"@,
                AssistantTone::Success,
                BlockContent::Plain(
                    match running_name {
                        Some(n) => n,
                        None => "Command running"@,
                    },
                ),
            ),
        ] + output.map_values(|l: Seq<char>| ("Output:"@, AssistantTone::Muted, BlockContent::Plain(l)))
    } else {
        seq![]
    };
    err + cmd
}

/// Whether a block is what its plan says: the role and tone, and either the plain text
/// with no rendered lines, or the segment rendered with the shell's options (its code
/// highlighted in its fence language) with the text of those lines.
pub open spec fn block_fits(set: syntect::parsing::SyntaxSet, b: BlockView, p: (Seq<char>, AssistantTone, BlockContent)) -> bool {
    &&& b.role == p.0
    &&& b.tone == p.1
    &&& match p.2 {
        BlockContent::Plain(t) => b.text == t && b.rich_lines is None,
        BlockContent::Rendered(seg) => b.rich_lines matches Some(lines) && lines == rendered_lines(
            seq![seg],
            code_highlights(set, seq![seg]),
            ""@,
        ) && b.text == lines_text(lines),
    }
}

/// The text of a rendered line.
fn line_text_of(line: &RenderedLine) -> (r: Vec<char>)
    ensures
        r@ == line_text(line@),
{
    match line {
        RenderedLine::Spans(spans) => {
            let mut out: Vec<char> = Vec::new();
            let mut i: usize = 0;
            while i < spans.len()
                invariant
                    i <= spans.len(),
                    out@ == spans_text(span_views(spans@).take(i as int)),
                decreases spans.len() - i,
            {
                assert(span_views(spans@).take(i as int + 1).drop_last() =~= span_views(spans@).take(
                    i as int,
                ));
                push_str(&mut out, spans[i].text.as_str());
                i += 1;
            }
            assert(span_views(spans@).take(spans.len() as int) =~= span_views(spans@));
            out
        },
        RenderedLine::ReasonLedger(t) => chars_of(t.as_str()),
    }
}

/// The text of rendered lines, one per row.
fn lines_text_of(lines: &Vec<RenderedLine>) -> (r: String)
    ensures
        r@ == lines_text(line_views(lines@)),
{
    let ghost texts = line_views(lines@).map_values(|l: LineView| line_text(l));
    let mut out: Vec<char> = Vec::new();
    let mut i: usize = 0;
    while i < lines.len()
        invariant
            i <= lines.len(),
            texts == line_views(lines@).map_values(|l: LineView| line_text(l)),
            out@ == join(texts.take(i as int), "\n"@),
        decreases lines.len() - i,
    {
        proof {
            reveal_strlit("\n");
        }
        assert(texts.take(i as int + 1).drop_last() =~= texts.take(i as int));
        let t = line_text_of(&lines[i]);
        if i > 0 {
            push_str(&mut out, "\n");
        }
        push_chars(&mut out, &t);
        i += 1;
    }
    assert(texts.take(lines.len() as int) =~= texts);
    string_of(out.as_slice())
}

/// The block of one segment of a reply.
fn segment_block(seg: AssistantSegment, assets: &HighlightAssets) -> (r: AssistantBlock)
    ensures
        block_fits(assets.syntaxes(), r@, (segment_role(seg@).0, segment_role(seg@).1, BlockContent::Rendered(seg@))),
{
    let ghost sv = seg@;
    let (role, tone) = match &seg {
        AssistantSegment::Text(_) | AssistantSegment::Code { .. } => ("Assistant:", AssistantTone::Normal),
        AssistantSegment::Think(_) => ("Reasoning:", AssistantTone::Muted),
        AssistantSegment::RunCommand { command, .. } => if is_validation_command(command.as_str()) {
            ("Validation:", AssistantTone::Success)
        } else {
            ("Command:", AssistantTone::Success)
        },
        AssistantSegment::ReadFile { .. } | AssistantSegment::ListDirectory { .. }
        | AssistantSegment::McpCallTool { .. } => ("Tool:", AssistantTone::Muted),
        AssistantSegment::WriteFile { .. } | AssistantSegment::ApplyPatch { .. }
        | AssistantSegment::ReplaceBlock { .. } => ("Files:", AssistantTone::Success),
    };
    let mut single: Vec<AssistantSegment> = Vec::new();
    single.push(seg);
    assert(segments_view(single@) =~= seq![sv]);
    let highlights = highlight_segments(assets, &single);
    let lines = render_assistant_segments(&single, &highlights, SegmentRenderOptions::shell());
    let text = lines_text_of(&lines);
    proof {
        reveal_strlit("Assistant:");
        reveal_strlit("Reasoning:");
        reveal_strlit("Validation:");
        reveal_strlit("Command:");
        reveal_strlit("Tool:");
        reveal_strlit("Files:");
    }
    AssistantBlock { role: role.to_owned(), text, tone, rich_lines: Some(lines) }
}

impl ChatSession {
    /// The blocks of the session's feed: for each message in order, a block for a user
    /// message and one per segment of an assistant reply; then the last error, and a
    /// running command with one block per line of its output (see [`tail_plan`]).
    pub fn shell_transcript_blocks(&self, assets: &HighlightAssets) -> (r: Vec<AssistantBlock>)
        ensures
            r@.len() == (messages_plan(self@.messages) + tail_plan(
                self@.last_error,
                self@.running_command,
                self@.running_command_name,
                self@.command_output_lines,
            )).len(),
            forall|i: int|
                0 <= i < r@.len() ==> block_fits(
                    assets.syntaxes(),
                    #[trigger] r@[i]@,
                    (messages_plan(self@.messages) + tail_plan(
                        self@.last_error,
                        self@.running_command,
                        self@.running_command_name,
                        self@.command_output_lines,
                    ))[i],
                ),
    {
        let mut blocks: Vec<AssistantBlock> = Vec::new();
        let mut m: usize = 0;
        while m < self.messages.len()
            invariant
                m <= self.messages.len(),
                blocks@.len() == messages_plan(self@.messages.take(m as int)).len(),
                forall|i: int|
                    0 <= i < blocks@.len() ==> block_fits(
                        assets.syntaxes(),
                        #[trigger] blocks@[i]@,
                        messages_plan(self@.messages.take(m as int))[i],
                    ),
            decreases self.messages.len() - m,
        {
            let ghost before = blocks@;
            let ghost plan_before = messages_plan(self@.messages.take(m as int));
            assert(self@.messages.take(m as int + 1).drop_last() =~= self@.messages.take(m as int));
            match &self.messages[m] {
                ChatMessage::User(text) => {
                    proof {
                        reveal_strlit("User:");
                    }
                    blocks.push(
                        AssistantBlock {
                            role: "User:".to_owned(),
                            text: text.as_str().to_owned(),
                            tone: AssistantTone::Muted,
                            rich_lines: None,
                        },
                    );
                },
                ChatMessage::Assistant(text) => {
                    let mut segs = parse_assistant_segments(text.as_str(), 0, m, TranscriptSurface::Chat);
                    let ghost all = segments_view(segs@);
                    let n0 = segs.len();
                    assert(all.len() == n0);
                    let ghost added = message_plan(self@.messages[m as int]);
                    let mut k: usize = 0;
                    while segs.len() > 0
                        invariant
                            k <= all.len(),
                            all.len() <= usize::MAX,
                            segs@.len() == all.len() - k,
                            segments_view(segs@) == all.skip(k as int),
                            added.len() == all.len(),
                            forall|j: int| 0 <= j < all.len() ==> #[trigger] added[j] == (
                                segment_role(all[j]).0,
                                segment_role(all[j]).1,
                                BlockContent::Rendered(all[j]),
                            ),
                            blocks@.len() == before.len() + k,
                            forall|i: int| 0 <= i < before.len() ==> blocks@[i] == before[i],
                            forall|j: int| 0 <= j < k ==> block_fits(assets.syntaxes(), #[trigger] blocks@[before.len() + j]@, added[j]),
                        decreases segs.len(),
                    {
                        assert(segments_view(segs@)[0] == all[k as int]);
                        let ghost old_segs = segs@;
                        let seg = segs.remove(0);
                        assert(segs@ =~= old_segs.subrange(1, old_segs.len() as int));
                        assert forall|j: int| 0 <= j < segs@.len() implies segments_view(segs@)[j]
                            == all.skip(k as int + 1)[j] by {
                            assert(segments_view(old_segs)[j + 1] == all.skip(k as int)[j + 1]);
                        }
                        assert(segments_view(segs@) =~= all.skip(k as int + 1));
                        let b = segment_block(seg, assets);
                        blocks.push(b);
                        k += 1;
                    }
                    assert(all.skip(k as int).len() == 0);
                },
            }
            proof {
                let plan_after = messages_plan(self@.messages.take(m as int + 1));
                assert(plan_after == plan_before + message_plan(self@.messages[m as int]));
                assert forall|i: int| 0 <= i < blocks@.len() implies block_fits(
                    assets.syntaxes(),
                    #[trigger] blocks@[i]@,
                    plan_after[i],
                ) by {
                    if i < before.len() {
                        assert(blocks@[i] == before[i]);
                    } else {
                        let j = i - before.len();
                        assert(blocks@[before.len() + j] == blocks@[i]);
                    }
                }
            }
            m += 1;
        }
        assert(self@.messages.take(self.messages.len() as int) =~= self@.messages);
        let ghost head = blocks@;
        let ghost plan = messages_plan(self@.messages);
        let ghost tail = tail_plan(
            self@.last_error,
            self@.running_command,
            self@.running_command_name,
            self@.command_output_lines,
        );
        proof {
            reveal_strlit("Error:");
            reveal_strlit("Command:");
            reveal_strlit("Command running");
            reveal_strlit("Output:");
        }
        match &self.last_error {
            Some(e) => {
                blocks.push(
                    AssistantBlock {
                        role: "Error:".to_owned(),
                        text: e.as_str().to_owned(),
                        tone: AssistantTone::Error,
                        rich_lines: None,
                    },
                );
            },
            None => {},
        }
        let ghost after_err = blocks@;
        assert(after_err.len() == head.len() + (if self@.last_error is Some { 1int } else { 0 }));
        assert(forall|i: int| 0 <= i < head.len() ==> after_err[i] == head[i]);
        assert(forall|i: int| 0 <= i < after_err.len() ==> block_fits(assets.syntaxes(), #[trigger] after_err[i]@, (plan + tail)[i]));
        if self.running_command {
            let name = match &self.running_command_name {
                Some(n) => n.as_str().to_owned(),
                None => "Command running".to_owned(),
            };
            blocks.push(
                AssistantBlock {
                    role: "Command:".to_owned(),
                    text: name,
                    tone: AssistantTone::Success,
                    rich_lines: None,
                },
            );
            let ghost after_cmd = blocks@;
            assert(forall|i: int| 0 <= i < after_err.len() ==> after_cmd[i] == after_err[i]);
            assert(forall|i: int| 0 <= i < after_cmd.len() ==> block_fits(assets.syntaxes(), #[trigger] after_cmd[i]@, (plan + tail)[i]));
            let mut o: usize = 0;
            while o < self.command_output_lines.len()
                invariant
                    o <= self.command_output_lines.len(),
                    blocks@.len() == after_cmd.len() + o,
                    forall|i: int| 0 <= i < after_cmd.len() ==> blocks@[i] == after_cmd[i],
                    forall|j: int|
                        0 <= j < o ==> (#[trigger] blocks@[after_cmd.len() + j])@.role == "Output:"@
                            && blocks@[after_cmd.len() + j]@.tone == AssistantTone::Muted
                            && blocks@[after_cmd.len() + j]@.text == self@.command_output_lines[j]
                            && blocks@[after_cmd.len() + j]@.rich_lines is None,
                decreases self.command_output_lines.len() - o,
            {
                blocks.push(
                    AssistantBlock {
                        role: "Output:".to_owned(),
                        text: self.command_output_lines[o].as_str().to_owned(),
                        tone: AssistantTone::Muted,
                        rich_lines: None,
                    },
                );
                o += 1;
            }
            proof {
                assert forall|i: int| 0 <= i < blocks@.len() implies block_fits(
                    assets.syntaxes(),
                    #[trigger] blocks@[i]@,
                    (plan + tail)[i],
                ) by {
                    if i < after_cmd.len() {
                        assert(blocks@[i] == after_cmd[i]);
                    } else {
                        let j = i - after_cmd.len();
                        assert(blocks@[after_cmd.len() + j] == blocks@[i]);
                    }
                }
            }
        } else {
            proof {
                assert forall|i: int| 0 <= i < blocks@.len() implies block_fits(
                    assets.syntaxes(),
                    #[trigger] blocks@[i]@,
                    (plan + tail)[i],
                ) by {
                    assert(blocks@[i] == after_err[i]);
                }
            }
        }
        blocks
    }
}

/// The segments of a message: those of an assistant reply; a user message has none.
pub open spec fn reply_segments(m: MessageView) -> Seq<SegmentView> {
    match m {
        MessageView::User(_) => seq![],
        MessageView::Assistant(t) => segments(t),
    }
}

/// How many of the segments are code.
pub open spec fn code_count(segs: Seq<SegmentView>) -> nat
    decreases segs.len(),
{
    if segs.len() == 0 {
        0
    } else {
        code_count(segs.drop_last()) + if segs.last() is Code {
            1nat
        } else {
            0nat
        }
    }
}

/// How many segments the replies among the messages have.
pub open spec fn segment_total(ms: Seq<MessageView>) -> nat
    decreases ms.len(),
{
    if ms.len() == 0 {
        0
    } else {
        segment_total(ms.drop_last()) + reply_segments(ms.last()).len()
    }
}

/// How many code segments the replies among the messages have.
pub open spec fn code_total(ms: Seq<MessageView>) -> nat
    decreases ms.len(),
{
    if ms.len() == 0 {
        0
    } else {
        code_total(ms.drop_last()) + code_count(reply_segments(ms.last()))
    }
}

proof fn lemma_totals_monotone(ms: Seq<MessageView>, i: int)
    requires
        0 <= i <= ms.len(),
    ensures
        segment_total(ms.take(i)) <= segment_total(ms),
        code_total(ms.take(i)) <= code_total(ms),
    decreases ms.len() - i,
{
    if i < ms.len() {
        lemma_totals_monotone(ms, i + 1);
        assert(ms.take(i + 1).drop_last() =~= ms.take(i));
    } else {
        assert(ms.take(i) =~= ms);
    }
}

proof fn lemma_code_count_bounded(segs: Seq<SegmentView>)
    ensures
        code_count(segs) <= segs.len(),
    decreases segs.len(),
{
    if segs.len() > 0 {
        lemma_code_count_bounded(segs.drop_last());
    }
}

impl ChatSession {
    /// How many messages the conversation has, how many segments its replies have, and
    /// how many of those are code.
    pub fn transcript_metrics(&self) -> (r: (usize, usize, usize))
        requires
            segment_total(self@.messages) <= usize::MAX,
        ensures
            r.0 == self@.messages.len(),
            r.1 == segment_total(self@.messages),
            r.2 == code_total(self@.messages),
    {
        let mut segment_count: usize = 0;
        let mut code_blocks: usize = 0;
        let mut m: usize = 0;
        while m < self.messages.len()
            invariant
                m <= self.messages.len(),
                segment_total(self@.messages) <= usize::MAX,
                segment_count == segment_total(self@.messages.take(m as int)),
                code_blocks == code_total(self@.messages.take(m as int)),
                code_blocks <= segment_count,
            decreases self.messages.len() - m,
        {
            assert(self@.messages.take(m as int + 1).drop_last() =~= self@.messages.take(m as int));
            proof {
                lemma_totals_monotone(self@.messages, m as int + 1);
            }
            match &self.messages[m] {
                ChatMessage::User(_) => {},
                ChatMessage::Assistant(text) => {
                    let segs = parse_assistant_segments(text.as_str(), 0, m, TranscriptSurface::Chat);
                    let ghost sv = segments_view(segs@);
                    let mut codes: usize = 0;
                    let mut k: usize = 0;
                    while k < segs.len()
                        invariant
                            k <= segs.len(),
                            sv == segments_view(segs@),
                            codes == code_count(sv.take(k as int)),
                            codes <= k,
                        decreases segs.len() - k,
                    {
                        assert(sv.take(k as int + 1).drop_last() =~= sv.take(k as int));
                        proof {
                            lemma_code_count_bounded(sv.take(k as int));
                        }
                        match &segs[k] {
                            AssistantSegment::Code { .. } => {
                                codes += 1;
                            },
                            _ => {},
                        }
                        k += 1;
                    }
                    assert(sv.take(segs.len() as int) =~= sv);
                    proof {
                        lemma_code_count_bounded(sv);
                    }
                    segment_count = segment_count + segs.len();
                    code_blocks = code_blocks + codes;
                },
            }
            m += 1;
        }
        assert(self@.messages.take(self.messages.len() as int) =~= self@.messages);
        (self.messages.len(), segment_count, code_blocks)
    }
}

} // verus!
