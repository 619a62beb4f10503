//! The items of the shell's feed: the assistant's blocks (with the agent's last status, or
//! a prompt when there is nothing yet), each titled by its role, split into lines and
//! toned by its role; or, while the preview has the focus, the preview itself.
use vstd::prelude::*;
use crate::blocks::{segment_role, AssistantBlock, AssistantTone, BlockView};
use crate::chat::is_validation;
use crate::transcript::SegmentView;
use crate::patch::{chars_eq_str, lines, lines_view, split_lines};
use crate::render::{line_views, LineView, RenderedLine};
use crate::text::{chars_of, string_of};
use crate::action_discovery::{lemma_views_push, views};

verus! {

/// How an item of the feed is toned.
#[derive(Debug, Clone, Copy, PartialEq, Eq, Structural)]
pub enum FeedItemTone {
    User,
    Reasoning,
    Tool,
    Command,
    Validation,
    FileChange,
    Warning,
    Muted,
    Error,
    Assistant,
    Success,
}

/// An item of the feed: its title, its lines, the rendered lines of a reply's segment,
/// and its tone.
#[derive(Debug)]
pub struct ShellFeedItem {
    pub title: String,
    pub lines: Vec<String>,
    pub rich_lines: Option<Vec<RenderedLine>>,
    pub tone: FeedItemTone,
}

/// The content of a [`ShellFeedItem`].
pub struct FeedItemView {
    pub title: Seq<char>,
    pub lines: Seq<Seq<char>>,
    pub rich_lines: Option<Seq<LineView>>,
    pub tone: FeedItemTone,
}

impl View for ShellFeedItem {
    type V = FeedItemView;

    open spec fn view(&self) -> FeedItemView {
        FeedItemView {
            title: self.title@,
            lines: views(self.lines@),
            rich_lines: match self.rich_lines {
                Some(v) => Some(line_views(v@)),
                None => None,
            },
            tone: self.tone,
        }
    }
}

/// `s` without its trailing colons, as `str::trim_end_matches(':')` gives it.
pub open spec fn without_colons(s: Seq<char>) -> Seq<char>
    decreases s.len(),
{
    if s.len() > 0 && s.last() == ':' {
        without_colons(s.drop_last())
    } else {
        s
    }
}

/// The item tone of a block titled `title` and toned `tone`: by the title for the
/// roles that have their own tone, else by the block's tone.
pub open spec fn feed_tone(title: Seq<char>, tone: AssistantTone) -> FeedItemTone {
    if title == "User"@ {
        FeedItemTone::User
    } else if title == "Reasoning"@ {
        FeedItemTone::Reasoning
    } else if title == "Tool"@ {
        FeedItemTone::Tool
    } else if title == "Command"@ {
        FeedItemTone::Command
    } else if title == "Validation"@ {
        FeedItemTone::Validation
    } else if title == "Files"@ {
        FeedItemTone::FileChange
    } else if title == "Status"@ {
        FeedItemTone::Warning
    } else if title == "Output"@ {
        FeedItemTone::Muted
    } else if title == "Error"@ {
        FeedItemTone::Error
    } else {
        match tone {
            AssistantTone::Normal => FeedItemTone::Assistant,
            AssistantTone::Muted => FeedItemTone::Muted,
            AssistantTone::Error => FeedItemTone::Error,
            AssistantTone::Success => FeedItemTone::Success,
        }
    }
}

/// The item a block becomes: titled by its role without the colon, its text split into
/// lines, its rendered lines kept, toned by its role.
pub open spec fn item_of(b: BlockView) -> FeedItemView {
    FeedItemView {
        title: without_colons(b.role),
        lines: lines(b.text),
        rich_lines: b.rich_lines,
        tone: feed_tone(without_colons(b.role), b.tone),
    }
}

/// The block of the agent's last status line.
pub open spec fn status_block(status: Seq<char>) -> BlockView {
    BlockView { role: "Status:"@, text: status, tone: AssistantTone::Muted, rich_lines: None }
}

/// The block shown when there is nothing else.
pub open spec fn prompt_block() -> BlockView {
    BlockView {
        role: "Assistant:"@,
        text: "Ask about the current file, run a command, or request a summary."@,
        tone: AssistantTone::Muted,
        rich_lines: None,
    }
}

/// The blocks the feed shows: the assistant's, then the agent's last status line when
/// there is one; the prompt block when that leaves none.
pub open spec fn feed_blocks(blocks: Seq<BlockView>, status: Option<Seq<char>>) -> Seq<BlockView> {
    let all = match status {
        Some(s) => blocks.push(status_block(s)),
        None => blocks,
    };
    if all.len() == 0 {
        seq![prompt_block()]
    } else {
        all
    }
}

/// The contents of a list of blocks.
pub open spec fn block_views(v: Seq<AssistantBlock>) -> Seq<BlockView> {
    v.map_values(|b: AssistantBlock| b@)
}

/// The contents of a list of feed items.
pub open spec fn item_views(v: Seq<ShellFeedItem>) -> Seq<FeedItemView> {
    v.map_values(|i: ShellFeedItem| i@)
}

/// `s` without its trailing colons.
fn trimmed_role(s: &str) -> (r: Vec<char>)
    ensures
        r@ == without_colons(s@),
{
    let mut v = chars_of(s);
    while v.len() > 0 && v[v.len() - 1] == ':'
        invariant
            without_colons(v@) == without_colons(s@),
        decreases v.len(),
    {
        v.pop();
    }
    v
}

/// The lines of `text` as `str::lines` gives them.
fn lines_of(text: &str) -> (r: Vec<String>)
    ensures
        views(r@) == lines(text@),
{
    let pieces = split_lines(&chars_of(text));
    let mut out: Vec<String> = Vec::new();
    let mut i: usize = 0;
    while i < pieces.len()
        invariant
            i <= pieces.len(),
            lines_view(pieces@) == lines(text@),
            views(out@) == lines_view(pieces@).take(i as int),
        decreases pieces.len() - i,
    {
        let line = string_of(pieces[i].as_slice());
        proof {
            lemma_views_push(out@, line);
            assert(lines_view(pieces@).take(i + 1) =~= lines_view(pieces@).take(i as int).push(
                pieces@[i as int]@,
            ));
        }
        out.push(line);
        i += 1;
    }
    assert(lines_view(pieces@).take(pieces.len() as int) =~= lines_view(pieces@));
    out
}

/// The item tone of a block titled `title` and toned `tone`.
fn feed_item_tone(title: &Vec<char>, tone: AssistantTone) -> (r: FeedItemTone)
    ensures
        r == feed_tone(title@, tone),
{
    if chars_eq_str(title, "User") {
        FeedItemTone::User
    } else if chars_eq_str(title, "Reasoning") {
        FeedItemTone::Reasoning
    } else if chars_eq_str(title, "Tool") {
        FeedItemTone::Tool
    } else if chars_eq_str(title, "Command") {
        FeedItemTone::Command
    } else if chars_eq_str(title, "Validation") {
        FeedItemTone::Validation
    } else if chars_eq_str(title, "Files") {
        FeedItemTone::FileChange
    } else if chars_eq_str(title, "Status") {
        FeedItemTone::Warning
    } else if chars_eq_str(title, "Output") {
        FeedItemTone::Muted
    } else if chars_eq_str(title, "Error") {
        FeedItemTone::Error
    } else {
        match tone {
            AssistantTone::Normal => FeedItemTone::Assistant,
            AssistantTone::Muted => FeedItemTone::Muted,
            AssistantTone::Error => FeedItemTone::Error,
            AssistantTone::Success => FeedItemTone::Success,
        }
    }
}

/// The feed item that `block` becomes.
pub fn shell_feed_item(block: AssistantBlock) -> (r: ShellFeedItem)
    ensures
        r@ == item_of(block@),
{
    let title = trimmed_role(block.role.as_str());
    let tone = feed_item_tone(&title, block.tone);
    let lines = lines_of(block.text.as_str());
    ShellFeedItem { title: string_of(title.as_slice()), lines, rich_lines: block.rich_lines, tone }
}

/// The agent's last status line, if it has one.
pub open spec fn last_status(status_lines: Seq<Seq<char>>) -> Option<Seq<char>> {
    if status_lines.len() == 0 {
        None
    } else {
        Some(status_lines.last())
    }
}

/// The item that shows the preview titled `title` with `lines`.
pub open spec fn preview_item(title: Seq<char>, lines: Seq<Seq<char>>) -> FeedItemView {
    FeedItemView { title, lines, rich_lines: None, tone: FeedItemTone::Muted }
}

/// The items of the shell's feed. While the preview has the focus (`preview` is its title
/// and lines), the preview alone, muted. Otherwise the assistant's `blocks`, then a status
/// block with the last of the agent's `status_lines` when there is one, or the prompt
/// block when that leaves none; each becomes an item by [`item_of`].
pub fn shell_feed_items(
    blocks: Vec<AssistantBlock>,
    status_lines: &Vec<String>,
    preview: Option<(String, Vec<String>)>,
) -> (r: Vec<ShellFeedItem>)
    ensures
        match preview {
            Some((title, lines)) => item_views(r@) == seq![preview_item(title@, views(lines@))],
            None => item_views(r@) == feed_blocks(block_views(blocks@), last_status(views(status_lines@))).map_values(
                |b: BlockView| item_of(b),
            ),
        },
{
    let mut out: Vec<ShellFeedItem> = Vec::new();
    match preview {
        Some((title, lines)) => {
            out.push(ShellFeedItem { title, lines, rich_lines: None, tone: FeedItemTone::Muted });
            assert(item_views(out@) =~= seq![preview_item(title@, views(lines@))]);
            return out;
        },
        None => {},
    }
    let ghost all = feed_blocks(block_views(blocks@), last_status(views(status_lines@)));
    let mut blocks = blocks;
    if status_lines.len() > 0 {
        let last = status_lines[status_lines.len() - 1].clone();
        blocks.push(AssistantBlock { role: "Status:".to_owned(), text: last, tone: AssistantTone::Muted, rich_lines: None });
    }
    if blocks.len() == 0 {
        blocks.push(AssistantBlock {
            role: "Assistant:".to_owned(),
            text: "Ask about the current file, run a command, or request a summary.".to_owned(),
            tone: AssistantTone::Muted,
            rich_lines: None,
        });
    }
    assert(block_views(blocks@) =~= all);
    let ghost bv = block_views(blocks@);
    let n = blocks.len();
    let mut i: usize = 0;
    while blocks.len() > 0
        invariant
            i + blocks.len() == n,
            n == bv.len(),
            block_views(blocks@) == bv.skip(i as int),
            item_views(out@) == bv.take(i as int).map_values(|b: BlockView| item_of(b)),
        decreases blocks.len(),
    {
        let ghost before = blocks@;
        let ghost done = out@;
        let b = blocks.remove(0);
        let item = shell_feed_item(b);
        proof {
            assert(block_views(before)[0] == bv.skip(i as int)[0]);
            assert(b@ == bv[i as int]);
            assert(blocks@ =~= before.subrange(1, before.len() as int));
            assert(block_views(blocks@) =~= bv.skip(i + 1)) by {
                assert forall|k: int| 0 <= k < blocks@.len() implies block_views(blocks@)[k] == bv.skip(i + 1)[k] by {
                    assert(block_views(before)[k + 1] == bv.skip(i as int)[k + 1]);
                }
            }
        }
        out.push(item);
        proof {
            assert(item_views(out@) =~= item_views(done).push(item@));
            assert(bv.take(i + 1) =~= bv.take(i as int).push(bv[i as int]));
            assert(bv.take(i + 1).map_values(|b: BlockView| item_of(b)) =~= bv.take(i as int).map_values(
                |b: BlockView| item_of(b),
            ).push(item_of(bv[i as int])));
        }
        i += 1;
    }
    assert(bv.take(n as int) =~= bv);
    out
}

/// The role labels of the feed, with their colons and without, told apart by their
/// lengths and first letters.
proof fn lemma_role_labels()
    ensures
        without_colons("User:"@) == "User"@,
        "User"@.len() == 4,
        "User"@[0] == 'U',
        without_colons("Assistant:"@) == "Assistant"@,
        "Assistant"@.len() == 9,
        "Assistant"@[0] == 'A',
        without_colons("Reasoning:"@) == "Reasoning"@,
        "Reasoning"@.len() == 9,
        "Reasoning"@[0] == 'R',
        without_colons("Validation:"@) == "Validation"@,
        "Validation"@.len() == 10,
        "Validation"@[0] == 'V',
        without_colons("Command:"@) == "Command"@,
        "Command"@.len() == 7,
        "Command"@[0] == 'C',
        without_colons("Tool:"@) == "Tool"@,
        "Tool"@.len() == 4,
        "Tool"@[0] == 'T',
        without_colons("Files:"@) == "Files"@,
        "Files"@.len() == 5,
        "Files"@[0] == 'F',
        without_colons("Status:"@) == "Status"@,
        "Status"@.len() == 6,
        "Status"@[0] == 'S',
        without_colons("Output:"@) == "Output"@,
        "Output"@.len() == 6,
        "Output"@[0] == 'O',
        without_colons("Error:"@) == "Error"@,
        "Error"@.len() == 5,
        "Error"@[0] == 'E',
{
    reveal_strlit("User:");
    reveal_strlit("User");
    reveal_strlit("Assistant:");
    reveal_strlit("Assistant");
    reveal_strlit("Reasoning:");
    reveal_strlit("Reasoning");
    reveal_strlit("Validation:");
    reveal_strlit("Validation");
    reveal_strlit("Command:");
    reveal_strlit("Command");
    reveal_strlit("Tool:");
    reveal_strlit("Tool");
    reveal_strlit("Files:");
    reveal_strlit("Files");
    reveal_strlit("Status:");
    reveal_strlit("Status");
    reveal_strlit("Output:");
    reveal_strlit("Output");
    reveal_strlit("Error:");
    reveal_strlit("Error");
    reveal_with_fuel(without_colons, 3);
    assert("User:"@.drop_last() =~= "User"@);
    assert("Assistant:"@.drop_last() =~= "Assistant"@);
    assert("Reasoning:"@.drop_last() =~= "Reasoning"@);
    assert("Validation:"@.drop_last() =~= "Validation"@);
    assert("Command:"@.drop_last() =~= "Command"@);
    assert("Tool:"@.drop_last() =~= "Tool"@);
    assert("Files:"@.drop_last() =~= "Files"@);
    assert("Status:"@.drop_last() =~= "Status"@);
    assert("Output:"@.drop_last() =~= "Output"@);
    assert("Error:"@.drop_last() =~= "Error"@);
}

/// The feed shows each part of a reply in the tone of what it is: text and code as the
/// assistant's, reasoning as reasoning, a validation command as validation and any other
/// command as a command, a file read, directory listing or tool call as a tool, and a
/// file write, patch or block replacement as a file change.
pub proof fn lemma_reply_parts_take_their_tones(seg: SegmentView)
    ensures
        feed_tone(without_colons(segment_role(seg).0), segment_role(seg).1) == match seg {
            SegmentView::Text(_) => FeedItemTone::Assistant,
            SegmentView::Code { .. } => FeedItemTone::Assistant,
            SegmentView::Think(_) => FeedItemTone::Reasoning,
            SegmentView::RunCommand { command, .. } => if is_validation(command) {
                FeedItemTone::Validation
            } else {
                FeedItemTone::Command
            },
            SegmentView::ReadFile { .. } => FeedItemTone::Tool,
            SegmentView::ListDirectory { .. } => FeedItemTone::Tool,
            SegmentView::McpCallTool { .. } => FeedItemTone::Tool,
            SegmentView::WriteFile { .. } => FeedItemTone::FileChange,
            SegmentView::ApplyPatch { .. } => FeedItemTone::FileChange,
            SegmentView::ReplaceBlock { .. } => FeedItemTone::FileChange,
        },
{
    lemma_role_labels();
}

} // verus!
