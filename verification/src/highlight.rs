//! Syntax highlighting of the code in a reply, line by line, with the syntaxes and themes
//! bundled with `syntect`.
use vstd::prelude::*;
use crate::glyphs::TermColor;
use crate::render::{
    line_views, rendered_lines, render_assistant_segments, token_lines_view, tokens_view, CodeToken,
    RenderedLine,
};
use crate::transcript::{segments_view, AssistantSegment, SegmentRenderOptions, SegmentView};
use crate::syntaxes::{
    extension_syntax, highlight_line, new_highlighter, plain_text_syntax, syntax_by_extension,
    syntax_by_token, syntect_line_tokens, token_syntax, NamedSyntax,
};
use crate::text::{chars_of, string_of};

pub use crate::syntaxes::{spelled, HighlightAssets};

verus! {

/// The pieces of `s` between newlines, as `str::split('\n')` gives them (an empty text is
/// one empty piece).
pub open spec fn split_newlines(s: Seq<char>) -> Seq<Seq<char>>
    decreases s.len(),
{
    if s.len() == 0 {
        seq![seq![]]
    } else {
        let rest = split_newlines(s.drop_last());
        if s.last() == '\n' {
            rest.push(seq![])
        } else {
            rest.update(rest.len() - 1, rest.last().push(s.last()))
        }
    }
}

/// The pieces of `s` between newlines.
pub(crate) fn split_on_newlines(s: &str) -> (r: Vec<Vec<char>>)
    ensures
        r@.map_values(|l: Vec<char>| l@) == split_newlines(s@),
{
    let c = chars_of(s);
    let mut out: Vec<Vec<char>> = Vec::new();
    out.push(Vec::new());
    let mut i: usize = 0;
    assert(c@.take(0) =~= seq![]);
    assert(out@.map_values(|l: Vec<char>| l@) =~= seq![seq![]]);
    while i < c.len()
        invariant
            i <= c.len(),
            c@ == s@,
            out@.len() >= 1,
            out@.map_values(|l: Vec<char>| l@) == split_newlines(c@.take(i as int)),
        decreases c.len() - i,
    {
        let ghost before = out@.map_values(|l: Vec<char>| l@);
        proof {
            assert(c@.take(i + 1).drop_last() =~= c@.take(i as int));
            assert(c@.take(i + 1).last() == c@[i as int]);
        }
        if c[i] == '\n' {
            out.push(Vec::new());
            assert(out@.map_values(|l: Vec<char>| l@) =~= before.push(seq![]));
        } else {
            let mut line = out.pop().unwrap();
            line.push(c[i]);
            out.push(line);
            assert(out@.map_values(|l: Vec<char>| l@) =~= before.update(
                before.len() - 1,
                before.last().push(c@[i as int]),
            ));
        }
        i += 1;
    }
    assert(c@.take(c.len() as int) =~= c@);
    out
}

/// Whether highlighted lines spell out `code` line by line: one line of tokens for each
/// piece of the code between newlines, each spelling out its piece.
pub open spec fn spells_code(lines: Seq<Seq<(Seq<char>, TermColor)>>, code: Seq<char>) -> bool {
    &&& lines.len() == split_newlines(code).len()
    &&& forall|i: int| 0 <= i < lines.len() ==> spelled(#[trigger] lines[i]) == split_newlines(code)[i]
}

/// The name of the syntax a fence's language selects in a set of syntaxes: the one found
/// by token, else the one found by extension, else the plain-text syntax.
pub open spec fn fence_syntax(set: syntect::parsing::SyntaxSet, language: Seq<char>) -> Seq<char> {
    match token_syntax(set, language) {
        Some(n) => n,
        None => match extension_syntax(set, language) {
            Some(n) => n,
            None => "Plain Text"@,
        },
    }
}

/// The syntax a fence's language selects among the assets' syntaxes.
fn syntax_for<'a>(assets: &'a HighlightAssets, language: &str) -> (r: NamedSyntax<'a>)
    ensures
        r@ == fence_syntax(assets.syntaxes(), language@),
{
    match syntax_by_token(assets, language) {
        Some(s) => s,
        None => match syntax_by_extension(assets, language) {
            Some(s) => s,
            None => plain_text_syntax(assets),
        },
    }
}

/// The tokens of line `i` of code highlighted in the syntax named `syntax`, whose lines
/// are `lines`: syntect's, or, where syntect gives none, the whole line in the terminal's
/// default colour.
pub open spec fn code_line_tokens(syntax: Seq<char>, lines: Seq<Seq<char>>, i: int) -> Seq<(Seq<char>, TermColor)> {
    let t = syntect_line_tokens(syntax, lines.take(i), lines[i]);
    if t.len() > 0 {
        t
    } else {
        seq![(lines[i], TermColor::Reset)]
    }
}

/// The tokens of each line of `code` highlighted in the syntax named `syntax`.
pub open spec fn code_tokens(syntax: Seq<char>, code: Seq<char>) -> Seq<Seq<(Seq<char>, TermColor)>> {
    let lines = split_newlines(code);
    Seq::new(lines.len(), |i: int| code_line_tokens(syntax, lines, i))
}

/// The highlighting of each segment of a reply with a set of syntaxes: the code of a code
/// segment in the syntax its fence language selects, nothing for the other segments.
pub open spec fn code_highlights(set: syntect::parsing::SyntaxSet, segs: Seq<SegmentView>) -> Seq<Seq<Seq<(Seq<char>, TermColor)>>> {
    Seq::new(
        segs.len(),
        |i: int| match segs[i] {
            SegmentView::Code { language, body } => code_tokens(fence_syntax(set, language), body),
            _ => seq![],
        },
    )
}

/// The code highlighted line by line in the syntax its fence names (else plain text):
/// each line's tokens spell out the line. A line the highlighter gives no tokens for
/// becomes one token of the whole line in the terminal's default colour.
pub fn highlight_code(assets: &HighlightAssets, code: &str, language: &str) -> (r: Vec<Vec<CodeToken>>)
    ensures
        token_lines_view(r@) == code_tokens(fence_syntax(assets.syntaxes(), language@), code@),
        spells_code(token_lines_view(r@), code@),
{
    let syntax = syntax_for(assets, language);
    let ghost name = fence_syntax(assets.syntaxes(), language@);
    let mut highlighter = new_highlighter(assets, &syntax);
    let pieces = split_on_newlines(code);
    let ghost pv = pieces@.map_values(|l: Vec<char>| l@);
    let mut out: Vec<Vec<CodeToken>> = Vec::new();
    let mut i: usize = 0;
    while i < pieces.len()
        invariant
            i <= pieces.len(),
            pv == pieces@.map_values(|l: Vec<char>| l@),
            pv == split_newlines(code@),
            out@.len() == i,
            highlighter@ == (name, pv.take(i as int)),
            forall|j: int| 0 <= j < i ==> spelled(tokens_view(#[trigger] out@[j]@)) == pv[j],
            forall|j: int| 0 <= j < i ==> tokens_view(#[trigger] out@[j]@) == code_line_tokens(name, pv, j),
        decreases pieces.len() - i,
    {
        let line = string_of(pieces[i].as_slice());
        assert(line@ == pv[i as int]);
        let tokens = highlight_line(&mut highlighter, line.as_str(), assets);
        assert(pv.take(i as int + 1) =~= pv.take(i as int).push(pv[i as int]));
        let row = if tokens.len() == 0 {
            let mut v: Vec<CodeToken> = Vec::new();
            let text = string_of(pieces[i].as_slice());
            v.push(CodeToken { text, fg: TermColor::Reset });
            proof {
                let tv = tokens_view(v@);
                assert(tv.drop_last() =~= seq![]);
                assert(spelled(tv) == spelled(tv.drop_last()) + tv.last().0);
                assert(spelled(tv.drop_last()) == Seq::<char>::empty());
                assert(tv =~= seq![(pv[i as int], TermColor::Reset)]);
            }
            v
        } else {
            tokens
        };
        out.push(row);
        i += 1;
    }
    proof {
        let lv = token_lines_view(out@);
        assert forall|j: int| 0 <= j < lv.len() implies spelled(#[trigger] lv[j]) == split_newlines(code@)[j] by {
            assert(lv[j] == tokens_view(out@[j]@));
        }
        assert forall|j: int| 0 <= j < lv.len() implies #[trigger] lv[j] == code_tokens(name, code@)[j] by {
            assert(lv[j] == tokens_view(out@[j]@));
        }
        assert(lv =~= code_tokens(name, code@));
    }
    out
}

/// Whether per-segment highlighting fits the segments: one entry per segment, the code of
/// a code segment spelled out line by line, nothing for the other segments.
pub open spec fn highlights_fit(
    h: Seq<Seq<Seq<(Seq<char>, TermColor)>>>,
    segs: Seq<SegmentView>,
) -> bool {
    &&& h.len() == segs.len()
    &&& forall|i: int|
        0 <= i < segs.len() ==> match #[trigger] segs[i] {
            SegmentView::Code { body, .. } => spells_code(h[i], body),
            _ => h[i].len() == 0,
        }
}

/// The highlighting of each segment of a reply.
pub fn highlight_segments(assets: &HighlightAssets, segments: &Vec<AssistantSegment>) -> (r: Vec<
    Vec<Vec<CodeToken>>,
>)
    ensures
        highlights_fit(
            r@.map_values(|h: Vec<Vec<CodeToken>>| token_lines_view(h@)),
            segments_view(segments@),
        ),
        r@.map_values(|h: Vec<Vec<CodeToken>>| token_lines_view(h@)) == code_highlights(assets.syntaxes(), segments_view(segments@)),
{
    let mut out: Vec<Vec<Vec<CodeToken>>> = Vec::new();
    let mut i: usize = 0;
    while i < segments.len()
        invariant
            i <= segments.len(),
            out@.len() == i,
            forall|j: int|
                0 <= j < i ==> match #[trigger] segments@[j]@ {
                    SegmentView::Code { body, .. } => spells_code(token_lines_view(out@[j]@), body),
                    _ => out@[j]@.len() == 0,
                },
            forall|j: int|
                0 <= j < i ==> token_lines_view(#[trigger] out@[j]@) == code_highlights(assets.syntaxes(), segments_view(segments@))[j],
        decreases segments.len() - i,
    {
        let h = match &segments[i] {
            AssistantSegment::Code { language, body } => highlight_code(
                assets,
                body.as_str(),
                language.as_str(),
            ),
            _ => Vec::new(),
        };
        out.push(h);
        i += 1;
    }
    proof {
        let hv = out@.map_values(|h: Vec<Vec<CodeToken>>| token_lines_view(h@));
        let segs = segments_view(segments@);
        assert forall|j: int| 0 <= j < segs.len() implies match #[trigger] segs[j] {
            SegmentView::Code { body, .. } => spells_code(hv[j], body),
            _ => hv[j].len() == 0,
        } by {
            assert(segs[j] == segments@[j]@);
            assert(hv[j] == token_lines_view(out@[j]@));
        }
        assert forall|j: int| 0 <= j < segs.len() implies #[trigger] hv[j] == code_highlights(assets.syntaxes(), segs)[j] by {
            assert(hv[j] == token_lines_view(out@[j]@));
        }
        assert(hv =~= code_highlights(assets.syntaxes(), segs));
    }
    out
}

/// A reply's segments laid out as lines, its code highlighted in its fence language.
pub fn render_assistant_reply(
    segments: &Vec<AssistantSegment>,
    assets: &HighlightAssets,
    options: SegmentRenderOptions,
) -> (r: Vec<RenderedLine>)
    ensures
        line_views(r@) == rendered_lines(
            segments_view(segments@),
            code_highlights(assets.syntaxes(), segments_view(segments@)),
            options.left_pad@,
        ),
{
    let highlights = highlight_segments(assets, segments);
    render_assistant_segments(segments, &highlights, options)
}

} // verus!
