use quorp_tui::glyphs::TermColor;
use quorp_tui::highlight::{highlight_code, render_assistant_reply, HighlightAssets};
use quorp_tui::render::{
    code_block_background, high_contrast_code_color, lift_channel, render_assistant_segments,
    CodeToken, RenderedLine, Rgb, SpanStyle,
};
use quorp_tui::transcript::{
    AssistantSegment, ReadFileRange, SegmentRenderOptions, TranscriptSurface,
};

/// Each line's text, spans joined; a reasoning block as `<ledger: ...>`.
fn texts(lines: &[RenderedLine]) -> Vec<String> {
    lines
        .iter()
        .map(|line| match line {
            RenderedLine::Spans(spans) => spans.iter().map(|s| s.text.as_str()).collect::<String>(),
            RenderedLine::ReasonLedger(t) => format!("<ledger: {t}>"),
        })
        .collect()
}

/// What a highlighter gives for code it does not colour: each line as one uncoloured token.
fn plain_highlight(body: &str) -> Vec<Vec<CodeToken>> {
    body.split('\n')
        .map(|line| vec![CodeToken { text: line.to_string(), fg: TermColor::Reset }])
        .collect()
}

#[test]
fn render_produces_code_box_without_fences() {
    let segments = vec![AssistantSegment::Code {
        language: "python".to_string(),
        body: "print('hi')".to_string(),
    }];
    let assets = HighlightAssets::load().expect("bundled highlighting theme");
    let lines = render_assistant_reply(&segments, &assets, SegmentRenderOptions::shell());
    let rendered = texts(&lines).join("\n");
    assert!(rendered.contains("python"));
    assert!(rendered.contains("print"));
    assert!(!rendered.contains("```"));
}

#[test]
fn highlighting_colours_tokens_and_keeps_the_text() {
    let assets = HighlightAssets::load().expect("bundled highlighting theme");
    let lines = highlight_code(&assets, "print('hi')\nx = 1", "python");
    assert_eq!(lines.len(), 2);
    let first: String = lines[0].iter().map(|t| t.text.as_str()).collect();
    assert_eq!(first, "print('hi')");
    assert!(lines[0].len() > 1, "python code is split into several tokens");
    assert!(lines[0].iter().all(|t| matches!(t.fg, TermColor::Rgb(..))));
    let second: String = lines[1].iter().map(|t| t.text.as_str()).collect();
    assert_eq!(second, "x = 1");
    let empty = highlight_code(&assets, "", "nosuchlanguage");
    assert_eq!(empty.len(), 1);
    let text: String = empty[0].iter().map(|t| t.text.as_str()).collect();
    assert_eq!(text, "");
}

#[test]
fn code_box_numbers_its_lines_in_a_gutter() {
    let segments = vec![AssistantSegment::Code { language: String::new(), body: "a\nb".to_string() }];
    let highlights = vec![plain_highlight("a\nb")];
    let lines = render_assistant_segments(&segments, &highlights, SegmentRenderOptions::chat());
    assert_eq!(
        texts(&lines),
        vec!["  ┌── code ", "  │    1 a", "  │    2 b", "  └────────────"]
    );
    match &lines[1] {
        RenderedLine::Spans(spans) => {
            assert_eq!(spans[2].style, SpanStyle::CodeGutter);
            assert_eq!(spans[3].style, SpanStyle::CodeToken(None));
        }
        other => panic!("unexpected line {other:?}"),
    }
    let unhighlighted = render_assistant_segments(&segments, &vec![], SegmentRenderOptions::shell());
    assert_eq!(texts(&unhighlighted), vec!["┌── code ", "    1  ", "└────────────"]);
}

#[test]
fn text_reasoning_and_commands_render_in_order() {
    let segments = vec![
        AssistantSegment::Text("first\nsecond".to_string()),
        AssistantSegment::Think("plan".to_string()),
        AssistantSegment::RunCommand { command: "ls\npwd".to_string(), timeout_ms: 30000 },
    ];
    let lines = render_assistant_segments(&segments, &vec![], SegmentRenderOptions::shell());
    assert_eq!(
        texts(&lines),
        vec![
            "first",
            "second",
            "<ledger: plan>",
            "┌── command",
            "│ $ ls",
            "│ $ pwd",
            "└────────────",
        ]
    );
}

#[test]
fn tool_boxes_show_their_fields_and_a_preview() {
    let body = (1..=12).map(|i| format!("line {i}")).collect::<Vec<_>>().join("\n");
    let segments = vec![
        AssistantSegment::ReadFile {
            path: "src/main.rs".to_string(),
            range: Some(ReadFileRange { start_line: 3, end_line: 9 }),
        },
        AssistantSegment::WriteFile { path: "notes.md".to_string(), content: body },
    ];
    let lines = render_assistant_segments(&segments, &vec![], SegmentRenderOptions::shell());
    let t = texts(&lines);
    assert_eq!(t[0], "┌── read_file");
    assert_eq!(t[1], "│ path: src/main.rs");
    assert_eq!(t[2], "│ lines: 3-9");
    assert_eq!(t[3], "└────────────");
    assert_eq!(t[4], "┌── write_file");
    assert_eq!(t[6], "│ line 1");
    assert_eq!(t[15], "│ line 10");
    assert_eq!(t[16], "│ ...");
    assert_eq!(t[17], "└────────────");
    assert_eq!(t.len(), 18);
}

#[test]
fn mcp_arguments_are_pretty_printed() {
    let segments = vec![AssistantSegment::McpCallTool {
        server_name: "docs".to_string(),
        tool_name: "search".to_string(),
        arguments: "{\"query\":\"validation\"}".to_string(),
    }];
    let lines = render_assistant_segments(&segments, &vec![], SegmentRenderOptions::shell());
    assert_eq!(
        texts(&lines),
        vec![
            "┌── mcp_call_tool",
            "│ server: docs",
            "│ tool: search",
            "│ {",
            "│   \"query\": \"validation\"",
            "│ }",
            "└────────────",
        ]
    );
}

#[test]
fn empty_reply_renders_one_padding_line() {
    let lines = render_assistant_segments(&vec![], &vec![], SegmentRenderOptions::chat());
    assert_eq!(texts(&lines), vec!["  "]);
    let lines = render_assistant_segments(
        &vec![AssistantSegment::Text(String::new()), AssistantSegment::Text(String::new())],
        &vec![],
        SegmentRenderOptions::chat(),
    );
    assert_eq!(texts(&lines), vec!["  "]);
}

#[test]
fn code_colours_are_lifted_for_dark_backgrounds() {
    assert_eq!(lift_channel(0), 180);
    assert_eq!(lift_channel(60), 180);
    assert_eq!(lift_channel(100), 160);
    assert_eq!(lift_channel(200), 180);
    assert_eq!(lift_channel(240), 255);
    assert_eq!(
        high_contrast_code_color(TermColor::Rgb(10, 100, 235)),
        Some(Rgb { r: 190, g: 160, b: 255 })
    );
    assert_eq!(high_contrast_code_color(TermColor::Reset), None);
    assert_eq!(
        code_block_background(TermColor::Rgb(20, 5, 30), TranscriptSurface::Chat),
        TermColor::Rgb(6, 0, 22)
    );
    assert_eq!(
        code_block_background(TermColor::Rgb(20, 5, 30), TranscriptSurface::Shell),
        TermColor::Rgb(20, 5, 30)
    );
    assert_eq!(code_block_background(TermColor::Blue, TranscriptSurface::Chat), TermColor::Blue);
}
