use quorp_tui::transcript::{
    parse_assistant_segments, segment_kind, AssistantSegment, ReadFileRange, SegmentKind,
    SegmentRenderOptions, TranscriptSurface,
};

#[test]
fn fenced_python_becomes_code_segment() {
    let segments =
        parse_assistant_segments("```python\nprint('hi')\n```", 1, 0, TranscriptSurface::Chat);
    assert_eq!(
        segments,
        vec![AssistantSegment::Code {
            language: "python".to_string(),
            body: "print('hi')\n".to_string(),
        }]
    );
}

#[test]
fn mixed_text_and_code_segments_are_preserved() {
    let segments = parse_assistant_segments(
        "before\n```python\nprint('hi')\n```\nafter",
        1,
        0,
        TranscriptSurface::Chat,
    );
    assert_eq!(segments.len(), 3);
    assert!(matches!(segments[0], AssistantSegment::Text(_)));
    assert!(matches!(segments[1], AssistantSegment::Code { .. }));
    assert!(matches!(segments[2], AssistantSegment::Text(_)));
}

#[test]
fn incomplete_fence_stays_code() {
    let segments = parse_assistant_segments("```python\nprint('hi')", 1, 0, TranscriptSurface::Chat);
    assert_eq!(segments.len(), 1);
    assert!(matches!(segments[0], AssistantSegment::Code { .. }));
}

#[test]
fn reasoning_and_code_both_classify() {
    let segments = parse_assistant_segments(
        "<think>step by step</think>\n```python\nprint('hi')\n```",
        1,
        0,
        TranscriptSurface::Chat,
    );
    assert!(matches!(segments[0], AssistantSegment::Think(_)));
    assert!(matches!(segments[1], AssistantSegment::Text(_)));
    assert!(matches!(segments[2], AssistantSegment::Code { .. }));
}

#[test]
fn parse_read_file_tag() {
    let segments = parse_assistant_segments(
        "<read_file path=\"src/main.rs\"></read_file>",
        1,
        0,
        TranscriptSurface::Chat,
    );
    assert_eq!(
        segments,
        vec![AssistantSegment::ReadFile { path: "src/main.rs".to_string(), range: None }]
    );
}

#[test]
fn parse_read_file_tag_with_range() {
    let segments = parse_assistant_segments(
        "<read_file path=\"src/main.rs\" start_line=\"390\" end_line=\"450\"></read_file>",
        1,
        0,
        TranscriptSurface::Chat,
    );
    assert_eq!(
        segments,
        vec![AssistantSegment::ReadFile {
            path: "src/main.rs".to_string(),
            range: Some(ReadFileRange { start_line: 390, end_line: 450 }),
        }]
    );
}

#[test]
fn parse_list_directory_tag() {
    let segments = parse_assistant_segments(
        "intro <list_directory path=\"src\"></list_directory> outro",
        1,
        0,
        TranscriptSurface::Chat,
    );
    assert_eq!(segments.len(), 3);
    assert!(matches!(segments[0], AssistantSegment::Text(_)));
    assert!(matches!(segments[1], AssistantSegment::ListDirectory { .. }));
    assert!(matches!(segments[2], AssistantSegment::Text(_)));
}

#[test]
fn parse_write_file_tag() {
    let segments = parse_assistant_segments(
        "<write_file path=\"notes.md\">hello\nworld</write_file>",
        1,
        0,
        TranscriptSurface::Chat,
    );
    assert_eq!(
        segments,
        vec![AssistantSegment::WriteFile {
            path: "notes.md".to_string(),
            content: "hello\nworld".to_string(),
        }]
    );
}

#[test]
fn parse_apply_patch_tag() {
    let segments = parse_assistant_segments(
        "before<apply_patch path=\"notes.md\">diff replacement</apply_patch>after",
        1,
        0,
        TranscriptSurface::Chat,
    );
    assert_eq!(segments.len(), 3);
    assert!(matches!(segments[0], AssistantSegment::Text(_)));
    assert!(matches!(segments[1], AssistantSegment::ApplyPatch { .. }));
    assert!(matches!(segments[2], AssistantSegment::Text(_)));
    let patch = match &segments[1] {
        AssistantSegment::ApplyPatch { patch, .. } => patch.clone(),
        _ => String::new(),
    };
    assert_eq!(patch, "diff replacement");
}

#[test]
fn parse_mcp_call_tool_tag() {
    let segments = parse_assistant_segments(
        r#"before<mcp_call_tool server_name="docs" tool_name="search">{"query":"validation"}</mcp_call_tool>after"#,
        1,
        0,
        TranscriptSurface::Chat,
    );
    assert_eq!(segments.len(), 3);
    assert!(matches!(segments[1], AssistantSegment::McpCallTool { .. }));
    match &segments[1] {
        AssistantSegment::McpCallTool { server_name, tool_name, arguments } => {
            assert_eq!(server_name, "docs");
            assert_eq!(tool_name, "search");
            let value: serde_json::Value = serde_json::from_str(arguments).expect("json arguments");
            assert_eq!(value["query"], "validation");
        }
        _ => panic!("unexpected segment"),
    }
}

#[test]
fn malformed_mcp_call_tool_tag_falls_back_to_text() {
    let segments = parse_assistant_segments(
        r#"<mcp_call_tool server_name="docs" tool_name="search">{not json}</mcp_call_tool>"#,
        1,
        0,
        TranscriptSurface::Chat,
    );
    assert_eq!(segments.len(), 1);
    assert_eq!(
        segments[0],
        AssistantSegment::Text(
            r#"<mcp_call_tool server_name="docs" tool_name="search">{not json}</mcp_call_tool>"#
                .to_string()
        )
    );
}

#[test]
fn malformed_tool_tags_fallback_to_text() {
    let segments = parse_assistant_segments(
        "bad <read_file path=\"src.rs\">oops<apply_patch></apply_patch>",
        1,
        0,
        TranscriptSurface::Chat,
    );
    assert!(!segments.is_empty());
    assert!(matches!(segments[0], AssistantSegment::Text(_)));
    let all_text: String = segments
        .iter()
        .filter_map(|segment| match segment {
            AssistantSegment::Text(text) => Some(text.as_str()),
            _ => None,
        })
        .collect();
    assert_eq!(all_text, "bad <read_file path=\"src.rs\">oops<apply_patch></apply_patch>");
}

#[test]
fn malformed_tags_without_required_attributes_fallback_to_text() {
    let segments = parse_assistant_segments(
        "<read_file><write_file path=\"notes.md\">ignored</write_file>",
        1,
        0,
        TranscriptSurface::Chat,
    );
    assert_eq!(segments.len(), 1);
    assert!(matches!(segments[0], AssistantSegment::Text(_)));
    let all_text: String = segments
        .iter()
        .filter_map(|segment| match segment {
            AssistantSegment::Text(text) => Some(text.as_str()),
            _ => None,
        })
        .collect();
    assert_eq!(all_text, "<read_file><write_file path=\"notes.md\">ignored</write_file>");
}

#[test]
fn malformed_missing_close_fallback_to_text() {
    let segments =
        parse_assistant_segments("<list_directory path=\"src\">", 1, 0, TranscriptSurface::Chat);
    assert_eq!(segments.len(), 1);
    assert!(matches!(segments[0], AssistantSegment::Text(_)));
    assert_eq!(segments[0], AssistantSegment::Text("<list_directory path=\"src\">".to_string()));
}

#[test]
fn run_command_tag_carries_timeout() {
    let segments = parse_assistant_segments(
        "<run_command timeout_ms=\"5000\">cargo test</run_command>",
        1,
        0,
        TranscriptSurface::Shell,
    );
    assert_eq!(
        segments,
        vec![AssistantSegment::RunCommand { command: "cargo test".to_string(), timeout_ms: 5000 }]
    );
}

#[test]
fn empty_reply_has_no_segments() {
    let segments = parse_assistant_segments("", 1, 0, TranscriptSurface::Chat);
    assert!(segments.is_empty());
}

#[test]
fn plain_text_is_one_segment() {
    let segments = parse_assistant_segments("just words", 1, 0, TranscriptSurface::Chat);
    assert_eq!(segments, vec![AssistantSegment::Text("just words".to_string())]);
}

#[test]
fn read_file_range_normalizes() {
    assert_eq!(
        ReadFileRange { start_line: 3, end_line: 7 }.normalized(),
        Some(ReadFileRange { start_line: 3, end_line: 7 })
    );
    assert_eq!(ReadFileRange { start_line: 0, end_line: 7 }.normalized(), None);
    assert_eq!(ReadFileRange { start_line: 8, end_line: 7 }.normalized(), None);
}

#[test]
fn segment_kinds_and_surfaces_have_labels() {
    assert_eq!(TranscriptSurface::Chat.as_str(), "chat");
    assert_eq!(TranscriptSurface::Shell.as_str(), "shell");
    assert_eq!(SegmentKind::Think.as_str(), "reasoning");
    assert_eq!(
        segment_kind(&AssistantSegment::ListDirectory { path: "src".to_string() }),
        SegmentKind::ListDirectory
    );
    assert_eq!(SegmentRenderOptions::chat().left_pad, "  ");
    assert_eq!(SegmentRenderOptions::shell().left_pad, "");
    assert_eq!(SegmentRenderOptions::shell().surface, TranscriptSurface::Shell);
}

#[test]
fn text_segments_rebuild_the_reply() {
    for text in [
        "plain words and <read_file> without a path",
        "an open <run_command never closed",
        "text <mcp_call_tool server_name=\"docs\">{}</mcp_call_tool> more",
    ] {
        let segments = parse_assistant_segments(text, 0, 0, TranscriptSurface::Chat);
        if segments.iter().all(|s| matches!(s, AssistantSegment::Text(_))) {
            let joined: String = segments
                .iter()
                .map(|s| match s {
                    AssistantSegment::Text(t) => t.as_str(),
                    _ => "",
                })
                .collect();
            assert_eq!(joined, text);
        }
    }
}
