//! Agent actions awaiting confirmation, and the flat record they are saved as in a
//! thread snapshot.
use vstd::prelude::*;
use crate::text::{ascii_lower_seq, ascii_lower_vec, chars_of, trim, trim_bounds};
use crate::transcript::{
    range_from_lines, range_from_lines_exec, AssistantSegment, ReadFileRange, SegmentView,
};

verus! {

/// An edit to preview before it is applied.
#[derive(Debug, Clone, PartialEq, Eq)]
#[allow(inconsistent_fields)]
pub enum PreviewEditPayload {
    ApplyPatch { patch: String },
    ReplaceBlock { search_block: String, replace_block: String, range: Option<ReadFileRange> },
    ReplaceRange { range: ReadFileRange, expected_hash: String, replacement: String },
    /// `operations` is the JSON encoding of the TOML edit operations.
    ModifyToml { expected_hash: String, operations: String },
}

/// A validation plan, held as its JSON encoding.
#[derive(Debug, Clone, PartialEq, Eq)]
pub struct ValidationPlan {
    pub encoded: String,
}

/// An action the agent asks to run.
#[derive(Debug, Clone, PartialEq, Eq)]
#[allow(inconsistent_fields)]
pub enum AgentAction {
    RunCommand { command: String, timeout_ms: u64 },
    ReadFile { path: String, range: Option<ReadFileRange> },
    ListDirectory { path: String },
    SearchText { query: String, limit: usize },
    SearchSymbols { query: String, limit: usize },
    FindFiles { query: String, limit: usize },
    StructuralSearch {
        pattern: String,
        language: Option<String>,
        path: Option<String>,
        limit: usize,
    },
    StructuralEditPreview {
        pattern: String,
        rewrite: String,
        language: Option<String>,
        path: Option<String>,
    },
    CargoDiagnostics { command: Option<String>, include_clippy: bool },
    GetRepoCapsule { query: Option<String>, limit: usize },
    ExplainValidationFailure { command: String, output: String },
    SuggestImplementationTargets {
        command: String,
        output: String,
        failing_path: Option<String>,
        failing_line: Option<usize>,
    },
    SuggestEditAnchors { path: String, range: Option<ReadFileRange>, search_hint: Option<String> },
    PreviewEdit { path: String, edit: PreviewEditPayload },
    ReplaceRange {
        path: String,
        range: ReadFileRange,
        expected_hash: String,
        replacement: String,
    },
    /// `operations` is the JSON encoding of the TOML edit operations.
    ModifyToml { path: String, expected_hash: String, operations: String },
    ApplyPreview { preview_id: String },
    WriteFile { path: String, content: String },
    ApplyPatch { path: String, patch: String },
    RunValidation { plan: ValidationPlan },
    ReplaceBlock {
        path: String,
        search_block: String,
        replace_block: String,
        range: Option<ReadFileRange>,
    },
    SetExecutable { path: String },
    /// `arguments` is the JSON text of the call's arguments.
    McpCallTool { server_name: String, tool_name: String, arguments: String },
}

/// The flat record an [`AgentAction`] is saved as.
#[derive(Debug, Clone, PartialEq, Eq)]
pub struct PersistedPendingCommand {
    pub kind: Option<String>,
    pub command: String,
    pub timeout_ms: u64,
    pub query: Option<String>,
    pub limit: Option<usize>,
    pub path: Option<String>,
    pub read_start_line: Option<usize>,
    pub read_end_line: Option<usize>,
    pub content: Option<String>,
    pub patch: Option<String>,
    pub search_block: Option<String>,
    pub replace_block: Option<String>,
    pub mcp_server_name: Option<String>,
    pub mcp_tool_name: Option<String>,
    /// JSON text.
    pub mcp_arguments: Option<String>,
    /// JSON text.
    pub validation_plan: Option<String>,
}

// ---------------------------------------------------------------------------
// Views.
// ---------------------------------------------------------------------------

#[allow(inconsistent_fields)]
pub enum EditView {
    ApplyPatch { patch: Seq<char> },
    ReplaceBlock {
        search_block: Seq<char>,
        replace_block: Seq<char>,
        range: Option<ReadFileRange>,
    },
    ReplaceRange { range: ReadFileRange, expected_hash: Seq<char>, replacement: Seq<char> },
    ModifyToml { expected_hash: Seq<char>, operations: Seq<char> },
}

#[allow(inconsistent_fields)]
pub enum ActionView {
    RunCommand { command: Seq<char>, timeout_ms: u64 },
    ReadFile { path: Seq<char>, range: Option<ReadFileRange> },
    ListDirectory { path: Seq<char> },
    SearchText { query: Seq<char>, limit: usize },
    SearchSymbols { query: Seq<char>, limit: usize },
    FindFiles { query: Seq<char>, limit: usize },
    StructuralSearch {
        pattern: Seq<char>,
        language: Option<Seq<char>>,
        path: Option<Seq<char>>,
        limit: usize,
    },
    StructuralEditPreview {
        pattern: Seq<char>,
        rewrite: Seq<char>,
        language: Option<Seq<char>>,
        path: Option<Seq<char>>,
    },
    CargoDiagnostics { command: Option<Seq<char>>, include_clippy: bool },
    GetRepoCapsule { query: Option<Seq<char>>, limit: usize },
    ExplainValidationFailure { command: Seq<char>, output: Seq<char> },
    SuggestImplementationTargets {
        command: Seq<char>,
        output: Seq<char>,
        failing_path: Option<Seq<char>>,
        failing_line: Option<usize>,
    },
    SuggestEditAnchors {
        path: Seq<char>,
        range: Option<ReadFileRange>,
        search_hint: Option<Seq<char>>,
    },
    PreviewEdit { path: Seq<char>, edit: EditView },
    ReplaceRange {
        path: Seq<char>,
        range: ReadFileRange,
        expected_hash: Seq<char>,
        replacement: Seq<char>,
    },
    ModifyToml { path: Seq<char>, expected_hash: Seq<char>, operations: Seq<char> },
    ApplyPreview { preview_id: Seq<char> },
    WriteFile { path: Seq<char>, content: Seq<char> },
    ApplyPatch { path: Seq<char>, patch: Seq<char> },
    RunValidation { plan: Seq<char> },
    ReplaceBlock {
        path: Seq<char>,
        search_block: Seq<char>,
        replace_block: Seq<char>,
        range: Option<ReadFileRange>,
    },
    SetExecutable { path: Seq<char> },
    McpCallTool { server_name: Seq<char>, tool_name: Seq<char>, arguments: Seq<char> },
}

pub struct PersistedView {
    pub kind: Option<Seq<char>>,
    pub command: Seq<char>,
    pub timeout_ms: u64,
    pub query: Option<Seq<char>>,
    pub limit: Option<usize>,
    pub path: Option<Seq<char>>,
    pub read_start_line: Option<usize>,
    pub read_end_line: Option<usize>,
    pub content: Option<Seq<char>>,
    pub patch: Option<Seq<char>>,
    pub search_block: Option<Seq<char>>,
    pub replace_block: Option<Seq<char>>,
    pub mcp_server_name: Option<Seq<char>>,
    pub mcp_tool_name: Option<Seq<char>>,
    pub mcp_arguments: Option<Seq<char>>,
    pub validation_plan: Option<Seq<char>>,
}

pub open spec fn ostr(o: Option<String>) -> Option<Seq<char>> {
    match o {
        Some(s) => Some(s@),
        None => None,
    }
}

impl View for PreviewEditPayload {
    type V = EditView;

    open spec fn view(&self) -> EditView {
        match self {
            PreviewEditPayload::ApplyPatch { patch } => EditView::ApplyPatch { patch: patch@ },
            PreviewEditPayload::ReplaceBlock { search_block, replace_block, range } =>
                EditView::ReplaceBlock {
                search_block: search_block@,
                replace_block: replace_block@,
                range: *range,
            },
            PreviewEditPayload::ReplaceRange { range, expected_hash, replacement } =>
                EditView::ReplaceRange {
                range: *range,
                expected_hash: expected_hash@,
                replacement: replacement@,
            },
            PreviewEditPayload::ModifyToml { expected_hash, operations } => EditView::ModifyToml {
                expected_hash: expected_hash@,
                operations: operations@,
            },
        }
    }
}

impl View for AgentAction {
    type V = ActionView;

    open spec fn view(&self) -> ActionView {
        match self {
            AgentAction::RunCommand { command, timeout_ms } => ActionView::RunCommand {
                command: command@,
                timeout_ms: *timeout_ms,
            },
            AgentAction::ReadFile { path, range } => ActionView::ReadFile {
                path: path@,
                range: *range,
            },
            AgentAction::ListDirectory { path } => ActionView::ListDirectory { path: path@ },
            AgentAction::SearchText { query, limit } => ActionView::SearchText {
                query: query@,
                limit: *limit,
            },
            AgentAction::SearchSymbols { query, limit } => ActionView::SearchSymbols {
                query: query@,
                limit: *limit,
            },
            AgentAction::FindFiles { query, limit } => ActionView::FindFiles {
                query: query@,
                limit: *limit,
            },
            AgentAction::StructuralSearch { pattern, language, path, limit } =>
                ActionView::StructuralSearch {
                pattern: pattern@,
                language: ostr(*language),
                path: ostr(*path),
                limit: *limit,
            },
            AgentAction::StructuralEditPreview { pattern, rewrite, language, path } =>
                ActionView::StructuralEditPreview {
                pattern: pattern@,
                rewrite: rewrite@,
                language: ostr(*language),
                path: ostr(*path),
            },
            AgentAction::CargoDiagnostics { command, include_clippy } =>
                ActionView::CargoDiagnostics {
                command: ostr(*command),
                include_clippy: *include_clippy,
            },
            AgentAction::GetRepoCapsule { query, limit } => ActionView::GetRepoCapsule {
                query: ostr(*query),
                limit: *limit,
            },
            AgentAction::ExplainValidationFailure { command, output } =>
                ActionView::ExplainValidationFailure { command: command@, output: output@ },
            AgentAction::SuggestImplementationTargets {
                command,
                output,
                failing_path,
                failing_line,
            } => ActionView::SuggestImplementationTargets {
                command: command@,
                output: output@,
                failing_path: ostr(*failing_path),
                failing_line: *failing_line,
            },
            AgentAction::SuggestEditAnchors { path, range, search_hint } =>
                ActionView::SuggestEditAnchors {
                path: path@,
                range: *range,
                search_hint: ostr(*search_hint),
            },
            AgentAction::PreviewEdit { path, edit } => ActionView::PreviewEdit {
                path: path@,
                edit: edit@,
            },
            AgentAction::ReplaceRange { path, range, expected_hash, replacement } =>
                ActionView::ReplaceRange {
                path: path@,
                range: *range,
                expected_hash: expected_hash@,
                replacement: replacement@,
            },
            AgentAction::ModifyToml { path, expected_hash, operations } =>
                ActionView::ModifyToml {
                path: path@,
                expected_hash: expected_hash@,
                operations: operations@,
            },
            AgentAction::ApplyPreview { preview_id } => ActionView::ApplyPreview {
                preview_id: preview_id@,
            },
            AgentAction::WriteFile { path, content } => ActionView::WriteFile {
                path: path@,
                content: content@,
            },
            AgentAction::ApplyPatch { path, patch } => ActionView::ApplyPatch {
                path: path@,
                patch: patch@,
            },
            AgentAction::RunValidation { plan } => ActionView::RunValidation {
                plan: plan.encoded@,
            },
            AgentAction::ReplaceBlock { path, search_block, replace_block, range } =>
                ActionView::ReplaceBlock {
                path: path@,
                search_block: search_block@,
                replace_block: replace_block@,
                range: *range,
            },
            AgentAction::SetExecutable { path } => ActionView::SetExecutable { path: path@ },
            AgentAction::McpCallTool { server_name, tool_name, arguments } =>
                ActionView::McpCallTool {
                server_name: server_name@,
                tool_name: tool_name@,
                arguments: arguments@,
            },
        }
    }
}

impl View for PersistedPendingCommand {
    type V = PersistedView;

    open spec fn view(&self) -> PersistedView {
        PersistedView {
            kind: ostr(self.kind),
            command: self.command@,
            timeout_ms: self.timeout_ms,
            query: ostr(self.query),
            limit: self.limit,
            path: ostr(self.path),
            read_start_line: self.read_start_line,
            read_end_line: self.read_end_line,
            content: ostr(self.content),
            patch: ostr(self.patch),
            search_block: ostr(self.search_block),
            replace_block: ostr(self.replace_block),
            mcp_server_name: ostr(self.mcp_server_name),
            mcp_tool_name: ostr(self.mcp_tool_name),
            mcp_arguments: ostr(self.mcp_arguments),
            validation_plan: ostr(self.validation_plan),
        }
    }
}

fn copy_opt(o: &Option<String>) -> (r: Option<String>)
    ensures
        ostr(r) == ostr(*o),
{
    match o {
        Some(s) => Some(s.clone()),
        None => None,
    }
}

impl PersistedPendingCommand {
    /// A copy of this record.
    pub fn duplicate(&self) -> (r: Self)
        ensures
            r@ == self@,
    {
        PersistedPendingCommand {
            kind: copy_opt(&self.kind),
            command: self.command.clone(),
            timeout_ms: self.timeout_ms,
            query: copy_opt(&self.query),
            limit: self.limit,
            path: copy_opt(&self.path),
            read_start_line: self.read_start_line,
            read_end_line: self.read_end_line,
            content: copy_opt(&self.content),
            patch: copy_opt(&self.patch),
            search_block: copy_opt(&self.search_block),
            replace_block: copy_opt(&self.replace_block),
            mcp_server_name: copy_opt(&self.mcp_server_name),
            mcp_tool_name: copy_opt(&self.mcp_tool_name),
            mcp_arguments: copy_opt(&self.mcp_arguments),
            validation_plan: copy_opt(&self.validation_plan),
        }
    }
}

// ---------------------------------------------------------------------------
// The saved form of an action.
// ---------------------------------------------------------------------------

/// The start line saved for an optional range: only a usable range is saved.
pub open spec fn saved_start(r: Option<ReadFileRange>) -> Option<usize> {
    match r {
        Some(x) => if x.is_normal() {
            Some(x.start_line)
        } else {
            None
        },
        None => None,
    }
}

pub open spec fn saved_end(r: Option<ReadFileRange>) -> Option<usize> {
    match r {
        Some(x) => if x.is_normal() {
            Some(x.end_line)
        } else {
            None
        },
        None => None,
    }
}

/// A record of kind `kind` with every other field empty and a 30 second timeout.
pub open spec fn record(kind: Seq<char>) -> PersistedView {
    PersistedView {
        kind: Some(kind),
        command: seq![],
        timeout_ms: 30000,
        query: None,
        limit: None,
        path: None,
        read_start_line: None,
        read_end_line: None,
        content: None,
        patch: None,
        search_block: None,
        replace_block: None,
        mcp_server_name: None,
        mcp_tool_name: None,
        mcp_arguments: None,
        validation_plan: None,
    }
}

pub open spec fn bool_text(b: bool) -> Seq<char> {
    if b {
        "true"@
    } else {
        "false"@
    }
}

/// The record an action is saved as.
pub open spec fn persisted_of(a: ActionView) -> PersistedView {
    match a {
        ActionView::RunCommand { command, timeout_ms } => PersistedView {
            command,
            timeout_ms,
            ..record("run"@)
        },
        ActionView::ReadFile { path, range } => PersistedView {
            path: Some(path),
            read_start_line: saved_start(range),
            read_end_line: saved_end(range),
            ..record("read_file"@)
        },
        ActionView::ListDirectory { path } => PersistedView {
            path: Some(path),
            ..record("list_directory"@)
        },
        ActionView::SearchText { query, limit } => PersistedView {
            query: Some(query),
            limit: Some(limit),
            ..record("search_text"@)
        },
        ActionView::SearchSymbols { query, limit } => PersistedView {
            query: Some(query),
            limit: Some(limit),
            ..record("search_symbols"@)
        },
        ActionView::FindFiles { query, limit } => PersistedView {
            query: Some(query),
            limit: Some(limit),
            ..record("find_files"@)
        },
        ActionView::StructuralSearch { pattern, language, path, limit } => PersistedView {
            command: pattern,
            query: language,
            limit: Some(limit),
            path,
            ..record("structural_search"@)
        },
        ActionView::StructuralEditPreview { pattern, rewrite, language, path } => PersistedView {
            command: pattern,
            query: language,
            path,
            content: Some(rewrite),
            ..record("structural_edit_preview"@)
        },
        ActionView::CargoDiagnostics { command, include_clippy } => PersistedView {
            command: match command {
                Some(c) => c,
                None => seq![],
            },
            timeout_ms: 120000,
            query: Some(bool_text(include_clippy)),
            ..record("cargo_diagnostics"@)
        },
        ActionView::GetRepoCapsule { query, limit } => PersistedView {
            query,
            limit: Some(limit),
            ..record("get_repo_capsule"@)
        },
        ActionView::ExplainValidationFailure { command, output } => PersistedView {
            command,
            content: Some(output),
            ..record("explain_validation_failure"@)
        },
        ActionView::SuggestImplementationTargets {
            command,
            output,
            failing_path,
            failing_line,
        } => PersistedView {
            command,
            limit: failing_line,
            path: failing_path,
            content: Some(output),
            ..record("suggest_implementation_targets"@)
        },
        ActionView::SuggestEditAnchors { path, range, search_hint } => PersistedView {
            query: search_hint,
            path: Some(path),
            read_start_line: saved_start(range),
            read_end_line: saved_end(range),
            ..record("suggest_edit_anchors"@)
        },
        ActionView::PreviewEdit { path, edit } => match edit {
            EditView::ApplyPatch { patch } => PersistedView {
                path: Some(path),
                patch: Some(patch),
                ..record("preview_edit_apply_patch"@)
            },
            EditView::ReplaceBlock { search_block, replace_block, range } => PersistedView {
                path: Some(path),
                read_start_line: saved_start(range),
                read_end_line: saved_end(range),
                search_block: Some(search_block),
                replace_block: Some(replace_block),
                ..record("preview_edit_replace_block"@)
            },
            EditView::ReplaceRange { range, expected_hash, replacement } => PersistedView {
                query: Some(expected_hash),
                path: Some(path),
                read_start_line: saved_start(Some(range)),
                read_end_line: saved_end(Some(range)),
                content: Some(replacement),
                ..record("preview_edit_replace_range"@)
            },
            EditView::ModifyToml { expected_hash, operations } => PersistedView {
                query: Some(expected_hash),
                path: Some(path),
                mcp_arguments: Some(operations),
                ..record("preview_edit_modify_toml"@)
            },
        },
        ActionView::ReplaceRange { path, range, expected_hash, replacement } => PersistedView {
            query: Some(expected_hash),
            path: Some(path),
            read_start_line: saved_start(Some(range)),
            read_end_line: saved_end(Some(range)),
            content: Some(replacement),
            ..record("replace_range"@)
        },
        ActionView::ModifyToml { path, expected_hash, operations } => PersistedView {
            query: Some(expected_hash),
            path: Some(path),
            mcp_arguments: Some(operations),
            ..record("modify_toml"@)
        },
        ActionView::ApplyPreview { preview_id } => PersistedView {
            query: Some(preview_id),
            ..record("apply_preview"@)
        },
        ActionView::WriteFile { path, content } => PersistedView {
            path: Some(path),
            content: Some(content),
            ..record("write_file"@)
        },
        ActionView::ApplyPatch { path, patch } => PersistedView {
            path: Some(path),
            patch: Some(patch),
            ..record("apply_patch"@)
        },
        ActionView::RunValidation { plan } => PersistedView {
            validation_plan: Some(plan),
            ..record("run_validation"@)
        },
        ActionView::ReplaceBlock { path, search_block, replace_block, range } => PersistedView {
            path: Some(path),
            read_start_line: saved_start(range),
            read_end_line: saved_end(range),
            search_block: Some(search_block),
            replace_block: Some(replace_block),
            ..record("replace_block"@)
        },
        ActionView::SetExecutable { path } => PersistedView {
            path: Some(path),
            ..record("set_executable"@)
        },
        ActionView::McpCallTool { server_name, tool_name, arguments } => PersistedView {
            timeout_ms: 60000,
            mcp_server_name: Some(server_name),
            mcp_tool_name: Some(tool_name),
            mcp_arguments: Some(arguments),
            ..record("mcp_call_tool"@)
        },
    }
}

pub open spec fn or_empty(o: Option<Seq<char>>) -> Seq<char> {
    match o {
        Some(s) => s,
        None => seq![],
    }
}

pub open spec fn or_num(o: Option<usize>, d: usize) -> usize {
    match o {
        Some(n) => n,
        None => d,
    }
}

/// `str::eq_ignore_ascii_case(v, "true")`.
pub open spec fn is_true_text(o: Option<Seq<char>>) -> bool {
    match o {
        Some(v) => ascii_lower_seq(v) == "true"@,
        None => false,
    }
}

/// The action a saved record stands for, if any.
pub open spec fn action_of(p: PersistedView) -> Option<ActionView> {
    match p.kind {
        None => if p.command.len() > 0 {
            Some(ActionView::RunCommand { command: p.command, timeout_ms: p.timeout_ms })
        } else {
            None
        },
        Some(k) => if k == "run"@ {
            Some(ActionView::RunCommand { command: p.command, timeout_ms: p.timeout_ms })
        } else if k == "read_file"@ {
            match p.path {
                Some(path) => Some(
                    ActionView::ReadFile {
                        path,
                        range: range_from_lines(p.read_start_line, p.read_end_line),
                    },
                ),
                None => None,
            }
        } else if k == "list_directory"@ {
            match p.path {
                Some(path) => Some(ActionView::ListDirectory { path }),
                None => None,
            }
        } else if k == "search_text"@ {
            Some(ActionView::SearchText { query: or_empty(p.query), limit: or_num(p.limit, 6) })
        } else if k == "search_symbols"@ {
            Some(ActionView::SearchSymbols { query: or_empty(p.query), limit: or_num(p.limit, 6) })
        } else if k == "find_files"@ {
            Some(ActionView::FindFiles { query: or_empty(p.query), limit: or_num(p.limit, 20) })
        } else if k == "structural_search"@ {
            Some(
                ActionView::StructuralSearch {
                    pattern: p.command,
                    language: p.query,
                    path: p.path,
                    limit: or_num(p.limit, 20),
                },
            )
        } else if k == "structural_edit_preview"@ {
            Some(
                ActionView::StructuralEditPreview {
                    pattern: p.command,
                    rewrite: or_empty(p.content),
                    language: p.query,
                    path: p.path,
                },
            )
        } else if k == "cargo_diagnostics"@ {
            Some(
                ActionView::CargoDiagnostics {
                    command: if trim(p.command).len() > 0 {
                        Some(p.command)
                    } else {
                        None
                    },
                    include_clippy: is_true_text(p.query),
                },
            )
        } else if k == "get_repo_capsule"@ {
            Some(ActionView::GetRepoCapsule { query: p.query, limit: or_num(p.limit, 8) })
        } else if k == "explain_validation_failure"@ {
            Some(
                ActionView::ExplainValidationFailure {
                    command: p.command,
                    output: or_empty(p.content),
                },
            )
        } else if k == "suggest_implementation_targets"@ {
            Some(
                ActionView::SuggestImplementationTargets {
                    command: p.command,
                    output: or_empty(p.content),
                    failing_path: p.path,
                    failing_line: p.limit,
                },
            )
        } else if k == "suggest_edit_anchors"@ {
            match p.path {
                Some(path) => Some(
                    ActionView::SuggestEditAnchors {
                        path,
                        range: range_from_lines(p.read_start_line, p.read_end_line),
                        search_hint: p.query,
                    },
                ),
                None => None,
            }
        } else if k == "preview_edit_apply_patch"@ {
            match p.path {
                Some(path) => Some(
                    ActionView::PreviewEdit {
                        path,
                        edit: EditView::ApplyPatch { patch: or_empty(p.patch) },
                    },
                ),
                None => None,
            }
        } else if k == "preview_edit_replace_block"@ {
            match p.path {
                Some(path) => Some(
                    ActionView::PreviewEdit {
                        path,
                        edit: EditView::ReplaceBlock {
                            search_block: or_empty(p.search_block),
                            replace_block: or_empty(p.replace_block),
                            range: range_from_lines(p.read_start_line, p.read_end_line),
                        },
                    },
                ),
                None => None,
            }
        } else if k == "preview_edit_replace_range"@ {
            match (p.path, range_from_lines(p.read_start_line, p.read_end_line), p.query) {
                (Some(path), Some(range), Some(expected_hash)) => Some(
                    ActionView::PreviewEdit {
                        path,
                        edit: EditView::ReplaceRange {
                            range,
                            expected_hash,
                            replacement: or_empty(p.content),
                        },
                    },
                ),
                _ => None,
            }
        } else if k == "preview_edit_modify_toml"@ {
            match (p.path, p.query, p.mcp_arguments) {
                (Some(path), Some(expected_hash), Some(operations)) => Some(
                    ActionView::PreviewEdit {
                        path,
                        edit: EditView::ModifyToml { expected_hash, operations },
                    },
                ),
                _ => None,
            }
        } else if k == "replace_range"@ {
            match (p.path, range_from_lines(p.read_start_line, p.read_end_line), p.query) {
                (Some(path), Some(range), Some(expected_hash)) => Some(
                    ActionView::ReplaceRange {
                        path,
                        range,
                        expected_hash,
                        replacement: or_empty(p.content),
                    },
                ),
                _ => None,
            }
        } else if k == "modify_toml"@ {
            match (p.path, p.query, p.mcp_arguments) {
                (Some(path), Some(expected_hash), Some(operations)) => Some(
                    ActionView::ModifyToml { path, expected_hash, operations },
                ),
                _ => None,
            }
        } else if k == "apply_preview"@ {
            match p.query {
                Some(preview_id) => Some(ActionView::ApplyPreview { preview_id }),
                None => None,
            }
        } else if k == "write_file"@ {
            match p.path {
                Some(path) => Some(ActionView::WriteFile { path, content: or_empty(p.content) }),
                None => None,
            }
        } else if k == "apply_patch"@ {
            match p.path {
                Some(path) => Some(ActionView::ApplyPatch { path, patch: or_empty(p.patch) }),
                None => None,
            }
        } else if k == "run_validation"@ {
            Some(ActionView::RunValidation { plan: or_empty(p.validation_plan) })
        } else if k == "replace_block"@ {
            Some(
                ActionView::ReplaceBlock {
                    path: or_empty(p.path),
                    search_block: or_empty(p.search_block),
                    replace_block: or_empty(p.replace_block),
                    range: range_from_lines(p.read_start_line, p.read_end_line),
                },
            )
        } else if k == "set_executable"@ {
            Some(ActionView::SetExecutable { path: or_empty(p.path) })
        } else if k == "mcp_call_tool"@ {
            Some(
                ActionView::McpCallTool {
                    server_name: or_empty(p.mcp_server_name),
                    tool_name: or_empty(p.mcp_tool_name),
                    arguments: match p.mcp_arguments {
                        Some(a) => a,
                        None => "{}"@,
                    },
                },
            )
        } else {
            None
        }
    }
}


/// An action whose saved record reads back as the same action: every optional line
/// range it carries is usable, every required one too, and a `cargo_diagnostics`
/// command, when given, is not blank.
pub open spec fn restorable(a: ActionView) -> bool {
    let opt_ok = |r: Option<ReadFileRange>| r matches Some(x) ==> x.is_normal();
    match a {
        ActionView::ReadFile { range, .. } => opt_ok(range),
        ActionView::SuggestEditAnchors { range, .. } => opt_ok(range),
        ActionView::ReplaceBlock { range, .. } => opt_ok(range),
        ActionView::ReplaceRange { range, .. } => range.is_normal(),
        ActionView::PreviewEdit { edit, .. } => match edit {
            EditView::ReplaceBlock { range, .. } => opt_ok(range),
            EditView::ReplaceRange { range, .. } => range.is_normal(),
            _ => true,
        },
        ActionView::CargoDiagnostics { command, .. } => command matches Some(c) ==> trim(c).len()
            > 0,
        _ => true,
    }
}

proof fn lemma_diagnostics_read_back(command: Option<Seq<char>>, include_clippy: bool)
    requires
        command matches Some(c) ==> trim(c).len() > 0,
    ensures
        action_of(persisted_of(ActionView::CargoDiagnostics { command, include_clippy }))
            == Some(ActionView::CargoDiagnostics { command, include_clippy }),
{
    lemma_kind_names();
    reveal_strlit("true");
    reveal_strlit("false");
    assert(ascii_lower_seq("true"@) =~= "true"@);
    assert(ascii_lower_seq("false"@).len() != "true"@.len());
    assert(trim(seq![]) =~= seq![]);
    assert("cargo_diagnostics"@[0] != "structural_search"@[0]);
}

/// The names of the record kinds: their lengths, and a character that tells apart
/// each two names of equal length.
pub proof fn lemma_kind_names()
    ensures
        "run"@.len() == 3,
        "read_file"@.len() == 9,
        "list_directory"@.len() == 14,
        "search_text"@.len() == 11,
        "search_symbols"@.len() == 14,
        "find_files"@.len() == 10,
        "structural_search"@.len() == 17,
        "structural_edit_preview"@.len() == 23,
        "cargo_diagnostics"@.len() == 17,
        "get_repo_capsule"@.len() == 16,
        "explain_validation_failure"@.len() == 26,
        "suggest_implementation_targets"@.len() == 30,
        "suggest_edit_anchors"@.len() == 20,
        "preview_edit_apply_patch"@.len() == 24,
        "preview_edit_replace_block"@.len() == 26,
        "preview_edit_replace_range"@.len() == 26,
        "preview_edit_modify_toml"@.len() == 24,
        "replace_range"@.len() == 13,
        "modify_toml"@.len() == 11,
        "apply_preview"@.len() == 13,
        "write_file"@.len() == 10,
        "apply_patch"@.len() == 11,
        "run_validation"@.len() == 14,
        "replace_block"@.len() == 13,
        "set_executable"@.len() == 14,
        "mcp_call_tool"@.len() == 13,
        "apply_patch"@[0] == 'a',
        "apply_preview"@[0] == 'a',
        "cargo_diagnostics"@[0] == 'c',
        "explain_validation_failure"@[0] == 'e',
        "find_files"@[0] == 'f',
        "list_directory"@[0] == 'l',
        "mcp_call_tool"@[0] == 'm',
        "modify_toml"@[0] == 'm',
        "preview_edit_apply_patch"@[13] == 'a',
        "preview_edit_modify_toml"@[13] == 'm',
        "preview_edit_replace_block"@[0] == 'p',
        "preview_edit_replace_block"@[21] == 'b',
        "preview_edit_replace_range"@[0] == 'p',
        "preview_edit_replace_range"@[21] == 'r',
        "replace_block"@[0] == 'r',
        "replace_block"@[8] == 'b',
        "replace_range"@[0] == 'r',
        "replace_range"@[8] == 'r',
        "run_validation"@[0] == 'r',
        "search_symbols"@[0] == 's',
        "search_symbols"@[2] == 'a',
        "search_text"@[0] == 's',
        "set_executable"@[0] == 's',
        "set_executable"@[2] == 't',
        "structural_search"@[0] == 's',
        "write_file"@[0] == 'w',
{
    reveal_strlit("run");
    reveal_strlit("read_file");
    reveal_strlit("list_directory");
    reveal_strlit("search_text");
    reveal_strlit("search_symbols");
    reveal_strlit("find_files");
    reveal_strlit("structural_search");
    reveal_strlit("structural_edit_preview");
    reveal_strlit("cargo_diagnostics");
    reveal_strlit("get_repo_capsule");
    reveal_strlit("explain_validation_failure");
    reveal_strlit("suggest_implementation_targets");
    reveal_strlit("suggest_edit_anchors");
    reveal_strlit("preview_edit_apply_patch");
    reveal_strlit("preview_edit_replace_block");
    reveal_strlit("preview_edit_replace_range");
    reveal_strlit("preview_edit_modify_toml");
    reveal_strlit("replace_range");
    reveal_strlit("modify_toml");
    reveal_strlit("apply_preview");
    reveal_strlit("write_file");
    reveal_strlit("apply_patch");
    reveal_strlit("run_validation");
    reveal_strlit("replace_block");
    reveal_strlit("set_executable");
    reveal_strlit("mcp_call_tool");
}

/// Saving an action and reading the record back gives the action again, for every
/// action whose ranges are usable and whose diagnostics command is not blank.
pub proof fn lemma_saved_action_reads_back(a: ActionView)
    requires
        restorable(a),
    ensures
        action_of(persisted_of(a)) == Some(a),
{
    lemma_kind_names();
    if let ActionView::CargoDiagnostics { command, include_clippy } = a {
        lemma_diagnostics_read_back(command, include_clippy);
    }
}


// ---------------------------------------------------------------------------
// Saving and restoring.
// ---------------------------------------------------------------------------

fn owned(s: &str) -> (r: String)
    ensures
        r@ == s@,
{
    s.to_owned()
}

fn clone_opt(o: &Option<String>) -> (r: Option<String>)
    ensures
        ostr(r) == ostr(*o),
{
    match o {
        Some(s) => Some(s.clone()),
        None => None,
    }
}

fn blank_record(kind: &str) -> (r: PersistedPendingCommand)
    ensures
        r@ == record(kind@),
{
    PersistedPendingCommand {
        kind: Some(owned(kind)),
        command: String::new(),
        timeout_ms: 30000,
        query: None,
        limit: None,
        path: None,
        read_start_line: None,
        read_end_line: None,
        content: None,
        patch: None,
        search_block: None,
        replace_block: None,
        mcp_server_name: None,
        mcp_tool_name: None,
        mcp_arguments: None,
        validation_plan: None,
    }
}

fn saved_start_exec(r: Option<ReadFileRange>) -> (x: Option<usize>)
    ensures
        x == saved_start(r),
{
    match r {
        Some(v) => match v.normalized() {
            Some(n) => Some(n.start_line),
            None => None,
        },
        None => None,
    }
}

fn saved_end_exec(r: Option<ReadFileRange>) -> (x: Option<usize>)
    ensures
        x == saved_end(r),
{
    match r {
        Some(v) => match v.normalized() {
            Some(n) => Some(n.end_line),
            None => None,
        },
        None => None,
    }
}

/// The record `action` is saved as.
pub fn persist_action(action: &AgentAction) -> (r: PersistedPendingCommand)
    ensures
        r@ == persisted_of(action@),
{
    match action {
        AgentAction::RunCommand { command, timeout_ms } => {
            let mut p = blank_record("run");
            p.command = command.clone();
            p.timeout_ms = *timeout_ms;
            p
        },
        AgentAction::ReadFile { path, range } => {
            let mut p = blank_record("read_file");
            p.path = Some(path.clone());
            p.read_start_line = saved_start_exec(*range);
            p.read_end_line = saved_end_exec(*range);
            p
        },
        AgentAction::ListDirectory { path } => {
            let mut p = blank_record("list_directory");
            p.path = Some(path.clone());
            p
        },
        AgentAction::SearchText { query, limit } => {
            let mut p = blank_record("search_text");
            p.query = Some(query.clone());
            p.limit = Some(*limit);
            p
        },
        AgentAction::SearchSymbols { query, limit } => {
            let mut p = blank_record("search_symbols");
            p.query = Some(query.clone());
            p.limit = Some(*limit);
            p
        },
        AgentAction::FindFiles { query, limit } => {
            let mut p = blank_record("find_files");
            p.query = Some(query.clone());
            p.limit = Some(*limit);
            p
        },
        AgentAction::StructuralSearch { pattern, language, path, limit } => {
            let mut p = blank_record("structural_search");
            p.command = pattern.clone();
            p.query = clone_opt(language);
            p.limit = Some(*limit);
            p.path = clone_opt(path);
            p
        },
        AgentAction::StructuralEditPreview { pattern, rewrite, language, path } => {
            let mut p = blank_record("structural_edit_preview");
            p.command = pattern.clone();
            p.query = clone_opt(language);
            p.path = clone_opt(path);
            p.content = Some(rewrite.clone());
            p
        },
        AgentAction::CargoDiagnostics { command, include_clippy } => {
            let mut p = blank_record("cargo_diagnostics");
            p.command = match command {
                Some(c) => c.clone(),
                None => String::new(),
            };
            p.timeout_ms = 120000;
            p.query = Some(
                if *include_clippy {
                    owned("true")
                } else {
                    owned("false")
                },
            );
            p
        },
        AgentAction::GetRepoCapsule { query, limit } => {
            let mut p = blank_record("get_repo_capsule");
            p.query = clone_opt(query);
            p.limit = Some(*limit);
            p
        },
        AgentAction::ExplainValidationFailure { command, output } => {
            let mut p = blank_record("explain_validation_failure");
            p.command = command.clone();
            p.content = Some(output.clone());
            p
        },
        AgentAction::SuggestImplementationTargets { command, output, failing_path, failing_line } =>
            {
            let mut p = blank_record("suggest_implementation_targets");
            p.command = command.clone();
            p.limit = *failing_line;
            p.path = clone_opt(failing_path);
            p.content = Some(output.clone());
            p
        },
        AgentAction::SuggestEditAnchors { path, range, search_hint } => {
            let mut p = blank_record("suggest_edit_anchors");
            p.query = clone_opt(search_hint);
            p.path = Some(path.clone());
            p.read_start_line = saved_start_exec(*range);
            p.read_end_line = saved_end_exec(*range);
            p
        },
        AgentAction::PreviewEdit { path, edit } => match edit {
            PreviewEditPayload::ApplyPatch { patch } => {
                let mut p = blank_record("preview_edit_apply_patch");
                p.path = Some(path.clone());
                p.patch = Some(patch.clone());
                p
            },
            PreviewEditPayload::ReplaceBlock { search_block, replace_block, range } => {
                let mut p = blank_record("preview_edit_replace_block");
                p.path = Some(path.clone());
                p.read_start_line = saved_start_exec(*range);
                p.read_end_line = saved_end_exec(*range);
                p.search_block = Some(search_block.clone());
                p.replace_block = Some(replace_block.clone());
                p
            },
            PreviewEditPayload::ReplaceRange { range, expected_hash, replacement } => {
                let mut p = blank_record("preview_edit_replace_range");
                p.query = Some(expected_hash.clone());
                p.path = Some(path.clone());
                p.read_start_line = saved_start_exec(Some(*range));
                p.read_end_line = saved_end_exec(Some(*range));
                p.content = Some(replacement.clone());
                p
            },
            PreviewEditPayload::ModifyToml { expected_hash, operations } => {
                let mut p = blank_record("preview_edit_modify_toml");
                p.query = Some(expected_hash.clone());
                p.path = Some(path.clone());
                p.mcp_arguments = Some(operations.clone());
                p
            },
        },
        AgentAction::ReplaceRange { path, range, expected_hash, replacement } => {
            let mut p = blank_record("replace_range");
            p.query = Some(expected_hash.clone());
            p.path = Some(path.clone());
            p.read_start_line = saved_start_exec(Some(*range));
            p.read_end_line = saved_end_exec(Some(*range));
            p.content = Some(replacement.clone());
            p
        },
        AgentAction::ModifyToml { path, expected_hash, operations } => {
            let mut p = blank_record("modify_toml");
            p.query = Some(expected_hash.clone());
            p.path = Some(path.clone());
            p.mcp_arguments = Some(operations.clone());
            p
        },
        AgentAction::ApplyPreview { preview_id } => {
            let mut p = blank_record("apply_preview");
            p.query = Some(preview_id.clone());
            p
        },
        AgentAction::WriteFile { path, content } => {
            let mut p = blank_record("write_file");
            p.path = Some(path.clone());
            p.content = Some(content.clone());
            p
        },
        AgentAction::ApplyPatch { path, patch } => {
            let mut p = blank_record("apply_patch");
            p.path = Some(path.clone());
            p.patch = Some(patch.clone());
            p
        },
        AgentAction::RunValidation { plan } => {
            let mut p = blank_record("run_validation");
            p.validation_plan = Some(plan.encoded.clone());
            p
        },
        AgentAction::ReplaceBlock { path, search_block, replace_block, range } => {
            let mut p = blank_record("replace_block");
            p.path = Some(path.clone());
            p.read_start_line = saved_start_exec(*range);
            p.read_end_line = saved_end_exec(*range);
            p.search_block = Some(search_block.clone());
            p.replace_block = Some(replace_block.clone());
            p
        },
        AgentAction::SetExecutable { path } => {
            let mut p = blank_record("set_executable");
            p.path = Some(path.clone());
            p
        },
        AgentAction::McpCallTool { server_name, tool_name, arguments } => {
            let mut p = blank_record("mcp_call_tool");
            p.timeout_ms = 60000;
            p.mcp_server_name = Some(server_name.clone());
            p.mcp_tool_name = Some(tool_name.clone());
            p.mcp_arguments = Some(arguments.clone());
            p
        },
    }
}

fn is_name(k: &String, lit: &str) -> (r: bool)
    ensures
        r == (k@ == lit@),
{
    *k == owned(lit)
}

fn or_empty_exec(o: Option<String>) -> (r: String)
    ensures
        r@ == or_empty(ostr(o)),
{
    match o {
        Some(s) => s,
        None => String::new(),
    }
}

fn or_num_exec(o: Option<usize>, d: usize) -> (r: usize)
    ensures
        r == or_num(o, d),
{
    match o {
        Some(n) => n,
        None => d,
    }
}

fn is_true_text_exec(o: &Option<String>) -> (r: bool)
    ensures
        r == is_true_text(ostr(*o)),
{
    match o {
        Some(v) => {
            let lower = ascii_lower_vec(&chars_of(v.as_str()));
            let t = chars_of("true");
            crate::patch::chars_eq(&lower, &t)
        },
        None => false,
    }
}

fn is_blank(s: &String) -> (r: bool)
    ensures
        r == (trim(s@).len() == 0),
{
    let c = chars_of(s.as_str());
    let (a, b) = trim_bounds(&c, 0, c.len());
    assert(c@.subrange(0, c.len() as int) =~= c@);
    a == b
}

pub open spec fn oaction(o: Option<AgentAction>) -> Option<ActionView> {
    match o {
        Some(a) => Some(a@),
        None => None,
    }
}

/// The action a saved record stands for: `None` for an unknown kind, for a missing
/// required field, or for a record without a kind and without a command.
pub fn restore_action(p: PersistedPendingCommand) -> (r: Option<AgentAction>)
    ensures
        oaction(r) == action_of(p@),
{
    let ghost pv = p@;
    let range = range_from_lines_exec(p.read_start_line, p.read_end_line);
    let k = match &p.kind {
        None => {
            if !p.command.as_str().is_empty() {
                return Some(AgentAction::RunCommand { command: p.command, timeout_ms: p.timeout_ms });
            }
            return None;
        },
        Some(k) => k.clone(),
    };
    if is_name(&k, "run") {
        Some(AgentAction::RunCommand { command: p.command, timeout_ms: p.timeout_ms })
    } else if is_name(&k, "read_file") {
        match p.path {
            Some(path) => Some(AgentAction::ReadFile { path, range }),
            None => None,
        }
    } else if is_name(&k, "list_directory") {
        match p.path {
            Some(path) => Some(AgentAction::ListDirectory { path }),
            None => None,
        }
    } else if is_name(&k, "search_text") {
        Some(
            AgentAction::SearchText {
                query: or_empty_exec(p.query),
                limit: or_num_exec(p.limit, 6),
            },
        )
    } else if is_name(&k, "search_symbols") {
        Some(
            AgentAction::SearchSymbols {
                query: or_empty_exec(p.query),
                limit: or_num_exec(p.limit, 6),
            },
        )
    } else if is_name(&k, "find_files") {
        Some(
            AgentAction::FindFiles { query: or_empty_exec(p.query), limit: or_num_exec(p.limit, 20) },
        )
    } else if is_name(&k, "structural_search") {
        Some(
            AgentAction::StructuralSearch {
                pattern: p.command,
                language: p.query,
                path: p.path,
                limit: or_num_exec(p.limit, 20),
            },
        )
    } else if is_name(&k, "structural_edit_preview") {
        Some(
            AgentAction::StructuralEditPreview {
                pattern: p.command,
                rewrite: or_empty_exec(p.content),
                language: p.query,
                path: p.path,
            },
        )
    } else if is_name(&k, "cargo_diagnostics") {
        let include_clippy = is_true_text_exec(&p.query);
        let command = if is_blank(&p.command) {
            None
        } else {
            Some(p.command)
        };
        Some(AgentAction::CargoDiagnostics { command, include_clippy })
    } else if is_name(&k, "get_repo_capsule") {
        Some(AgentAction::GetRepoCapsule { query: p.query, limit: or_num_exec(p.limit, 8) })
    } else if is_name(&k, "explain_validation_failure") {
        Some(
            AgentAction::ExplainValidationFailure {
                command: p.command,
                output: or_empty_exec(p.content),
            },
        )
    } else if is_name(&k, "suggest_implementation_targets") {
        Some(
            AgentAction::SuggestImplementationTargets {
                command: p.command,
                output: or_empty_exec(p.content),
                failing_path: p.path,
                failing_line: p.limit,
            },
        )
    } else if is_name(&k, "suggest_edit_anchors") {
        match p.path {
            Some(path) => Some(
                AgentAction::SuggestEditAnchors { path, range, search_hint: p.query },
            ),
            None => None,
        }
    } else if is_name(&k, "preview_edit_apply_patch") {
        match p.path {
            Some(path) => Some(
                AgentAction::PreviewEdit {
                    path,
                    edit: PreviewEditPayload::ApplyPatch { patch: or_empty_exec(p.patch) },
                },
            ),
            None => None,
        }
    } else if is_name(&k, "preview_edit_replace_block") {
        match p.path {
            Some(path) => Some(
                AgentAction::PreviewEdit {
                    path,
                    edit: PreviewEditPayload::ReplaceBlock {
                        search_block: or_empty_exec(p.search_block),
                        replace_block: or_empty_exec(p.replace_block),
                        range,
                    },
                },
            ),
            None => None,
        }
    } else if is_name(&k, "preview_edit_replace_range") {
        match (p.path, range, p.query) {
            (Some(path), Some(range), Some(expected_hash)) => Some(
                AgentAction::PreviewEdit {
                    path,
                    edit: PreviewEditPayload::ReplaceRange {
                        range,
                        expected_hash,
                        replacement: or_empty_exec(p.content),
                    },
                },
            ),
            _ => None,
        }
    } else if is_name(&k, "preview_edit_modify_toml") {
        match (p.path, p.query, p.mcp_arguments) {
            (Some(path), Some(expected_hash), Some(operations)) => Some(
                AgentAction::PreviewEdit {
                    path,
                    edit: PreviewEditPayload::ModifyToml { expected_hash, operations },
                },
            ),
            _ => None,
        }
    } else if is_name(&k, "replace_range") {
        match (p.path, range, p.query) {
            (Some(path), Some(range), Some(expected_hash)) => Some(
                AgentAction::ReplaceRange {
                    path,
                    range,
                    expected_hash,
                    replacement: or_empty_exec(p.content),
                },
            ),
            _ => None,
        }
    } else if is_name(&k, "modify_toml") {
        match (p.path, p.query, p.mcp_arguments) {
            (Some(path), Some(expected_hash), Some(operations)) => Some(
                AgentAction::ModifyToml { path, expected_hash, operations },
            ),
            _ => None,
        }
    } else if is_name(&k, "apply_preview") {
        match p.query {
            Some(preview_id) => Some(AgentAction::ApplyPreview { preview_id }),
            None => None,
        }
    } else if is_name(&k, "write_file") {
        match p.path {
            Some(path) => Some(AgentAction::WriteFile { path, content: or_empty_exec(p.content) }),
            None => None,
        }
    } else if is_name(&k, "apply_patch") {
        match p.path {
            Some(path) => Some(AgentAction::ApplyPatch { path, patch: or_empty_exec(p.patch) }),
            None => None,
        }
    } else if is_name(&k, "run_validation") {
        Some(
            AgentAction::RunValidation {
                plan: ValidationPlan { encoded: or_empty_exec(p.validation_plan) },
            },
        )
    } else if is_name(&k, "replace_block") {
        Some(
            AgentAction::ReplaceBlock {
                path: or_empty_exec(p.path),
                search_block: or_empty_exec(p.search_block),
                replace_block: or_empty_exec(p.replace_block),
                range,
            },
        )
    } else if is_name(&k, "set_executable") {
        Some(AgentAction::SetExecutable { path: or_empty_exec(p.path) })
    } else if is_name(&k, "mcp_call_tool") {
        Some(
            AgentAction::McpCallTool {
                server_name: or_empty_exec(p.mcp_server_name),
                tool_name: or_empty_exec(p.mcp_tool_name),
                arguments: match p.mcp_arguments {
                    Some(a) => a,
                    None => owned("{}"),
                },
            },
        )
    } else {
        None
    }
}


/// An action waiting for the user's confirmation.
#[derive(Debug, Clone)]
pub struct PendingCommand {
    pub action: AgentAction,
}

impl PendingCommand {
    pub fn new(action: AgentAction) -> (r: Self)
        ensures
            r.action == action,
    {
        PendingCommand { action }
    }

    pub fn action(&self) -> (r: &AgentAction)
        ensures
            *r == self.action,
    {
        &self.action
    }

    /// The record this command is saved as in a thread snapshot.
    pub fn to_persisted(&self) -> (r: PersistedPendingCommand)
        ensures
            r@ == persisted_of(self.action@),
    {
        persist_action(&self.action)
    }

    /// The command a saved record stands for; a record without a kind but with a
    /// command, as older snapshots hold, is a shell command.
    pub fn from_persisted(pending: PersistedPendingCommand) -> (r: Option<Self>)
        ensures
            match r {
                Some(c) => action_of(pending@) == Some(c.action@),
                None => action_of(pending@) is None,
            },
    {
        match restore_action(pending) {
            Some(action) => Some(PendingCommand { action }),
            None => None,
        }
    }
}

/// The action a tool segment of a reply asks for; text, reasoning and code ask for
/// none.
pub open spec fn action_of_segment(s: SegmentView) -> Option<ActionView> {
    match s {
        SegmentView::RunCommand { command, timeout_ms } => Some(
            ActionView::RunCommand { command, timeout_ms },
        ),
        SegmentView::ReadFile { path, range } => Some(ActionView::ReadFile { path, range }),
        SegmentView::ListDirectory { path } => Some(ActionView::ListDirectory { path }),
        SegmentView::WriteFile { path, content } => Some(ActionView::WriteFile { path, content }),
        SegmentView::ApplyPatch { path, patch } => Some(ActionView::ApplyPatch { path, patch }),
        SegmentView::ReplaceBlock { path, search_block, replace_block } => Some(
            ActionView::ReplaceBlock { path, search_block, replace_block, range: None },
        ),
        SegmentView::McpCallTool { server_name, tool_name, arguments } => Some(
            ActionView::McpCallTool { server_name, tool_name, arguments },
        ),
        _ => None,
    }
}

/// The action a tool segment of a reply asks for.
pub fn agent_action_from_assistant_segment(segment: &AssistantSegment) -> (r: Option<AgentAction>)
    ensures
        oaction(r) == action_of_segment(segment@),
{
    match segment {
        AssistantSegment::RunCommand { command, timeout_ms } => Some(
            AgentAction::RunCommand { command: command.clone(), timeout_ms: *timeout_ms },
        ),
        AssistantSegment::ReadFile { path, range } => Some(
            AgentAction::ReadFile { path: path.clone(), range: *range },
        ),
        AssistantSegment::ListDirectory { path } => Some(
            AgentAction::ListDirectory { path: path.clone() },
        ),
        AssistantSegment::WriteFile { path, content } => Some(
            AgentAction::WriteFile { path: path.clone(), content: content.clone() },
        ),
        AssistantSegment::ApplyPatch { path, patch } => Some(
            AgentAction::ApplyPatch { path: path.clone(), patch: patch.clone() },
        ),
        AssistantSegment::ReplaceBlock { path, search_block, replace_block } => Some(
            AgentAction::ReplaceBlock {
                path: path.clone(),
                search_block: search_block.clone(),
                replace_block: replace_block.clone(),
                range: None,
            },
        ),
        AssistantSegment::McpCallTool { server_name, tool_name, arguments } => Some(
            AgentAction::McpCallTool {
                server_name: server_name.clone(),
                tool_name: tool_name.clone(),
                arguments: arguments.clone(),
            },
        ),
        _ => None,
    }
}

} // verus!
