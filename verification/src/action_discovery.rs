//! Discovery of key bindings and actions: the keybinding help, the status-line focus
//! hints, the control deck and its filter, and the lines of the overlays that list
//! files, commands, actions and models.
use vstd::prelude::*;
use crate::keys::{KeyCodeInput, KeyInput};
use crate::panes::LeafId;
use crate::text::{
    ascii_lower_seq, ascii_lower_vec, chars_of, contains_exec, contains_seq, push_str,
    string_of, trim, trim_bounds,
};

verus! {

#[verifier::external_type_specification]
#[verifier::external_body]
pub struct ExPathBuf(std::path::PathBuf);

/// A view of the proof rail.
#[derive(Debug, Clone, Copy, PartialEq, Eq, Structural)]
pub enum RailMode {
    DiffReactor,
    VerifyRadar,
    TraceLens,
    TimelineScrubber,
    MemoryViewport,
    ToolOrchestra,
}

/// The kind of target an engage action opens.
#[derive(Debug, Clone, Copy, PartialEq, Eq, Structural)]
pub enum EngageTargetKind {
    File,
    Directory,
    ChangedFile,
    Artifact,
    ToolTarget,
    TerminalPath,
    FeedLink,
}

/// What a control deck action does.
#[derive(Clone, Copy, Debug)]
pub enum ActionDeckCommand {
    SetRailMode(Option<RailMode>),
    AddWatchpoint(&'static str),
    InsertSlash(&'static str),
    OpenFirstTarget(EngageTargetKind),
    OpenDiffTarget,
}

/// An action of the control deck.
#[derive(Clone, Copy, Debug)]
pub struct ActionDeckEntry {
    pub label: &'static str,
    pub detail: &'static str,
    pub command: ActionDeckCommand,
}

/// A key binding documented in the help.
#[derive(Clone, Copy, Debug)]
pub struct ActionDiscoveryEntry {
    pub key: &'static str,
    pub context: &'static str,
    pub action: &'static str,
    pub shell_overlay_line: Option<&'static str>,
    pub show_in_popup: bool,
}

/// A status-line hint for a focused pane, for compact or full layouts or for both.
#[derive(Clone, Copy, Debug)]
pub struct FocusContextHint {
    pub pane: LeafId,
    pub compact_ui: Option<bool>,
    pub text: &'static str,
}

/// A floating overlay: a title and its lines.
#[derive(Clone, Debug)]
pub struct ShellOverlay {
    pub title: String,
    pub lines: Vec<String>,
}

/// A model offered by the model picker.
#[derive(Clone, Debug)]
pub struct ModelsPaneEntry {
    pub title: String,
    pub subtitle: String,
}

/// A slash command offered by the command deck.
#[derive(Clone, Debug)]
pub struct CommandDeckEntry {
    pub label: String,
    pub safety_mode: String,
    pub target_scope: String,
    pub expected_outcome: String,
}

/// What a key press means in an overlay that takes typed text.
#[derive(Clone, Copy, Debug, PartialEq, Eq, Structural)]
pub enum OverlayTextInput {
    Close,
    MoveUp,
    MoveDown,
    Confirm,
    Backspace,
    InsertChar(char),
    Ignore,
}

/// The texts of a list of strings.
pub open spec fn views(v: Seq<String>) -> Seq<Seq<char>> {
    v.map_values(|s: String| s@)
}

/// The key bindings the help overlay documents, in the order shown.
pub open spec fn discovery_table() -> Seq<ActionDiscoveryEntry> {
    seq![
        ActionDiscoveryEntry { key: "Click", context: "Global", action: "Focus pane", shell_overlay_line: None, show_in_popup: true },
        ActionDiscoveryEntry { key: "Tab / Shift+Tab", context: "Global", action: "Cycle pane focus", shell_overlay_line: Some("Tab / Shift+Tab      cycle focus islands"), show_in_popup: true },
        ActionDiscoveryEntry { key: "Alt+1..4", context: "Global", action: "Jump workspace panes", shell_overlay_line: Some("Alt+1..4             jump Explorer / Main / Assistant / Dock"), show_in_popup: false },
        ActionDiscoveryEntry { key: "Ctrl+h / j / k / l", context: "Global", action: "Vim-style pane navigation", shell_overlay_line: Some("Ctrl+h / j / k / l   Vim-style focus moves"), show_in_popup: true },
        ActionDiscoveryEntry { key: "Ctrl+b", context: "Global", action: "Toggle files", shell_overlay_line: Some("Ctrl+b               toggle explorer"), show_in_popup: false },
        ActionDiscoveryEntry { key: "Ctrl+`", context: "Global", action: "Toggle terminal dock", shell_overlay_line: Some("Ctrl+`               toggle terminal dock"), show_in_popup: false },
        ActionDiscoveryEntry { key: "Ctrl+p", context: "Global", action: "Quick open", shell_overlay_line: Some("Ctrl+p               quick open"), show_in_popup: false },
        ActionDiscoveryEntry { key: "Ctrl+k", context: "Global", action: "Open control deck", shell_overlay_line: Some("Ctrl+k               control deck"), show_in_popup: true },
        ActionDiscoveryEntry { key: "Ctrl+n", context: "Global", action: "New thread", shell_overlay_line: Some("Ctrl+n               choose root for a new thread"), show_in_popup: true },
        ActionDiscoveryEntry { key: "Ctrl+t", context: "Chat", action: "New chat session", shell_overlay_line: Some("Ctrl+t               open a new assistant session"), show_in_popup: true },
        ActionDiscoveryEntry { key: "Alt+a / Alt+p / Alt+x", context: "Chat", action: "Switch Ask / Plan / Act mode", shell_overlay_line: Some("Alt+a / Alt+p / Alt+x switch Ask / Plan / Act"), show_in_popup: true },
        ActionDiscoveryEntry { key: "Space", context: "Global", action: "Attach current file", shell_overlay_line: Some("Space                attach current file to chat"), show_in_popup: false },
        ActionDiscoveryEntry { key: "Ctrl+g", context: "Terminal", action: "Enter terminal navigation mode", shell_overlay_line: Some("Ctrl+g               switch terminal to navigation mode"), show_in_popup: false },
        ActionDiscoveryEntry { key: "Enter", context: "Terminal", action: "Re-enter terminal capture", shell_overlay_line: Some("Enter                re-enter terminal capture"), show_in_popup: false },
        ActionDiscoveryEntry { key: "Ctrl+m", context: "Global", action: "Toggle Models pane", shell_overlay_line: None, show_in_popup: true },
        ActionDiscoveryEntry { key: "Esc", context: "Global", action: "Quit (or dismiss help)", shell_overlay_line: None, show_in_popup: true },
        ActionDiscoveryEntry { key: "Up / Down", context: "File Tree", action: "Navigate entries", shell_overlay_line: None, show_in_popup: true },
        ActionDiscoveryEntry { key: "Home / End", context: "File Tree", action: "Jump to first / last", shell_overlay_line: None, show_in_popup: true },
        ActionDiscoveryEntry { key: "Enter", context: "File Tree", action: "Expand dir / Select file", shell_overlay_line: None, show_in_popup: true },
        ActionDiscoveryEntry { key: "Left / Right", context: "File Tree", action: "Collapse (or parent) / Expand", shell_overlay_line: None, show_in_popup: true },
        ActionDiscoveryEntry { key: "Up/Down/PgUp/PgDn/Home/End", context: "Code Preview", action: "Scroll", shell_overlay_line: None, show_in_popup: true },
        ActionDiscoveryEntry { key: "Alt+Up", context: "Code / Chat", action: "Focus tab strip (arrows switch tabs)", shell_overlay_line: None, show_in_popup: true },
        ActionDiscoveryEntry { key: "Left/Right", context: "Tab strip focused", action: "Previous / next tab", shell_overlay_line: None, show_in_popup: true },
        ActionDiscoveryEntry { key: "Delete / Ctrl+w", context: "Tab strip focused", action: "Close active tab", shell_overlay_line: None, show_in_popup: true },
        ActionDiscoveryEntry { key: "Ctrl+Shift+w", context: "Tab strip focused", action: "Close all tabs", shell_overlay_line: None, show_in_popup: true },
        ActionDiscoveryEntry { key: "PgUp / PgDn", context: "Assistant", action: "Scroll results", shell_overlay_line: None, show_in_popup: true },
        ActionDiscoveryEntry { key: "Shift+PgUp/PgDn", context: "Terminal", action: "Scrollback offset", shell_overlay_line: None, show_in_popup: true },
        ActionDiscoveryEntry { key: "[ / ]", context: "Chat", action: "Cycle model", shell_overlay_line: None, show_in_popup: true },
        ActionDiscoveryEntry { key: "Enter", context: "Chat", action: "Send message", shell_overlay_line: None, show_in_popup: true },
        ActionDiscoveryEntry { key: "/", context: "Chat", action: "Open workflow deck when composer is empty", shell_overlay_line: Some("/                    workflow deck (empty composer)"), show_in_popup: true },
        ActionDiscoveryEntry { key: "Enter", context: "Models", action: "Switch model / Download", shell_overlay_line: None, show_in_popup: true },
        ActionDiscoveryEntry { key: "Ctrl+s", context: "Global", action: "Stop running model", shell_overlay_line: None, show_in_popup: true },
        ActionDiscoveryEntry { key: "?", context: "Global", action: "Toggle this help", shell_overlay_line: None, show_in_popup: true },
    ]
}

fn discovery_entries() -> (r: Vec<ActionDiscoveryEntry>)
    ensures
        r@ == discovery_table(),
{
    let mut v: Vec<ActionDiscoveryEntry> = Vec::new();
    v.push(ActionDiscoveryEntry { key: "Click", context: "Global", action: "Focus pane", shell_overlay_line: None, show_in_popup: true });
    v.push(ActionDiscoveryEntry { key: "Tab / Shift+Tab", context: "Global", action: "Cycle pane focus", shell_overlay_line: Some("Tab / Shift+Tab      cycle focus islands"), show_in_popup: true });
    v.push(ActionDiscoveryEntry { key: "Alt+1..4", context: "Global", action: "Jump workspace panes", shell_overlay_line: Some("Alt+1..4             jump Explorer / Main / Assistant / Dock"), show_in_popup: false });
    v.push(ActionDiscoveryEntry { key: "Ctrl+h / j / k / l", context: "Global", action: "Vim-style pane navigation", shell_overlay_line: Some("Ctrl+h / j / k / l   Vim-style focus moves"), show_in_popup: true });
    v.push(ActionDiscoveryEntry { key: "Ctrl+b", context: "Global", action: "Toggle files", shell_overlay_line: Some("Ctrl+b               toggle explorer"), show_in_popup: false });
    v.push(ActionDiscoveryEntry { key: "Ctrl+`", context: "Global", action: "Toggle terminal dock", shell_overlay_line: Some("Ctrl+`               toggle terminal dock"), show_in_popup: false });
    v.push(ActionDiscoveryEntry { key: "Ctrl+p", context: "Global", action: "Quick open", shell_overlay_line: Some("Ctrl+p               quick open"), show_in_popup: false });
    v.push(ActionDiscoveryEntry { key: "Ctrl+k", context: "Global", action: "Open control deck", shell_overlay_line: Some("Ctrl+k               control deck"), show_in_popup: true });
    v.push(ActionDiscoveryEntry { key: "Ctrl+n", context: "Global", action: "New thread", shell_overlay_line: Some("Ctrl+n               choose root for a new thread"), show_in_popup: true });
    v.push(ActionDiscoveryEntry { key: "Ctrl+t", context: "Chat", action: "New chat session", shell_overlay_line: Some("Ctrl+t               open a new assistant session"), show_in_popup: true });
    v.push(ActionDiscoveryEntry { key: "Alt+a / Alt+p / Alt+x", context: "Chat", action: "Switch Ask / Plan / Act mode", shell_overlay_line: Some("Alt+a / Alt+p / Alt+x switch Ask / Plan / Act"), show_in_popup: true });
    v.push(ActionDiscoveryEntry { key: "Space", context: "Global", action: "Attach current file", shell_overlay_line: Some("Space                attach current file to chat"), show_in_popup: false });
    v.push(ActionDiscoveryEntry { key: "Ctrl+g", context: "Terminal", action: "Enter terminal navigation mode", shell_overlay_line: Some("Ctrl+g               switch terminal to navigation mode"), show_in_popup: false });
    v.push(ActionDiscoveryEntry { key: "Enter", context: "Terminal", action: "Re-enter terminal capture", shell_overlay_line: Some("Enter                re-enter terminal capture"), show_in_popup: false });
    v.push(ActionDiscoveryEntry { key: "Ctrl+m", context: "Global", action: "Toggle Models pane", shell_overlay_line: None, show_in_popup: true });
    v.push(ActionDiscoveryEntry { key: "Esc", context: "Global", action: "Quit (or dismiss help)", shell_overlay_line: None, show_in_popup: true });
    v.push(ActionDiscoveryEntry { key: "Up / Down", context: "File Tree", action: "Navigate entries", shell_overlay_line: None, show_in_popup: true });
    v.push(ActionDiscoveryEntry { key: "Home / End", context: "File Tree", action: "Jump to first / last", shell_overlay_line: None, show_in_popup: true });
    v.push(ActionDiscoveryEntry { key: "Enter", context: "File Tree", action: "Expand dir / Select file", shell_overlay_line: None, show_in_popup: true });
    v.push(ActionDiscoveryEntry { key: "Left / Right", context: "File Tree", action: "Collapse (or parent) / Expand", shell_overlay_line: None, show_in_popup: true });
    v.push(ActionDiscoveryEntry { key: "Up/Down/PgUp/PgDn/Home/End", context: "Code Preview", action: "Scroll", shell_overlay_line: None, show_in_popup: true });
    v.push(ActionDiscoveryEntry { key: "Alt+Up", context: "Code / Chat", action: "Focus tab strip (arrows switch tabs)", shell_overlay_line: None, show_in_popup: true });
    v.push(ActionDiscoveryEntry { key: "Left/Right", context: "Tab strip focused", action: "Previous / next tab", shell_overlay_line: None, show_in_popup: true });
    v.push(ActionDiscoveryEntry { key: "Delete / Ctrl+w", context: "Tab strip focused", action: "Close active tab", shell_overlay_line: None, show_in_popup: true });
    v.push(ActionDiscoveryEntry { key: "Ctrl+Shift+w", context: "Tab strip focused", action: "Close all tabs", shell_overlay_line: None, show_in_popup: true });
    v.push(ActionDiscoveryEntry { key: "PgUp / PgDn", context: "Assistant", action: "Scroll results", shell_overlay_line: None, show_in_popup: true });
    v.push(ActionDiscoveryEntry { key: "Shift+PgUp/PgDn", context: "Terminal", action: "Scrollback offset", shell_overlay_line: None, show_in_popup: true });
    v.push(ActionDiscoveryEntry { key: "[ / ]", context: "Chat", action: "Cycle model", shell_overlay_line: None, show_in_popup: true });
    v.push(ActionDiscoveryEntry { key: "Enter", context: "Chat", action: "Send message", shell_overlay_line: None, show_in_popup: true });
    v.push(ActionDiscoveryEntry { key: "/", context: "Chat", action: "Open workflow deck when composer is empty", shell_overlay_line: Some("/                    workflow deck (empty composer)"), show_in_popup: true });
    v.push(ActionDiscoveryEntry { key: "Enter", context: "Models", action: "Switch model / Download", shell_overlay_line: None, show_in_popup: true });
    v.push(ActionDiscoveryEntry { key: "Ctrl+s", context: "Global", action: "Stop running model", shell_overlay_line: None, show_in_popup: true });
    v.push(ActionDiscoveryEntry { key: "?", context: "Global", action: "Toggle this help", shell_overlay_line: None, show_in_popup: true });
    assert(v@ =~= discovery_table());
    v
}

/// The focus hints of the status line, tried in order.
pub open spec fn context_hint_table() -> Seq<FocusContextHint> {
    seq![
        FocusContextHint { pane: LeafId(0), compact_ui: None, text: "Enter open  Tab next focus  Alt+2 preview  Ctrl+b hide files  ? help" },
        FocusContextHint { pane: LeafId(1), compact_ui: None, text: "Tab next focus  Alt+1 files  Alt+3 assistant  Ctrl+` terminal  Space attach" },
        FocusContextHint { pane: LeafId(3), compact_ui: Some(false), text: "Enter send  PgUp/PgDn results  Alt+a/p/x mode  Ctrl+t new chat  Ctrl+m models" },
        FocusContextHint { pane: LeafId(3), compact_ui: Some(true), text: "Enter send  PgUp/PgDn results  Alt+a/p/x mode  Ctrl+t new chat  Esc close overlay" },
        FocusContextHint { pane: LeafId(4), compact_ui: None, text: "Assistant actions are shown inline in the assistant rail." },
        FocusContextHint { pane: LeafId(2), compact_ui: None, text: "Terminal" },
    ]
}

fn context_hint_entries() -> (r: Vec<FocusContextHint>)
    ensures
        r@ == context_hint_table(),
{
    let mut v: Vec<FocusContextHint> = Vec::new();
    v.push(FocusContextHint { pane: LeafId(0), compact_ui: None, text: "Enter open  Tab next focus  Alt+2 preview  Ctrl+b hide files  ? help" });
    v.push(FocusContextHint { pane: LeafId(1), compact_ui: None, text: "Tab next focus  Alt+1 files  Alt+3 assistant  Ctrl+` terminal  Space attach" });
    v.push(FocusContextHint { pane: LeafId(3), compact_ui: Some(false), text: "Enter send  PgUp/PgDn results  Alt+a/p/x mode  Ctrl+t new chat  Ctrl+m models" });
    v.push(FocusContextHint { pane: LeafId(3), compact_ui: Some(true), text: "Enter send  PgUp/PgDn results  Alt+a/p/x mode  Ctrl+t new chat  Esc close overlay" });
    v.push(FocusContextHint { pane: LeafId(4), compact_ui: None, text: "Assistant actions are shown inline in the assistant rail." });
    v.push(FocusContextHint { pane: LeafId(2), compact_ui: None, text: "Terminal" });
    assert(v@ =~= context_hint_table());
    v
}

/// The actions of the control deck, in the order shown.
pub open spec fn action_deck_table() -> Seq<ActionDeckEntry> {
    seq![
        ActionDeckEntry { label: "Command Center", detail: "Return to the default control tower rail.", command: ActionDeckCommand::SetRailMode(None) },
        ActionDeckEntry { label: "Diff Lens", detail: "Focus blast radius, semantic patch surface, and rollback.", command: ActionDeckCommand::SetRailMode(Some(RailMode::DiffReactor)) },
        ActionDeckEntry { label: "Verify Radar", detail: "Foreground proof progress, tests, and time-to-proof.", command: ActionDeckCommand::SetRailMode(Some(RailMode::VerifyRadar)) },
        ActionDeckEntry { label: "Trace Lens", detail: "Open the reasoning artifact view with evidence and rollback.", command: ActionDeckCommand::SetRailMode(Some(RailMode::TraceLens)) },
        ActionDeckEntry { label: "Timeline", detail: "Scrub checkpoints, stop reason, and exported artifacts.", command: ActionDeckCommand::SetRailMode(Some(RailMode::TimelineScrubber)) },
        ActionDeckEntry { label: "Memory Viewport", detail: "Show context pressure and compaction state.", command: ActionDeckCommand::SetRailMode(Some(RailMode::MemoryViewport)) },
        ActionDeckEntry { label: "Tool Orchestra", detail: "Follow the active tools instead of the broader command center.", command: ActionDeckCommand::SetRailMode(Some(RailMode::ToolOrchestra)) },
        ActionDeckEntry { label: "Watchpoint: no migrations", detail: "Trip if schema or migration files appear in the blast radius.", command: ActionDeckCommand::AddWatchpoint("no migrations") },
        ActionDeckEntry { label: "Watchpoint: no public API widening", detail: "Trip if public surface grows while the agent is editing.", command: ActionDeckCommand::AddWatchpoint("no public API widening") },
        ActionDeckEntry { label: "Watchpoint: auth untouched", detail: "Trip if auth paths or auth-adjacent files are touched.", command: ActionDeckCommand::AddWatchpoint("auth untouched") },
        ActionDeckEntry { label: "Watchpoint: one-hop write radius", detail: "Trip if the change escapes the first intended file cluster.", command: ActionDeckCommand::AddWatchpoint("one-hop write radius") },
        ActionDeckEntry { label: "Open Run Artifacts", detail: "Execute /open-run-artifacts in the active assistant session.", command: ActionDeckCommand::InsertSlash("/open-run-artifacts") },
        ActionDeckEntry { label: "Resume Last Run", detail: "Execute /resume-last in the active assistant session.", command: ActionDeckCommand::InsertSlash("/resume-last") },
        ActionDeckEntry { label: "Open Touched File", detail: "Preview the first changed file in the center surface.", command: ActionDeckCommand::OpenFirstTarget(EngageTargetKind::ChangedFile) },
        ActionDeckEntry { label: "Open Diff Target", detail: "Promote the current preview target into Diff Lens when edits exist.", command: ActionDeckCommand::OpenDiffTarget },
        ActionDeckEntry { label: "Open Artifact", detail: "Preview the newest artifact path inside Quorp first.", command: ActionDeckCommand::OpenFirstTarget(EngageTargetKind::Artifact) },
        ActionDeckEntry { label: "Follow Tool", detail: "Jump to the most relevant active tool target in the center surface.", command: ActionDeckCommand::OpenFirstTarget(EngageTargetKind::ToolTarget) },
    ]
}

fn action_deck_entries() -> (r: Vec<ActionDeckEntry>)
    ensures
        r@ == action_deck_table(),
{
    let mut v: Vec<ActionDeckEntry> = Vec::new();
    v.push(ActionDeckEntry { label: "Command Center", detail: "Return to the default control tower rail.", command: ActionDeckCommand::SetRailMode(None) });
    v.push(ActionDeckEntry { label: "Diff Lens", detail: "Focus blast radius, semantic patch surface, and rollback.", command: ActionDeckCommand::SetRailMode(Some(RailMode::DiffReactor)) });
    v.push(ActionDeckEntry { label: "Verify Radar", detail: "Foreground proof progress, tests, and time-to-proof.", command: ActionDeckCommand::SetRailMode(Some(RailMode::VerifyRadar)) });
    v.push(ActionDeckEntry { label: "Trace Lens", detail: "Open the reasoning artifact view with evidence and rollback.", command: ActionDeckCommand::SetRailMode(Some(RailMode::TraceLens)) });
    v.push(ActionDeckEntry { label: "Timeline", detail: "Scrub checkpoints, stop reason, and exported artifacts.", command: ActionDeckCommand::SetRailMode(Some(RailMode::TimelineScrubber)) });
    v.push(ActionDeckEntry { label: "Memory Viewport", detail: "Show context pressure and compaction state.", command: ActionDeckCommand::SetRailMode(Some(RailMode::MemoryViewport)) });
    v.push(ActionDeckEntry { label: "Tool Orchestra", detail: "Follow the active tools instead of the broader command center.", command: ActionDeckCommand::SetRailMode(Some(RailMode::ToolOrchestra)) });
    v.push(ActionDeckEntry { label: "Watchpoint: no migrations", detail: "Trip if schema or migration files appear in the blast radius.", command: ActionDeckCommand::AddWatchpoint("no migrations") });
    v.push(ActionDeckEntry { label: "Watchpoint: no public API widening", detail: "Trip if public surface grows while the agent is editing.", command: ActionDeckCommand::AddWatchpoint("no public API widening") });
    v.push(ActionDeckEntry { label: "Watchpoint: auth untouched", detail: "Trip if auth paths or auth-adjacent files are touched.", command: ActionDeckCommand::AddWatchpoint("auth untouched") });
    v.push(ActionDeckEntry { label: "Watchpoint: one-hop write radius", detail: "Trip if the change escapes the first intended file cluster.", command: ActionDeckCommand::AddWatchpoint("one-hop write radius") });
    v.push(ActionDeckEntry { label: "Open Run Artifacts", detail: "Execute /open-run-artifacts in the active assistant session.", command: ActionDeckCommand::InsertSlash("/open-run-artifacts") });
    v.push(ActionDeckEntry { label: "Resume Last Run", detail: "Execute /resume-last in the active assistant session.", command: ActionDeckCommand::InsertSlash("/resume-last") });
    v.push(ActionDeckEntry { label: "Open Touched File", detail: "Preview the first changed file in the center surface.", command: ActionDeckCommand::OpenFirstTarget(EngageTargetKind::ChangedFile) });
    v.push(ActionDeckEntry { label: "Open Diff Target", detail: "Promote the current preview target into Diff Lens when edits exist.", command: ActionDeckCommand::OpenDiffTarget });
    v.push(ActionDeckEntry { label: "Open Artifact", detail: "Preview the newest artifact path inside Quorp first.", command: ActionDeckCommand::OpenFirstTarget(EngageTargetKind::Artifact) });
    v.push(ActionDeckEntry { label: "Follow Tool", detail: "Jump to the most relevant active tool target in the center surface.", command: ActionDeckCommand::OpenFirstTarget(EngageTargetKind::ToolTarget) });
    assert(v@ =~= action_deck_table());
    v
}

/// An action matches a lower-cased query when its lower-cased label or detail holds it.
pub open spec fn deck_entry_matches(e: ActionDeckEntry, q: Seq<char>) -> bool {
    contains_seq(ascii_lower_seq(e.label@), q) || contains_seq(ascii_lower_seq(e.detail@), q)
}

/// The entries of `t` that match `q`, in order.
pub open spec fn filter_deck(t: Seq<ActionDeckEntry>, q: Seq<char>) -> Seq<ActionDeckEntry>
    decreases t.len(),
{
    if t.len() == 0 {
        seq![]
    } else {
        let rest = filter_deck(t.drop_last(), q);
        if deck_entry_matches(t.last(), q) {
            rest.push(t.last())
        } else {
            rest
        }
    }
}

/// The control deck actions a query selects: all of them when the trimmed query is
/// empty, else those whose label or detail holds it, ignoring ASCII case.
pub open spec fn deck_for_query(query: Seq<char>) -> Seq<ActionDeckEntry> {
    let n = ascii_lower_seq(trim(query));
    if n.len() == 0 {
        action_deck_table()
    } else {
        filter_deck(action_deck_table(), n)
    }
}

/// The control deck actions that match `query`.
pub fn filter_action_deck_entries(query: &str) -> (r: Vec<ActionDeckEntry>)
    ensures
        r@ == deck_for_query(query@),
{
    let q = chars_of(query);
    let (a, b) = trim_bounds(&q, 0, q.len());
    assert(q@.subrange(0, q.len() as int) =~= q@);
    let t = crate::patch::slice_chars(&q, a, b);
    let n = ascii_lower_vec(&t);
    let table = action_deck_entries();
    if n.len() == 0 {
        return table;
    }
    let mut out: Vec<ActionDeckEntry> = Vec::new();
    let mut i: usize = 0;
    while i < table.len()
        invariant
            i <= table.len(),
            table@ == action_deck_table(),
            out@ == filter_deck(table@.take(i as int), n@),
        decreases table.len() - i,
    {
        let e = table[i];
        let label = ascii_lower_vec(&chars_of(e.label));
        let detail = ascii_lower_vec(&chars_of(e.detail));
        let keep = contains_exec(&label, &n) || contains_exec(&detail, &n);
        assert(table@.take(i + 1).drop_last() =~= table@.take(i as int));
        if keep {
            out.push(e);
        }
        i += 1;
    }
    assert(table@.take(table.len() as int) =~= table@);
    out
}

/// The status-line hint for `pane`: the text of the first hint of `t` from index `i`
/// on that names the pane and, when it names a layout, the current one; the general
/// hint when none does.
pub open spec fn hint_from(t: Seq<FocusContextHint>, i: int, pane: LeafId, compact_ui: bool) -> Seq<
    char,
>
    decreases t.len() - i,
{
    if i < 0 || i >= t.len() {
        "Tab next focus  Alt+1..4 jump  Ctrl+b files  Ctrl+` terminal  ? help"@
    } else if t[i].pane == pane && (t[i].compact_ui matches Some(c) ==> c == compact_ui) {
        t[i].text@
    } else {
        hint_from(t, i + 1, pane, compact_ui)
    }
}

/// The help lines of the key bindings of `t` that the popup shows and that have one.
pub open spec fn popup_lines(t: Seq<ActionDiscoveryEntry>) -> Seq<&'static str>
    decreases t.len(),
{
    if t.len() == 0 {
        seq![]
    } else {
        let rest = popup_lines(t.drop_last());
        let e = t.last();
        if e.show_in_popup && e.shell_overlay_line is Some {
            rest.push(e.shell_overlay_line->0)
        } else {
            rest
        }
    }
}

/// What a key press means in a text overlay: nothing with `Alt` or `Shift` held;
/// `Esc` closes, the arrows move, `Enter` confirms, `Backspace` deletes, and a
/// character typed with no modifier is inserted.
pub open spec fn overlay_text_input(key: KeyInput) -> OverlayTextInput {
    if key.modifiers.alt || key.modifiers.shift {
        OverlayTextInput::Ignore
    } else {
        match key.code {
            KeyCodeInput::Esc => OverlayTextInput::Close,
            KeyCodeInput::Up => OverlayTextInput::MoveUp,
            KeyCodeInput::Down => OverlayTextInput::MoveDown,
            KeyCodeInput::Enter => OverlayTextInput::Confirm,
            KeyCodeInput::Backspace => OverlayTextInput::Backspace,
            KeyCodeInput::Char(c) => if key.modifiers.is_empty_spec() {
                OverlayTextInput::InsertChar(c)
            } else {
                OverlayTextInput::Ignore
            },
            _ => OverlayTextInput::Ignore,
        }
    }
}

/// A list line: the marker, a space, the label.
pub open spec fn marked(selected: bool, on: Seq<char>, off: Seq<char>, rest: Seq<char>) -> Seq<char> {
    (if selected {
        on
    } else {
        off
    }) + rest
}

/// The lines of the quick-open overlay.
pub open spec fn quick_open_lines(query: Seq<char>, labels: Seq<Seq<char>>, selected: int) -> Seq<
    Seq<char>,
> {
    seq!["Search: "@ + query] + if labels.len() == 0 {
        seq!["No files match the current query."@]
    } else {
        Seq::new(labels.len(), |i: int| marked(i == selected, ">"@, " "@, " "@ + labels[i]))
    }
}

/// The lines of the new-thread overlay.
pub open spec fn new_thread_lines(query: Seq<char>, labels: Seq<Seq<char>>, selected: int) -> Seq<
    Seq<char>,
> {
    seq![
        "Type folder name and use ↑/↓ to select. Enter to open. Esc to cancel."@,
        "Query: "@ + query,
    ] + Seq::new(labels.len(), |i: int| marked(i == selected, "▸ "@, "  "@, labels[i]))
}

/// The line of a slash command in the command deck.
pub open spec fn command_line(e: CommandDeckEntry) -> Seq<char> {
    " "@ + e.label@ + "  "@ + e.safety_mode@ + "  ·  "@ + e.target_scope@ + "  ·  "@
        + e.expected_outcome@
}

/// The lines of the slash command deck.
pub open spec fn slash_command_lines(
    query: Seq<char>,
    matches: Seq<CommandDeckEntry>,
    selected: int,
) -> Seq<Seq<char>> {
    seq![
        "Type to filter. Enter inserts the command. Esc closes the deck."@,
        "Query: /"@ + query,
    ] + if matches.len() == 0 {
        seq!["No slash commands match the current query."@]
    } else {
        Seq::new(
            matches.len(),
            |i: int| marked(i == selected, "▸"@, " "@, command_line(matches[i])),
        )
    }
}

/// The lines of the control deck.
pub open spec fn action_deck_lines(query: Seq<char>, matches: Seq<ActionDeckEntry>, selected: int) -> Seq<
    Seq<char>,
> {
    seq![
        "Type to filter. Enter executes the action. Esc closes the deck."@,
        "Query: "@ + query,
    ] + if matches.len() == 0 {
        seq!["No control deck actions match the current query."@]
    } else {
        Seq::new(
            matches.len(),
            |i: int| marked(i == selected, "▸"@, " "@, " "@ + matches[i].label@ + "  "@ + matches[i].detail@),
        )
    }
}

/// The lines of the model picker.
pub open spec fn model_picker_lines(entries: Seq<ModelsPaneEntry>, selected: int) -> Seq<Seq<char>> {
    Seq::new(
        entries.len(),
        |i: int| marked(i == selected, "> "@, "  "@, entries[i].title@ + "  "@ + entries[i].subtitle@),
    )
}

/// The labels of a list of candidate paths.
pub open spec fn path_labels(matches: Seq<(String, std::path::PathBuf)>) -> Seq<Seq<char>> {
    matches.map_values(|m: (String, std::path::PathBuf)| m.0@)
}

/// Pushing a string onto a list pushes its text onto the list's texts.
pub proof fn lemma_views_push(v: Seq<String>, s: String)
    ensures
        views(v.push(s)) == views(v).push(s@),
{
    assert(views(v.push(s)) =~= views(v).push(s@));
}

/// `marker` followed by `rest`.
fn marked_line(selected: bool, on: &str, off: &str, rest: &Vec<char>) -> (r: String)
    ensures
        r@ == marked(selected, on@, off@, rest@),
{
    let mut out = if selected {
        chars_of(on)
    } else {
        chars_of(off)
    };
    crate::text::push_chars(&mut out, rest);
    string_of(out.as_slice())
}

/// The characters of a `String`.
fn chars_of_string(s: &String) -> (r: Vec<char>)
    ensures
        r@ == s@,
{
    chars_of(s.as_str())
}

/// `prefix` followed by `text`.
fn prefixed(prefix: &str, text: &str) -> (r: String)
    ensures
        r@ == prefix@ + text@,
{
    let mut out = chars_of(prefix);
    push_str(&mut out, text);
    string_of(out.as_slice())
}

/// Helpers for discovering key bindings and actions, and the overlays that list them.
pub struct ActionDiscoveryModel;

impl ActionDiscoveryModel {
    /// The title of the keybinding help.
    pub fn overlay_title() -> (r: &'static str)
        ensures
            r@ == "Keybindings"@,
    {
        "Keybindings"
    }

    /// The title of the quick-open overlay.
    pub fn quick_open_title() -> (r: &'static str)
        ensures
            r@ == "Quick Open"@,
    {
        "Quick Open"
    }

    /// The title of the new-thread overlay.
    pub fn new_thread_title() -> (r: &'static str)
        ensures
            r@ == "New Thread"@,
    {
        "New Thread"
    }

    /// The title of the model picker.
    pub fn model_picker_title() -> (r: &'static str)
        ensures
            r@ == "Model Selector"@,
    {
        "Model Selector"
    }

    /// The title of the slash command deck.
    pub fn slash_command_title() -> (r: &'static str)
        ensures
            r@ == "Slash Commands"@,
    {
        "Slash Commands"
    }

    /// The title of the control deck.
    pub fn action_deck_title() -> (r: &'static str)
        ensures
            r@ == "Control Deck"@,
    {
        "Control Deck"
    }

    /// What `key` means in an overlay that takes typed text.
    pub fn parse_text_overlay_input(key: &KeyInput) -> (r: OverlayTextInput)
        ensures
            r == overlay_text_input(*key),
    {
        if key.modifiers.alt || key.modifiers.shift {
            return OverlayTextInput::Ignore;
        }
        match key.code {
            KeyCodeInput::Esc => OverlayTextInput::Close,
            KeyCodeInput::Up => OverlayTextInput::MoveUp,
            KeyCodeInput::Down => OverlayTextInput::MoveDown,
            KeyCodeInput::Enter => OverlayTextInput::Confirm,
            KeyCodeInput::Backspace => OverlayTextInput::Backspace,
            KeyCodeInput::Char(c) => if key.modifiers.is_empty() {
                OverlayTextInput::InsertChar(c)
            } else {
                OverlayTextInput::Ignore
            },
            _ => OverlayTextInput::Ignore,
        }
    }

    /// The status-line hint for the focused pane.
    pub fn context_hint(pane: LeafId, compact_ui: bool) -> (r: &'static str)
        ensures
            r@ == hint_from(context_hint_table(), 0, pane, compact_ui),
    {
        let t = context_hint_entries();
        let mut i: usize = 0;
        while i < t.len()
            invariant
                i <= t.len(),
                t@ == context_hint_table(),
                hint_from(t@, 0, pane, compact_ui) == hint_from(t@, i as int, pane, compact_ui),
            decreases t.len() - i,
        {
            let h = t[i];
            let applies = h.pane == pane && match h.compact_ui {
                Some(c) => c == compact_ui,
                None => true,
            };
            if applies {
                return h.text;
            }
            i += 1;
        }
        "Tab next focus  Alt+1..4 jump  Ctrl+b files  Ctrl+` terminal  ? help"
    }

    /// The help lines of the key bindings shown in the popup, in table order.
    pub fn shell_overlay_lines() -> (r: Vec<&'static str>)
        ensures
            r@ == popup_lines(discovery_table()),
    {
        let t = discovery_entries();
        let mut out: Vec<&'static str> = Vec::new();
        let mut i: usize = 0;
        while i < t.len()
            invariant
                i <= t.len(),
                t@ == discovery_table(),
                out@ == popup_lines(t@.take(i as int)),
            decreases t.len() - i,
        {
            let e = t[i];
            assert(t@.take(i + 1).drop_last() =~= t@.take(i as int));
            if e.show_in_popup {
                match e.shell_overlay_line {
                    Some(line) => out.push(line),
                    None => {},
                }
            }
            i += 1;
        }
        assert(t@.take(t.len() as int) =~= t@);
        out
    }

    /// The keybinding help overlay.
    pub fn help_overlay_snapshot() -> (r: ShellOverlay)
        ensures
            r.title@ == "Keybindings"@,
            views(r.lines@) == popup_lines(discovery_table()).map_values(|l: &'static str| l@),
    {
        let src = Self::shell_overlay_lines();
        let mut lines: Vec<String> = Vec::new();
        let mut i: usize = 0;
        while i < src.len()
            invariant
                i <= src.len(),
                views(lines@) == src@.take(i as int).map_values(|l: &'static str| l@),
            decreases src.len() - i,
        {
            let line = src[i].to_owned();
            proof {
                lemma_views_push(lines@, line);
                assert(src@.take(i + 1) =~= src@.take(i as int).push(src@[i as int]));
            }
            lines.push(line);
            i += 1;
            assert(views(lines@) =~= src@.take(i as int).map_values(|l: &'static str| l@));
        }
        assert(src@.take(src.len() as int) =~= src@);
        ShellOverlay { title: Self::overlay_title().to_owned(), lines }
    }

    /// The model picker overlay, marking the selected model.
    pub fn model_picker_overlay_snapshot(entries: &[ModelsPaneEntry], selected_index: usize) -> (r:
        ShellOverlay)
        ensures
            r.title@ == "Model Selector"@,
            views(r.lines@) == model_picker_lines(entries@, selected_index as int),
    {
        let mut lines: Vec<String> = Vec::new();
        let mut i: usize = 0;
        while i < entries.len()
            invariant
                i <= entries.len(),
                views(lines@) == model_picker_lines(entries@.take(i as int), selected_index as int),
            decreases entries.len() - i,
        {
            let e = &entries[i];
            let mut rest = chars_of_string(&e.title);
            push_str(&mut rest, "  ");
            push_str(&mut rest, e.subtitle.as_str());
            let line = marked_line(i == selected_index, "> ", "  ", &rest);
            proof {
                lemma_views_push(lines@, line);
            }
            lines.push(line);
            i += 1;
            assert(views(lines@) =~= model_picker_lines(
                entries@.take(i as int),
                selected_index as int,
            ));
        }
        assert(entries@.take(entries.len() as int) =~= entries@);
        ShellOverlay { title: Self::model_picker_title().to_owned(), lines }
    }

    /// The hint that tells how to open or close the help.
    pub fn help_hint(overlay_active: bool) -> (r: &'static str)
        ensures
            r@ == (if overlay_active {
                "Press ? or Esc to close help"@
            } else {
                "Press ? for help"@
            }),
    {
        if overlay_active {
            "Press ? or Esc to close help"
        } else {
            "Press ? for help"
        }
    }

    /// The lines of the quick-open overlay: the query, then the matching files with the
    /// selected one marked, or a note that nothing matches.
    pub fn quick_open_overlay_lines(
        query: &str,
        matches: &[(String, std::path::PathBuf)],
        selected_index: usize,
    ) -> (r: Vec<String>)
        ensures
            views(r@) == quick_open_lines(query@, path_labels(matches@), selected_index as int),
    {
        let mut lines: Vec<String> = Vec::new();
        lines.push(prefixed("Search: ", query));
        if matches.len() == 0 {
            lines.push("No files match the current query.".to_owned());
            assert(views(lines@) =~= quick_open_lines(
                query@,
                path_labels(matches@),
                selected_index as int,
            ));
            return lines;
        }
        let ghost head = views(lines@);
        let mut i: usize = 0;
        while i < matches.len()
            invariant
                i <= matches.len(),
                views(lines@) == head + Seq::new(
                    i as nat,
                    |j: int|
                        marked(j == selected_index, ">"@, " "@, " "@ + path_labels(matches@)[j]),
                ),
            decreases matches.len() - i,
        {
            let mut rest = chars_of(" ");
            push_str(&mut rest, matches[i].0.as_str());
            let line = marked_line(i == selected_index, ">", " ", &rest);
            proof {
                lemma_views_push(lines@, line);
            }
            lines.push(line);
            i += 1;
            assert(views(lines@) =~= head + Seq::new(
                i as nat,
                |j: int| marked(j == selected_index, ">"@, " "@, " "@ + path_labels(matches@)[j]),
            ));
        }
        assert(views(lines@) =~= quick_open_lines(
            query@,
            path_labels(matches@),
            selected_index as int,
        ));
        lines
    }

    /// The quick-open overlay (see [`quick_open_snapshot`]).
    pub fn quick_open_overlay_snapshot(
        query: &str,
        matches: &[(String, std::path::PathBuf)],
        selected_index: usize,
    ) -> (r: ShellOverlay)
        ensures
            (r.title@, views(r.lines@)) == quick_open_snapshot(query@, path_labels(matches@), selected_index as int),
    {
        ShellOverlay {
            title: Self::quick_open_title().to_owned(),
            lines: Self::quick_open_overlay_lines(query, matches, selected_index),
        }
    }

    /// The lines of the slash command deck: how to use it, the query, then the matching
    /// commands with the selected one marked, or a note that nothing matches.
    pub fn slash_command_overlay_lines(
        query: &str,
        matches: &[CommandDeckEntry],
        selected_index: usize,
    ) -> (r: Vec<String>)
        ensures
            views(r@) == slash_command_lines(query@, matches@, selected_index as int),
    {
        let mut lines: Vec<String> = Vec::new();
        lines.push("Type to filter. Enter inserts the command. Esc closes the deck.".to_owned());
        lines.push(prefixed("Query: /", query));
        if matches.len() == 0 {
            lines.push("No slash commands match the current query.".to_owned());
            assert(views(lines@) =~= slash_command_lines(query@, matches@, selected_index as int));
            return lines;
        }
        let ghost head = views(lines@);
        let mut i: usize = 0;
        while i < matches.len()
            invariant
                i <= matches.len(),
                views(lines@) == head + Seq::new(
                    i as nat,
                    |j: int| marked(j == selected_index, "▸"@, " "@, command_line(matches@[j])),
                ),
            decreases matches.len() - i,
        {
            let e = &matches[i];
            let mut rest = chars_of(" ");
            push_str(&mut rest, e.label.as_str());
            push_str(&mut rest, "  ");
            push_str(&mut rest, e.safety_mode.as_str());
            push_str(&mut rest, "  ·  ");
            push_str(&mut rest, e.target_scope.as_str());
            push_str(&mut rest, "  ·  ");
            push_str(&mut rest, e.expected_outcome.as_str());
            let line = marked_line(i == selected_index, "▸", " ", &rest);
            proof {
                lemma_views_push(lines@, line);
            }
            lines.push(line);
            i += 1;
            assert(views(lines@) =~= head + Seq::new(
                i as nat,
                |j: int| marked(j == selected_index, "▸"@, " "@, command_line(matches@[j])),
            ));
        }
        assert(views(lines@) =~= slash_command_lines(query@, matches@, selected_index as int));
        lines
    }

    /// The slash command deck overlay.
    pub fn slash_command_overlay_snapshot(
        query: &str,
        matches: &[CommandDeckEntry],
        selected_index: usize,
    ) -> (r: ShellOverlay)
        ensures
            r.title@ == "Slash Commands"@,
            views(r.lines@) == slash_command_lines(query@, matches@, selected_index as int),
    {
        ShellOverlay {
            title: Self::slash_command_title().to_owned(),
            lines: Self::slash_command_overlay_lines(query, matches, selected_index),
        }
    }

    /// The lines of the control deck: how to use it, the query, then the matching
    /// actions with the selected one marked, or a note that nothing matches.
    pub fn action_deck_overlay_lines(
        query: &str,
        matches: &[ActionDeckEntry],
        selected_index: usize,
    ) -> (r: Vec<String>)
        ensures
            views(r@) == action_deck_lines(query@, matches@, selected_index as int),
    {
        let mut lines: Vec<String> = Vec::new();
        lines.push("Type to filter. Enter executes the action. Esc closes the deck.".to_owned());
        lines.push(prefixed("Query: ", query));
        if matches.len() == 0 {
            lines.push("No control deck actions match the current query.".to_owned());
            assert(views(lines@) =~= action_deck_lines(query@, matches@, selected_index as int));
            return lines;
        }
        let ghost head = views(lines@);
        let mut i: usize = 0;
        while i < matches.len()
            invariant
                i <= matches.len(),
                views(lines@) == head + Seq::new(
                    i as nat,
                    |j: int|
                        marked(
                            j == selected_index,
                            "▸"@,
                            " "@,
                            " "@ + matches@[j].label@ + "  "@ + matches@[j].detail@,
                        ),
                ),
            decreases matches.len() - i,
        {
            let e = matches[i];
            let mut rest = chars_of(" ");
            push_str(&mut rest, e.label);
            push_str(&mut rest, "  ");
            push_str(&mut rest, e.detail);
            let line = marked_line(i == selected_index, "▸", " ", &rest);
            proof {
                lemma_views_push(lines@, line);
            }
            lines.push(line);
            i += 1;
            assert(views(lines@) =~= head + Seq::new(
                i as nat,
                |j: int|
                    marked(
                        j == selected_index,
                        "▸"@,
                        " "@,
                        " "@ + matches@[j].label@ + "  "@ + matches@[j].detail@,
                    ),
            ));
        }
        assert(views(lines@) =~= action_deck_lines(query@, matches@, selected_index as int));
        lines
    }

    /// The control deck overlay.
    pub fn action_deck_overlay_snapshot(
        query: &str,
        matches: &[ActionDeckEntry],
        selected_index: usize,
    ) -> (r: ShellOverlay)
        ensures
            r.title@ == "Control Deck"@,
            views(r.lines@) == action_deck_lines(query@, matches@, selected_index as int),
    {
        ShellOverlay {
            title: Self::action_deck_title().to_owned(),
            lines: Self::action_deck_overlay_lines(query, matches, selected_index),
        }
    }

    /// The lines of the new-thread overlay: how to use it, the query, then the candidate
    /// folders with the selected one marked.
    pub fn new_thread_overlay_lines(
        query: &str,
        matches: &[(String, std::path::PathBuf)],
        selected_index: usize,
    ) -> (r: Vec<String>)
        ensures
            views(r@) == new_thread_lines(query@, path_labels(matches@), selected_index as int),
    {
        let mut lines: Vec<String> = Vec::new();
        lines.push(
            "Type folder name and use ↑/↓ to select. Enter to open. Esc to cancel.".to_owned(),
        );
        lines.push(prefixed("Query: ", query));
        let ghost head = views(lines@);
        let mut i: usize = 0;
        while i < matches.len()
            invariant
                i <= matches.len(),
                views(lines@) == head + Seq::new(
                    i as nat,
                    |j: int| marked(j == selected_index, "▸ "@, "  "@, path_labels(matches@)[j]),
                ),
            decreases matches.len() - i,
        {
            let rest = chars_of_string(&matches[i].0);
            let line = marked_line(i == selected_index, "▸ ", "  ", &rest);
            proof {
                lemma_views_push(lines@, line);
            }
            lines.push(line);
            i += 1;
            assert(views(lines@) =~= head + Seq::new(
                i as nat,
                |j: int| marked(j == selected_index, "▸ "@, "  "@, path_labels(matches@)[j]),
            ));
        }
        assert(views(lines@) =~= new_thread_lines(
            query@,
            path_labels(matches@),
            selected_index as int,
        ));
        lines
    }

    /// The new-thread overlay.
    pub fn new_thread_overlay_snapshot(
        query: &str,
        matches: &[(String, std::path::PathBuf)],
        selected_index: usize,
    ) -> (r: ShellOverlay)
        ensures
            r.title@ == "New Thread"@,
            views(r.lines@) == new_thread_lines(query@, path_labels(matches@), selected_index as int),
    {
        ShellOverlay {
            title: Self::new_thread_title().to_owned(),
            lines: Self::new_thread_overlay_lines(query, matches, selected_index),
        }
    }
}


/// The title and lines of the quick-open overlay: titled "Quick Open", with the lines of
/// [`quick_open_lines`].
pub open spec fn quick_open_snapshot(query: Seq<char>, labels: Seq<Seq<char>>, selected: int) -> (
    Seq<char>,
    Seq<Seq<char>>,
) {
    ("Quick Open"@, quick_open_lines(query, labels, selected))
}

/// The quick-open overlay is titled "Quick Open" and shows exactly the quick-open lines
/// for the same query, matches and selection.
pub proof fn lemma_quick_open_snapshot_shows_its_lines(query: Seq<char>, labels: Seq<Seq<char>>, selected: int)
    ensures
        quick_open_snapshot(query, labels, selected).0 == "Quick Open"@,
        quick_open_snapshot(query, labels, selected).1 == quick_open_lines(query, labels, selected),
{
}

} // verus!
