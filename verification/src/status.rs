//! The status line and the hints of the shell.
use vstd::prelude::*;
use crate::action_discovery::{hint_from, context_hint_table, ActionDiscoveryModel, RailMode};
use crate::panes::{pane_label, LeafId, Overlay};
use crate::text::{chars_of, decimal, decimal_exec, push_chars, push_str, string_of};

verus! {

/// What the shell is showing.
#[derive(Debug, Clone, Copy, PartialEq, Eq, Structural)]
pub enum ShellExperienceMode {
    Bootstrap,
    CommandCenter,
    DiffLens,
    VerifyRadar,
    TraceLens,
    Timeline,
    LegacyWorkbench,
}

/// The experience the shell shows: the legacy workbench when asked for, the start-up
/// screen while starting, else the view of the rail.
pub open spec fn experience_for(legacy: bool, bootstrapping: bool, rail: Option<RailMode>) -> ShellExperienceMode {
    if legacy {
        ShellExperienceMode::LegacyWorkbench
    } else if bootstrapping {
        ShellExperienceMode::Bootstrap
    } else {
        match rail {
            Some(RailMode::DiffReactor) => ShellExperienceMode::DiffLens,
            Some(RailMode::VerifyRadar) => ShellExperienceMode::VerifyRadar,
            Some(RailMode::TraceLens) => ShellExperienceMode::TraceLens,
            Some(RailMode::TimelineScrubber) => ShellExperienceMode::Timeline,
            _ => ShellExperienceMode::CommandCenter,
        }
    }
}

/// The experience the shell shows.
pub fn shell_experience_mode(legacy: bool, bootstrapping: bool, rail: Option<RailMode>) -> (r:
    ShellExperienceMode)
    ensures
        r == experience_for(legacy, bootstrapping, rail),
{
    if legacy {
        ShellExperienceMode::LegacyWorkbench
    } else if bootstrapping {
        ShellExperienceMode::Bootstrap
    } else {
        match rail {
            Some(RailMode::DiffReactor) => ShellExperienceMode::DiffLens,
            Some(RailMode::VerifyRadar) => ShellExperienceMode::VerifyRadar,
            Some(RailMode::TraceLens) => ShellExperienceMode::TraceLens,
            Some(RailMode::TimelineScrubber) => ShellExperienceMode::Timeline,
            _ => ShellExperienceMode::CommandCenter,
        }
    }
}

/// The keys of the current experience.
pub open spec fn mode_hint(mode: ShellExperienceMode, focused: LeafId, compact_ui: bool) -> Seq<char> {
    match mode {
        ShellExperienceMode::Bootstrap => "wait for runtime readiness"@,
        ShellExperienceMode::CommandCenter => "d diff  v verify  r trace  t timeline  m memory"@,
        ShellExperienceMode::DiffLens => "Esc clear lens  v verify  r trace"@,
        ShellExperienceMode::VerifyRadar => "d diff  r trace  t timeline"@,
        ShellExperienceMode::TraceLens => "d diff  v verify  t timeline"@,
        ShellExperienceMode::Timeline => ". jump live  [ / ] scrub replay"@,
        ShellExperienceMode::LegacyWorkbench => hint_from(context_hint_table(), 0, focused, compact_ui),
    }
}

/// The control hint of the shell: the workflow deck, the control deck, the engage
/// keys, and the keys of the current experience.
pub open spec fn control_hint(mode: ShellExperienceMode, focused: LeafId, compact_ui: bool) -> Seq<char> {
    "/ workflow deck  ·  Ctrl+k control deck  ·  Alt+↓ target  Alt+Enter open  D diff lens  ·  "@
        + mode_hint(mode, focused, compact_ui)
}

/// The control hint of the shell.
pub fn shell_control_hint(mode: ShellExperienceMode, focused: LeafId, compact_ui: bool) -> (r: String)
    ensures
        r@ == control_hint(mode, focused, compact_ui),
{
    let hint: &str = match mode {
        ShellExperienceMode::Bootstrap => "wait for runtime readiness",
        ShellExperienceMode::CommandCenter => "d diff  v verify  r trace  t timeline  m memory",
        ShellExperienceMode::DiffLens => "Esc clear lens  v verify  r trace",
        ShellExperienceMode::VerifyRadar => "d diff  r trace  t timeline",
        ShellExperienceMode::TraceLens => "d diff  v verify  t timeline",
        ShellExperienceMode::Timeline => ". jump live  [ / ] scrub replay",
        ShellExperienceMode::LegacyWorkbench => ActionDiscoveryModel::context_hint(focused, compact_ui),
    };
    let mut out = chars_of(
        "/ workflow deck  ·  Ctrl+k control deck  ·  Alt+↓ target  Alt+Enter open  D diff lens  ·  ",
    );
    push_str(&mut out, hint);
    string_of(out.as_slice())
}

/// The status line: the focused pane, the model, the path shown in the middle, and
/// how to open or close the help.
pub open spec fn status_line(focused: LeafId, model: Seq<char>, path: Seq<char>, overlay: Overlay) -> Seq<char> {
    "Mode: "@ + pane_label(focused) + " | Model: "@ + model + " | Path: "@ + path + " | "@ + (if overlay
        is Help {
        "Press ? or Esc to close help"@
    } else {
        "Press ? for help"@
    })
}

/// The status line.
pub fn status_bar_text(focused: LeafId, model: &str, path: &str, overlay: Overlay) -> (r: String)
    ensures
        r@ == status_line(focused, model@, path@, overlay),
{
    let mut out = chars_of("Mode: ");
    push_str(&mut out, crate::pane::display_label(focused));
    push_str(&mut out, " | Model: ");
    push_str(&mut out, model);
    push_str(&mut out, " | Path: ");
    push_str(&mut out, path);
    push_str(&mut out, " | ");
    push_str(&mut out, ActionDiscoveryModel::help_hint(overlay.is_help()));
    string_of(out.as_slice())
}

/// The spinner character of frame `frame`.
pub open spec fn spinner(frame: u64) -> char {
    let k = frame % 4;
    if k == 0 {
        '|'
    } else if k == 1 {
        '/'
    } else if k == 2 {
        '-'
    } else {
        '\\'
    }
}

/// The file count shown while indexing: thousands with a `k` from 10 000 on.
pub open spec fn file_count_text(n: nat) -> Seq<char> {
    if n >= 10000 {
        decimal(n / 1000) + "k"@
    } else {
        decimal(n)
    }
}

/// The suffix the status line shows while the path index scans: `Idx`, the spinner of
/// the frame, and the number of files seen so far.
pub fn indexing_status_suffix(scanning: bool, files_seen: usize, frame: u64) -> (r: Option<String>)
    ensures
        !scanning ==> r is None,
        scanning ==> (r matches Some(s) && s@ == "Idx"@ + seq![spinner(frame)] + " "@
            + file_count_text(files_seen as nat)),
{
    if !scanning {
        return None;
    }
    let k = frame % 4;
    let sp = if k == 0 {
        '|'
    } else if k == 1 {
        '/'
    } else if k == 2 {
        '-'
    } else {
        '\\'
    };
    let mut out = chars_of("Idx");
    out.push(sp);
    push_str(&mut out, " ");
    if files_seen >= 10000 {
        let d = decimal_exec(files_seen / 1000);
        push_chars(&mut out, &d);
        push_str(&mut out, "k");
    } else {
        let d = decimal_exec(files_seen);
        push_chars(&mut out, &d);
    }
    Some(string_of(out.as_slice()))
}

} // verus!
