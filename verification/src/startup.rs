//! The start-up checks: which model runtime is probed, when start-up may end, and the
//! probe list, subtitle and footer the start-up screen shows.
use vstd::prelude::*;
use crate::text::{chars_of, decimal, decimal_exec, push_chars, push_str, string_of};

verus! {

/// Where the chat model runs.
#[derive(Debug, Clone, Copy, PartialEq, Eq, Structural)]
pub enum InteractiveProviderKind {
    Local,
    Ollama,
    OpenAiCompatible,
    Nvidia,
    Codex,
}

/// The state of the local model runtime.
#[derive(Debug, Clone, Copy, PartialEq, Eq, Structural)]
pub enum LocalRuntimeStatus {
    Running,
    Starting,
    WaitingForBroker,
    Ready,
    Stopping,
    NotDownloaded,
    Downloading,
    Packing,
    Failed,
}

/// The outcome of a start-up check.
#[derive(Debug, Clone, Copy, PartialEq, Eq, Structural)]
pub enum BootstrapStatus {
    Passed,
    Pending,
    Warn,
    Failed,
}

/// The probe of a remote model runtime: still running, ready or failed, with its detail.
#[derive(Debug, Clone)]
pub enum RemoteRuntimeProbe {
    Pending(String),
    Ready(String),
    Failed(String),
}

impl RemoteRuntimeProbe {
    /// The check's outcome.
    pub fn status(&self) -> (r: BootstrapStatus)
        ensures
            r == probe_status(*self),
    {
        match self {
            RemoteRuntimeProbe::Pending(_) => BootstrapStatus::Pending,
            RemoteRuntimeProbe::Ready(_) => BootstrapStatus::Passed,
            RemoteRuntimeProbe::Failed(_) => BootstrapStatus::Failed,
        }
    }

    /// The probe's detail.
    pub fn detail(&self) -> (r: &str)
        ensures
            r@ == probe_detail(*self),
    {
        match self {
            RemoteRuntimeProbe::Pending(d) => d.as_str(),
            RemoteRuntimeProbe::Ready(d) => d.as_str(),
            RemoteRuntimeProbe::Failed(d) => d.as_str(),
        }
    }
}

/// A remote probe's outcome.
pub open spec fn probe_status(p: RemoteRuntimeProbe) -> BootstrapStatus {
    match p {
        RemoteRuntimeProbe::Pending(_) => BootstrapStatus::Pending,
        RemoteRuntimeProbe::Ready(_) => BootstrapStatus::Passed,
        RemoteRuntimeProbe::Failed(_) => BootstrapStatus::Failed,
    }
}

/// A remote probe's detail.
pub open spec fn probe_detail(p: RemoteRuntimeProbe) -> Seq<char> {
    match p {
        RemoteRuntimeProbe::Pending(d) => d@,
        RemoteRuntimeProbe::Ready(d) => d@,
        RemoteRuntimeProbe::Failed(d) => d@,
    }
}

/// The name the start-up screen gives the runtime of a provider.
pub open spec fn runtime_probe_label(provider: InteractiveProviderKind) -> Seq<char> {
    match provider {
        InteractiveProviderKind::Local => "SSD-MOE"@,
        InteractiveProviderKind::Ollama => "Ollama"@,
        InteractiveProviderKind::OpenAiCompatible => "OpenAI-compatible"@,
        InteractiveProviderKind::Nvidia => "NVIDIA NIM"@,
        InteractiveProviderKind::Codex => "Codex"@,
    }
}

/// The name the start-up screen gives the runtime of a provider.
pub fn bootstrap_runtime_probe_label(provider: InteractiveProviderKind) -> (r: &'static str)
    ensures
        r@ == runtime_probe_label(provider),
{
    match provider {
        InteractiveProviderKind::Local => "SSD-MOE",
        InteractiveProviderKind::Ollama => "Ollama",
        InteractiveProviderKind::OpenAiCompatible => "OpenAI-compatible",
        InteractiveProviderKind::Nvidia => "NVIDIA NIM",
        InteractiveProviderKind::Codex => "Codex",
    }
}

/// The start-up screen's subtitle: what is being checked for a provider.
pub open spec fn subtitle_for(provider: InteractiveProviderKind) -> Seq<char> {
    match provider {
        InteractiveProviderKind::Local => "Verifying the terminal, workspace, local model runtime, and session state."@,
        InteractiveProviderKind::Ollama => "Verifying the terminal, workspace, Ollama endpoint, model availability, and session state."@,
        InteractiveProviderKind::OpenAiCompatible => "Verifying the terminal, workspace, HTTPS endpoint configuration, and session state."@,
        InteractiveProviderKind::Nvidia => "Verifying the terminal, workspace, NVIDIA NIM endpoint configuration, and session state."@,
        InteractiveProviderKind::Codex => "Verifying the terminal, workspace, executor session, and session state."@,
    }
}

/// The start-up screen's subtitle.
pub fn bootstrap_subtitle(provider: InteractiveProviderKind) -> (r: String)
    ensures
        r@ == subtitle_for(provider),
{
    match provider {
        InteractiveProviderKind::Local => "Verifying the terminal, workspace, local model runtime, and session state.".to_owned(),
        InteractiveProviderKind::Ollama => "Verifying the terminal, workspace, Ollama endpoint, model availability, and session state.".to_owned(),
        InteractiveProviderKind::OpenAiCompatible => "Verifying the terminal, workspace, HTTPS endpoint configuration, and session state.".to_owned(),
        InteractiveProviderKind::Nvidia => "Verifying the terminal, workspace, NVIDIA NIM endpoint configuration, and session state.".to_owned(),
        InteractiveProviderKind::Codex => "Verifying the terminal, workspace, executor session, and session state.".to_owned(),
    }
}

/// Whether the checks that must pass before the shell opens have passed: the terminal
/// and the workspace, and the provider's runtime (a running local runtime, or a remote
/// probe that found the endpoint ready; Codex needs none).
pub open spec fn hard_gates_ready(
    terminal_probe_ok: bool,
    workspace_probe_ok: bool,
    provider: InteractiveProviderKind,
    local_status: LocalRuntimeStatus,
    remote_probe: Option<RemoteRuntimeProbe>,
) -> bool {
    terminal_probe_ok && workspace_probe_ok && match provider {
        InteractiveProviderKind::Local => local_status == LocalRuntimeStatus::Running,
        InteractiveProviderKind::Codex => true,
        _ => remote_probe matches Some(RemoteRuntimeProbe::Ready(_)),
    }
}

/// Whether the checks that must pass before the shell opens have passed.
pub fn bootstrap_hard_gates_ready(
    terminal_probe_ok: bool,
    workspace_probe_ok: bool,
    provider: InteractiveProviderKind,
    local_status: LocalRuntimeStatus,
    remote_probe: &Option<RemoteRuntimeProbe>,
) -> (r: bool)
    ensures
        r == hard_gates_ready(terminal_probe_ok, workspace_probe_ok, provider, local_status, *remote_probe),
{
    if !(terminal_probe_ok && workspace_probe_ok) {
        return false;
    }
    match provider {
        InteractiveProviderKind::Local => local_status == LocalRuntimeStatus::Running,
        InteractiveProviderKind::Codex => true,
        _ => match remote_probe {
            Some(RemoteRuntimeProbe::Ready(_)) => true,
            _ => false,
        },
    }
}

/// The outcome of the runtime check: a remote provider's probe where there is one, else
/// the local runtime's state (running is ready, failed is failed, anything else pending).
pub open spec fn runtime_status(
    provider: InteractiveProviderKind,
    local_status: LocalRuntimeStatus,
    remote_probe: Option<RemoteRuntimeProbe>,
) -> BootstrapStatus {
    match remote_probe {
        Some(p) if provider != InteractiveProviderKind::Local => probe_status(p),
        _ => if local_status == LocalRuntimeStatus::Running {
            BootstrapStatus::Passed
        } else if local_status == LocalRuntimeStatus::Failed {
            BootstrapStatus::Failed
        } else {
            BootstrapStatus::Pending
        },
    }
}

/// The outcome of the runtime check.
pub fn bootstrap_status_from_runtime(
    provider: InteractiveProviderKind,
    local_status: LocalRuntimeStatus,
    remote_probe: &Option<RemoteRuntimeProbe>,
) -> (r: BootstrapStatus)
    ensures
        r == runtime_status(provider, local_status, *remote_probe),
{
    match remote_probe {
        Some(p) => {
            if provider != InteractiveProviderKind::Local {
                return p.status();
            }
        },
        None => {},
    }
    match local_status {
        LocalRuntimeStatus::Running => BootstrapStatus::Passed,
        LocalRuntimeStatus::Failed => BootstrapStatus::Failed,
        _ => BootstrapStatus::Pending,
    }
}

/// The footer of the start-up screen: why start-up is blocked when the local runtime
/// failed or the probe of an Ollama or OpenAI-compatible endpoint failed (with the
/// runtime's detail), else the hint about what comes once start-up ends.
pub open spec fn failure_footer(
    provider: InteractiveProviderKind,
    local_status: LocalRuntimeStatus,
    remote_probe: Option<RemoteRuntimeProbe>,
    runtime_detail: Seq<char>,
) -> Seq<char> {
    if provider == InteractiveProviderKind::Local && local_status == LocalRuntimeStatus::Failed {
        "Startup blocked: fix the SSD-MOE runtime issue and restart Quorp."@
    } else if (provider == InteractiveProviderKind::Ollama || provider
        == InteractiveProviderKind::OpenAiCompatible) && remote_probe matches Some(
        RemoteRuntimeProbe::Failed(_),
    ) {
        "Startup blocked: "@ + runtime_detail + "."@
    } else {
        "Right rail booting now. / opens workflows once ready. Ctrl+k opens the control deck."@
    }
}

/// The footer of the start-up screen.
pub fn bootstrap_failure_footer(
    provider: InteractiveProviderKind,
    local_status: LocalRuntimeStatus,
    remote_probe: &Option<RemoteRuntimeProbe>,
    runtime_detail: &str,
) -> (r: String)
    ensures
        r@ == failure_footer(provider, local_status, *remote_probe, runtime_detail@),
{
    let remote_failed = match remote_probe {
        Some(RemoteRuntimeProbe::Failed(_)) => true,
        _ => false,
    };
    if provider == InteractiveProviderKind::Local && local_status == LocalRuntimeStatus::Failed {
        "Startup blocked: fix the SSD-MOE runtime issue and restart Quorp.".to_owned()
    } else if (provider == InteractiveProviderKind::Ollama || provider
        == InteractiveProviderKind::OpenAiCompatible) && remote_failed {
        let mut out = chars_of("Startup blocked: ");
        push_str(&mut out, runtime_detail);
        push_str(&mut out, ".");
        string_of(out.as_slice())
    } else {
        "Right rail booting now. / opens workflows once ready. Ctrl+k opens the control deck.".to_owned()
    }
}

/// One start-up check as the screen lists it.
#[derive(Debug, Clone)]
pub struct BootstrapProbe {
    pub label: String,
    pub status: BootstrapStatus,
    pub detail: String,
}

/// The label, outcome and detail of each check.
pub open spec fn probe_views(v: Seq<BootstrapProbe>) -> Seq<(Seq<char>, BootstrapStatus, Seq<char>)> {
    v.map_values(|p: BootstrapProbe| (p.label@, p.status, p.detail@))
}

/// What the start-up checks found: the provider, the terminal and workspace checks, the
/// model chosen, the runtime check, the shared-broker check of a local runtime, the PTY
/// check, the path index's progress and the session restore.
#[derive(Debug)]
pub struct BootstrapChecks {
    pub provider: InteractiveProviderKind,
    pub terminal_probe_ok: bool,
    pub workspace_probe_ok: bool,
    pub workspace_root: String,
    pub model_id: String,
    pub runtime_status: BootstrapStatus,
    pub runtime_detail: String,
    pub broker: Option<BootstrapProbe>,
    pub pty_probe: Result<String, String>,
    pub frame_index: usize,
    pub path_index_ready: bool,
    pub path_index_files_seen: usize,
    pub session_restore: Result<String, String>,
}

/// The text a check's result carries, whether it passed or not.
pub open spec fn outcome_text(r: Result<String, String>) -> Seq<char> {
    match r {
        Ok(s) => s@,
        Err(s) => s@,
    }
}

/// The checks the start-up screen lists, in order: terminal, workspace, model selection,
/// the shared broker (for a local runtime), the runtime, PTY, path index and session
/// restore. The PTY check is pending for the first four frames before it warns.
pub open spec fn probes_for(c: BootstrapChecks) -> Seq<(Seq<char>, BootstrapStatus, Seq<char>)> {
    let head = seq![
        (
            "Terminal"@,
            if c.terminal_probe_ok { BootstrapStatus::Passed } else { BootstrapStatus::Failed },
            "alternate screen ready"@,
        ),
        (
            "Workspace"@,
            if c.workspace_probe_ok { BootstrapStatus::Passed } else { BootstrapStatus::Failed },
            c.workspace_root@,
        ),
        (
            "Model selection"@,
            if c.model_id@.len() == 0 { BootstrapStatus::Warn } else { BootstrapStatus::Passed },
            if c.model_id@.len() == 0 { "using fallback local model"@ } else { c.model_id@ },
        ),
    ];
    let broker = match c.broker {
        Some(b) => if c.provider == InteractiveProviderKind::Local {
            seq![(b.label@, b.status, b.detail@)]
        } else {
            seq![]
        },
        None => seq![],
    };
    let tail = seq![
        (runtime_probe_label(c.provider), c.runtime_status, c.runtime_detail@),
        (
            "PTY"@,
            if c.pty_probe is Ok {
                BootstrapStatus::Passed
            } else if c.frame_index < 4 {
                BootstrapStatus::Pending
            } else {
                BootstrapStatus::Warn
            },
            outcome_text(c.pty_probe),
        ),
        (
            "Path index"@,
            if c.path_index_ready { BootstrapStatus::Passed } else { BootstrapStatus::Pending },
            if c.path_index_ready {
                decimal(c.path_index_files_seen as nat) + " files indexed"@
            } else {
                "warming "@ + decimal(c.path_index_files_seen as nat) + " files"@
            },
        ),
        (
            "Session restore"@,
            if c.session_restore is Ok { BootstrapStatus::Passed } else { BootstrapStatus::Warn },
            outcome_text(c.session_restore),
        ),
    ];
    head + broker + tail
}

/// A copy of a text.
fn copy_text(s: &String) -> (r: String)
    ensures
        r@ == s@,
{
    string_of(chars_of(s.as_str()).as_slice())
}

/// Appends a check.
fn push_probe(out: &mut Vec<BootstrapProbe>, label: String, status: BootstrapStatus, detail: String)
    ensures
        probe_views(final(out)@) == probe_views(old(out)@).push((label@, status, detail@)),
{
    let ghost before = out@;
    out.push(BootstrapProbe { label, status, detail });
    assert(probe_views(out@) =~= probe_views(before).push((label@, status, detail@)));
}

/// The text a check's result carries.
fn outcome_text_exec(r: &Result<String, String>) -> (t: String)
    ensures
        t@ == outcome_text(*r),
{
    match r {
        Ok(s) => copy_text(s),
        Err(s) => copy_text(s),
    }
}

/// The checks the start-up screen lists.
pub fn bootstrap_probes(c: &BootstrapChecks) -> (r: Vec<BootstrapProbe>)
    ensures
        probe_views(r@) == probes_for(*c),
{
    let mut out: Vec<BootstrapProbe> = Vec::new();
    push_probe(
        &mut out,
        "Terminal".to_owned(),
        if c.terminal_probe_ok { BootstrapStatus::Passed } else { BootstrapStatus::Failed },
        "alternate screen ready".to_owned(),
    );
    push_probe(
        &mut out,
        "Workspace".to_owned(),
        if c.workspace_probe_ok { BootstrapStatus::Passed } else { BootstrapStatus::Failed },
        copy_text(&c.workspace_root),
    );
    let no_model = chars_of(c.model_id.as_str()).len() == 0;
    push_probe(
        &mut out,
        "Model selection".to_owned(),
        if no_model { BootstrapStatus::Warn } else { BootstrapStatus::Passed },
        if no_model { "using fallback local model".to_owned() } else { copy_text(&c.model_id) },
    );
    let ghost head = probe_views(out@);
    match &c.broker {
        Some(b) => {
            if c.provider == InteractiveProviderKind::Local {
                push_probe(&mut out, copy_text(&b.label), b.status, copy_text(&b.detail));
            }
        },
        None => {},
    }
    let ghost with_broker = probe_views(out@);
    push_probe(
        &mut out,
        bootstrap_runtime_probe_label(c.provider).to_owned(),
        c.runtime_status,
        copy_text(&c.runtime_detail),
    );
    let pty_ok = match &c.pty_probe {
        Ok(_) => true,
        Err(_) => false,
    };
    push_probe(
        &mut out,
        "PTY".to_owned(),
        if pty_ok {
            BootstrapStatus::Passed
        } else if c.frame_index < 4 {
            BootstrapStatus::Pending
        } else {
            BootstrapStatus::Warn
        },
        outcome_text_exec(&c.pty_probe),
    );
    let files = decimal_exec(c.path_index_files_seen);
    let index_detail = if c.path_index_ready {
        let mut d = files;
        push_str(&mut d, " files indexed");
        string_of(d.as_slice())
    } else {
        let mut d = chars_of("warming ");
        push_chars(&mut d, &files);
        push_str(&mut d, " files");
        string_of(d.as_slice())
    };
    push_probe(
        &mut out,
        "Path index".to_owned(),
        if c.path_index_ready { BootstrapStatus::Passed } else { BootstrapStatus::Pending },
        index_detail,
    );
    let restored = match &c.session_restore {
        Ok(_) => true,
        Err(_) => false,
    };
    push_probe(
        &mut out,
        "Session restore".to_owned(),
        if restored { BootstrapStatus::Passed } else { BootstrapStatus::Warn },
        outcome_text_exec(&c.session_restore),
    );
    assert(probe_views(out@) =~= probes_for(*c));
    out
}

/// What the start-up screen shows besides the loader art: its subtitle, the checks, the
/// footer, and the phase the loader's badge names.
#[derive(Debug, Clone)]
pub struct BootstrapViewPlan {
    pub subtitle: String,
    pub probes: Vec<BootstrapProbe>,
    pub footer: String,
    pub loader_phase_label: String,
}

/// What the start-up screen shows: `local_phase_label` is the phase of a local runtime's
/// start-up, which names the loader's phase for a local provider; for the others the
/// runtime's name does.
pub fn bootstrap_view_plan(
    checks: &BootstrapChecks,
    local_status: LocalRuntimeStatus,
    remote_probe: &Option<RemoteRuntimeProbe>,
    local_phase_label: &str,
) -> (r: BootstrapViewPlan)
    ensures
        r.subtitle@ == subtitle_for(checks.provider),
        probe_views(r.probes@) == probes_for(*checks),
        r.footer@ == failure_footer(
            checks.provider,
            local_status,
            *remote_probe,
            checks.runtime_detail@,
        ),
        r.loader_phase_label@ == (if checks.provider == InteractiveProviderKind::Local {
            local_phase_label@
        } else {
            runtime_probe_label(checks.provider)
        }),
{
    let phase = if checks.provider == InteractiveProviderKind::Local {
        string_of(chars_of(local_phase_label).as_slice())
    } else {
        bootstrap_runtime_probe_label(checks.provider).to_owned()
    };
    BootstrapViewPlan {
        subtitle: bootstrap_subtitle(checks.provider),
        probes: bootstrap_probes(checks),
        footer: bootstrap_failure_footer(
            checks.provider,
            local_status,
            remote_probe,
            checks.runtime_detail.as_str(),
        ),
        loader_phase_label: phase,
    }
}

/// The shortest time the start-up screen is shown, in milliseconds.
pub const BOOTSTRAP_MIN_DURATION_MS: u64 = 1800;

/// What the interface shows: the start-up screen or the main shell.
#[derive(Debug, Clone, Copy, PartialEq, Eq, Structural)]
pub enum ShellScene {
    Bootstrap,
    Ready,
}

/// Whether the start-up screen has been shown long enough; `shown_ms` is how long it has
/// been visible since its first frame, `None` before that frame.
pub open spec fn min_duration_met(shown_ms: Option<u64>) -> bool {
    match shown_ms {
        Some(ms) => ms >= BOOTSTRAP_MIN_DURATION_MS,
        None => false,
    }
}

/// Whether start-up has completed, and the scene shown: once completed, the main shell
/// for good; else the main shell as soon as the hard gates are ready and the screen has
/// been shown long enough, which completes start-up.
pub open spec fn scene_after(completed: bool, hard_gates_ready: bool, shown_ms: Option<u64>) -> (
    bool,
    ShellScene,
) {
    if completed || (hard_gates_ready && min_duration_met(shown_ms)) {
        (true, ShellScene::Ready)
    } else {
        (false, ShellScene::Bootstrap)
    }
}

/// Whether start-up has completed.
#[derive(Debug, Clone, Copy, PartialEq, Eq, Structural)]
pub struct BootstrapProgress {
    pub completed: bool,
}

impl BootstrapProgress {
    /// The scene to show now (see [`scene_after`]).
    pub fn shell_scene(&mut self, hard_gates_ready: bool, shown_ms: Option<u64>) -> (r: ShellScene)
        ensures
            (final(self).completed, r) == scene_after(old(self).completed, hard_gates_ready, shown_ms),
    {
        if self.completed {
            return ShellScene::Ready;
        }
        let met = match shown_ms {
            Some(ms) => ms >= BOOTSTRAP_MIN_DURATION_MS,
            None => false,
        };
        if hard_gates_ready && met {
            self.completed = true;
            ShellScene::Ready
        } else {
            ShellScene::Bootstrap
        }
    }
}

/// Once the main shell is shown it stays, whatever the runtime and the clock do after;
/// and start-up never ends before the screen has been shown its minimum time.
pub proof fn lemma_ready_stays_ready(
    completed: bool,
    gates1: bool,
    shown1: Option<u64>,
    gates2: bool,
    shown2: Option<u64>,
)
    ensures
        scene_after(completed, gates1, shown1).1 == ShellScene::Ready ==> scene_after(
            scene_after(completed, gates1, shown1).0,
            gates2,
            shown2,
        ).1 == ShellScene::Ready,
        !completed && !min_duration_met(shown1) ==> scene_after(completed, gates1, shown1).1
            == ShellScene::Bootstrap,
{
}

/// Whether the runtime was lost after start-up: a local runtime, start-up completed, and
/// the runtime no longer running.
pub open spec fn degraded(
    provider: InteractiveProviderKind,
    completed: bool,
    local_status: LocalRuntimeStatus,
) -> bool {
    provider == InteractiveProviderKind::Local && completed && local_status
        != LocalRuntimeStatus::Running
}

/// Whether the runtime was lost after start-up.
pub fn runtime_degraded(
    provider: InteractiveProviderKind,
    completed: bool,
    local_status: LocalRuntimeStatus,
) -> (r: bool)
    ensures
        r == degraded(provider, completed, local_status),
{
    provider == InteractiveProviderKind::Local && completed && local_status
        != LocalRuntimeStatus::Running
}

/// What the broker retained of the last local runtime.
#[derive(Debug, Clone)]
pub struct RuntimeMetadata {
    pub instance_id: String,
    pub base_url: String,
    pub lease_count: usize,
    pub stale: bool,
}

/// The line describing the last runtime, or that none was retained.
pub open spec fn metadata_line(metadata: Option<RuntimeMetadata>) -> Seq<char> {
    match metadata {
        Some(m) => "Last runtime "@ + m.instance_id@ + " at "@ + m.base_url@ + " · leases="@
            + decimal(m.lease_count as nat) + " · stale="@ + (if m.stale {
            "true"@
        } else {
            "false"@
        }),
        None => "No broker runtime metadata retained"@,
    }
}

/// The reason the runtime was lost, or the general one.
pub open spec fn degrade_reason(reason: Option<String>) -> Seq<char> {
    match reason {
        Some(r) => r@,
        None => "runtime became unavailable after initial startup"@,
    }
}

/// The feed item telling that the runtime was lost after start-up: its title and its
/// two lines, the reason and the last runtime.
pub fn runtime_degraded_feed_item(reason: Option<String>, metadata: Option<RuntimeMetadata>) -> (r: (
    String,
    Vec<String>,
))
    ensures
        r.0@ == "Runtime degraded"@,
        r.1@.len() == 2,
        r.1@[0]@ == degrade_reason(reason),
        r.1@[1]@ == metadata_line(metadata),
{
    let first = match reason {
        Some(r) => r,
        None => "runtime became unavailable after initial startup".to_owned(),
    };
    let second = match metadata {
        Some(m) => {
            let mut out = chars_of("Last runtime ");
            push_str(&mut out, m.instance_id.as_str());
            push_str(&mut out, " at ");
            push_str(&mut out, m.base_url.as_str());
            push_str(&mut out, " · leases=");
            let n = decimal_exec(m.lease_count);
            push_chars(&mut out, &n);
            push_str(&mut out, " · stale=");
            push_str(&mut out, if m.stale {
                "true"
            } else {
                "false"
            });
            string_of(out.as_slice())
        },
        None => "No broker runtime metadata retained".to_owned(),
    };
    let mut lines: Vec<String> = Vec::new();
    lines.push(first);
    lines.push(second);
    ("Runtime degraded".to_owned(), lines)
}

/// The hint of the status bar: that the runtime was lost while it is, else the control
/// hint.
pub fn shell_status_hint(degraded: bool, control_hint: &str) -> (r: String)
    ensures
        r@ == (if degraded {
            "Runtime lost after startup. Quorp is staying in the main shell while recovery runs."@
        } else {
            control_hint@
        }),
{
    if degraded {
        "Runtime lost after startup. Quorp is staying in the main shell while recovery runs.".to_owned()
    } else {
        control_hint.to_owned()
    }
}

/// The detail of the runtime check. `remote_detail` is the remote probe's detail and
/// `probe_state_detail` the local runtime's probe detail, each already fitted to the
/// column the screen gives it. A remote provider's probe gives its detail; else the
/// local runtime's state does: where it runs, the lease it holds (or that it runs on the
/// local loopback), and a phrase for starting, selected, stopping and not downloaded; a
/// failed, downloading, packing or waiting runtime shows its probe detail.
pub open spec fn runtime_detail(
    provider: InteractiveProviderKind,
    remote_detail: Option<Seq<char>>,
    local_status: LocalRuntimeStatus,
    lease: Option<RuntimeMetadata>,
    probe_state_detail: Seq<char>,
) -> Seq<char> {
    if remote_detail is Some && provider != InteractiveProviderKind::Local {
        remote_detail->0
    } else {
        match local_status {
            LocalRuntimeStatus::Running => match lease {
                Some(m) => m.base_url@ + " · instance "@ + m.instance_id@ + " · "@ + decimal(
                    m.lease_count as nat,
                ) + " lease(s)"@,
                None => "local loopback runtime ready"@,
            },
            LocalRuntimeStatus::Starting => "attach-or-spawn in progress"@,
            LocalRuntimeStatus::Ready => "model selected; waiting for runtime health"@,
            LocalRuntimeStatus::Stopping => "runtime is stopping"@,
            LocalRuntimeStatus::NotDownloaded => "selected model is not downloaded"@,
            _ => probe_state_detail,
        }
    }
}

/// The detail of the runtime check (see [`runtime_detail`]).
pub fn bootstrap_runtime_detail(
    provider: InteractiveProviderKind,
    remote_detail: Option<&str>,
    local_status: LocalRuntimeStatus,
    lease: &Option<RuntimeMetadata>,
    probe_state_detail: &str,
) -> (r: String)
    ensures
        r@ == runtime_detail(
            provider,
            match remote_detail {
                Some(d) => Some(d@),
                None => None,
            },
            local_status,
            *lease,
            probe_state_detail@,
        ),
{
    match remote_detail {
        Some(d) => {
            if provider != InteractiveProviderKind::Local {
                return d.to_owned();
            }
        },
        None => {},
    }
    match local_status {
        LocalRuntimeStatus::Running => match lease {
            Some(m) => {
                let mut out = chars_of(m.base_url.as_str());
                push_str(&mut out, " · instance ");
                push_str(&mut out, m.instance_id.as_str());
                push_str(&mut out, " · ");
                let n = decimal_exec(m.lease_count);
                push_chars(&mut out, &n);
                push_str(&mut out, " lease(s)");
                string_of(out.as_slice())
            },
            None => "local loopback runtime ready".to_owned(),
        },
        LocalRuntimeStatus::Starting => "attach-or-spawn in progress".to_owned(),
        LocalRuntimeStatus::Ready => "model selected; waiting for runtime health".to_owned(),
        LocalRuntimeStatus::Stopping => "runtime is stopping".to_owned(),
        LocalRuntimeStatus::NotDownloaded => "selected model is not downloaded".to_owned(),
        _ => probe_state_detail.to_owned(),
    }
}

} // verus!
