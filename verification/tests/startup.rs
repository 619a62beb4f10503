use quorp_tui::bootstrap::{advance_bootstrap_tick, BOOTSTRAP_REVEAL_FRAMES};
use quorp_tui::startup::{
    bootstrap_failure_footer, bootstrap_hard_gates_ready, bootstrap_probes,
    bootstrap_runtime_detail, bootstrap_runtime_probe_label, bootstrap_status_from_runtime,
    bootstrap_subtitle, bootstrap_view_plan, runtime_degraded, runtime_degraded_feed_item,
    shell_status_hint, BootstrapChecks, BootstrapProbe, BootstrapProgress, BootstrapStatus,
    InteractiveProviderKind, LocalRuntimeStatus, RemoteRuntimeProbe, RuntimeMetadata, ShellScene,
    BOOTSTRAP_MIN_DURATION_MS,
};

fn checks(provider: InteractiveProviderKind) -> BootstrapChecks {
    BootstrapChecks {
        provider,
        terminal_probe_ok: true,
        workspace_probe_ok: true,
        workspace_root: "/work".to_string(),
        model_id: "ollama/qwen2.5-coder:32b".to_string(),
        runtime_status: BootstrapStatus::Pending,
        runtime_detail: "Ollama unreachable at http://127.0.0.1:11434".to_string(),
        broker: Some(BootstrapProbe {
            label: "Broker".to_string(),
            status: BootstrapStatus::Warn,
            detail: "install shared broker".to_string(),
        }),
        pty_probe: Err("pty unavailable".to_string()),
        frame_index: 2,
        path_index_ready: false,
        path_index_files_seen: 1200,
        session_restore: Ok("restored 2 threads".to_string()),
    }
}

#[test]
fn hard_gates_follow_the_provider() {
    let ready = Some(RemoteRuntimeProbe::Ready("endpoint ready".to_string()));
    let pending = Some(RemoteRuntimeProbe::Pending("probing".to_string()));
    assert!(bootstrap_hard_gates_ready(true, true, InteractiveProviderKind::Ollama, LocalRuntimeStatus::Failed, &ready));
    assert!(!bootstrap_hard_gates_ready(true, true, InteractiveProviderKind::Ollama, LocalRuntimeStatus::Running, &pending));
    assert!(bootstrap_hard_gates_ready(true, true, InteractiveProviderKind::Local, LocalRuntimeStatus::Running, &None));
    assert!(!bootstrap_hard_gates_ready(true, true, InteractiveProviderKind::Local, LocalRuntimeStatus::Ready, &ready));
    assert!(bootstrap_hard_gates_ready(true, true, InteractiveProviderKind::Codex, LocalRuntimeStatus::Stopping, &None));
    assert!(!bootstrap_hard_gates_ready(false, true, InteractiveProviderKind::Codex, LocalRuntimeStatus::Running, &None));
}

#[test]
fn runtime_status_prefers_the_remote_probe() {
    let failed = Some(RemoteRuntimeProbe::Failed("Ollama unreachable".to_string()));
    assert_eq!(
        bootstrap_status_from_runtime(InteractiveProviderKind::Ollama, LocalRuntimeStatus::Running, &failed),
        BootstrapStatus::Failed
    );
    assert_eq!(
        bootstrap_status_from_runtime(InteractiveProviderKind::Local, LocalRuntimeStatus::Running, &failed),
        BootstrapStatus::Passed
    );
    assert_eq!(
        bootstrap_status_from_runtime(InteractiveProviderKind::Nvidia, LocalRuntimeStatus::Downloading, &None),
        BootstrapStatus::Pending
    );
    assert_eq!(
        bootstrap_status_from_runtime(InteractiveProviderKind::Local, LocalRuntimeStatus::Failed, &None),
        BootstrapStatus::Failed
    );
    assert_eq!(failed.as_ref().map(|p| p.detail().to_string()), Some("Ollama unreachable".to_string()));
}

#[test]
fn footer_explains_a_blocked_start() {
    let failed = Some(RemoteRuntimeProbe::Failed("x".to_string()));
    assert_eq!(
        bootstrap_failure_footer(InteractiveProviderKind::Ollama, LocalRuntimeStatus::Running, &failed, "Ollama unreachable at http://127.0.0.1:11434"),
        "Startup blocked: Ollama unreachable at http://127.0.0.1:11434."
    );
    assert_eq!(
        bootstrap_failure_footer(InteractiveProviderKind::Local, LocalRuntimeStatus::Failed, &None, "weights missing"),
        "Startup blocked: fix the SSD-MOE runtime issue and restart Quorp."
    );
    assert_eq!(
        bootstrap_failure_footer(InteractiveProviderKind::Nvidia, LocalRuntimeStatus::Failed, &failed, "d"),
        "Right rail booting now. / opens workflows once ready. Ctrl+k opens the control deck."
    );
}

#[test]
fn labels_and_subtitles_name_the_runtime() {
    assert_eq!(bootstrap_runtime_probe_label(InteractiveProviderKind::OpenAiCompatible), "OpenAI-compatible");
    assert_eq!(bootstrap_runtime_probe_label(InteractiveProviderKind::Local), "SSD-MOE");
    assert_eq!(
        bootstrap_subtitle(InteractiveProviderKind::Codex),
        "Verifying the terminal, workspace, executor session, and session state."
    );
}

#[test]
fn probes_are_listed_in_order() {
    let remote = checks(InteractiveProviderKind::Ollama);
    let probes = bootstrap_probes(&remote);
    let labels: Vec<&str> = probes.iter().map(|p| p.label.as_str()).collect();
    assert_eq!(
        labels,
        vec!["Terminal", "Workspace", "Model selection", "Ollama", "PTY", "Path index", "Session restore"]
    );
    assert_eq!(probes[4].status, BootstrapStatus::Pending);
    assert_eq!(probes[4].detail, "pty unavailable");
    assert_eq!(probes[5].detail, "warming 1200 files");
    assert_eq!(probes[6].status, BootstrapStatus::Passed);

    let mut local = checks(InteractiveProviderKind::Local);
    local.model_id = String::new();
    local.frame_index = 9;
    local.path_index_ready = true;
    let probes = bootstrap_probes(&local);
    assert_eq!(probes.len(), 8);
    assert_eq!(probes[2].status, BootstrapStatus::Warn);
    assert_eq!(probes[2].detail, "using fallback local model");
    assert_eq!(probes[3].label, "Broker");
    assert_eq!(probes[4].label, "SSD-MOE");
    assert_eq!(probes[5].status, BootstrapStatus::Warn);
    assert_eq!(probes[6].detail, "1200 files indexed");

    let plan = bootstrap_view_plan(&local, LocalRuntimeStatus::Starting, &None, "Attaching runtime");
    assert_eq!(plan.loader_phase_label, "Attaching runtime");
    let plan = bootstrap_view_plan(&remote, LocalRuntimeStatus::Starting, &None, "Attaching runtime");
    assert_eq!(plan.loader_phase_label, "Ollama");
    assert_eq!(plan.probes.len(), 7);
}

/// The start-up state the original's tests set up: the terminal and workspace checks
/// passed, the reveal animation at its last frame, the screen shown for `shown_ms`.
struct Startup {
    provider: InteractiveProviderKind,
    local: LocalRuntimeStatus,
    remote: Option<RemoteRuntimeProbe>,
    shown_ms: Option<u64>,
    progress: BootstrapProgress,
}

fn startup(provider: InteractiveProviderKind, local: LocalRuntimeStatus) -> Startup {
    Startup {
        provider,
        local,
        remote: None,
        shown_ms: Some(BOOTSTRAP_MIN_DURATION_MS),
        progress: BootstrapProgress { completed: false },
    }
}

fn scene(s: &mut Startup) -> ShellScene {
    let gates = bootstrap_hard_gates_ready(true, true, s.provider, s.local, &s.remote);
    s.progress.shell_scene(gates, s.shown_ms)
}

fn runtime_detail_of(s: &Startup) -> String {
    let remote = s.remote.as_ref().map(|p| p.detail());
    bootstrap_runtime_detail(s.provider, remote, s.local, &None, "runtime probe detail")
}

fn footer(s: &Startup) -> String {
    bootstrap_failure_footer(s.provider, s.local, &s.remote, &runtime_detail_of(s))
}

fn runtime_probe(s: &Startup) -> BootstrapProbe {
    let mut c = checks(s.provider);
    c.runtime_status = bootstrap_status_from_runtime(s.provider, s.local, &s.remote);
    c.runtime_detail = runtime_detail_of(s);
    bootstrap_probes(&c)
        .into_iter()
        .find(|probe| probe.label == bootstrap_runtime_probe_label(s.provider))
        .expect("runtime probe")
}

#[test]
fn bootstrap_blocks_ready_scene_when_runtime_failed() {
    let mut s = startup(InteractiveProviderKind::Local, LocalRuntimeStatus::Failed);
    assert_eq!(scene(&mut s), ShellScene::Bootstrap);
    assert!(footer(&s).contains("Startup blocked"));
}

#[test]
fn bootstrap_stays_visible_before_minimum_duration_even_when_runtime_is_ready() {
    let mut s = startup(InteractiveProviderKind::Local, LocalRuntimeStatus::Running);
    // First shown after now: the clock gives no time shown yet.
    s.shown_ms = Some(0);
    assert_eq!(scene(&mut s), ShellScene::Bootstrap);
}

#[test]
fn bootstrap_timer_waits_for_first_visible_frame() {
    let mut s = startup(InteractiveProviderKind::Local, LocalRuntimeStatus::Running);
    s.shown_ms = None;
    assert_eq!(scene(&mut s), ShellScene::Bootstrap);
}

#[test]
fn bootstrap_stays_visible_after_minimum_duration_until_runtime_is_ready() {
    let mut s = startup(InteractiveProviderKind::Local, LocalRuntimeStatus::Starting);
    assert_eq!(scene(&mut s), ShellScene::Bootstrap);
}

#[test]
fn bootstrap_transitions_to_ready_when_hard_gates_and_time_pass() {
    let mut s = startup(InteractiveProviderKind::Local, LocalRuntimeStatus::Running);
    assert_eq!(scene(&mut s), ShellScene::Ready);
}

#[test]
fn bootstrap_ollama_ready_does_not_require_ssd_moe_running() {
    let mut s = startup(InteractiveProviderKind::Ollama, LocalRuntimeStatus::Ready);
    s.remote = Some(RemoteRuntimeProbe::Ready(
        "endpoint ready at http://127.0.0.1:11434 · model qwen2.5-coder:32b available".to_string(),
    ));
    assert_eq!(scene(&mut s), ShellScene::Ready);
}

#[test]
fn bootstrap_ollama_failure_surfaces_clear_message() {
    let mut s = startup(InteractiveProviderKind::Ollama, LocalRuntimeStatus::Ready);
    s.remote = Some(RemoteRuntimeProbe::Failed("Ollama unreachable at http://127.0.0.1:11434".to_string()));
    assert_eq!(scene(&mut s), ShellScene::Bootstrap);
    let probe = runtime_probe(&s);
    assert_eq!(probe.label, "Ollama");
    assert!(probe.detail.contains("Ollama unreachable"));
    assert!(footer(&s).contains("Startup blocked"));
}

#[test]
fn bootstrap_ollama_missing_model_surfaces_clear_message() {
    let mut s = startup(InteractiveProviderKind::Ollama, LocalRuntimeStatus::Ready);
    // The probe's detail as fitted to the screen's column.
    s.remote = Some(RemoteRuntimeProbe::Failed(
        "model qwen2.5-coder:32b is not available at http://1…".to_string(),
    ));
    assert_eq!(scene(&mut s), ShellScene::Bootstrap);
    let probe = runtime_probe(&s);
    assert!(probe.detail.contains("is not available"));
    assert!(probe.detail.contains("qwen2.5-coder:32b"));
}

#[test]
fn once_ready_runtime_drop_stays_in_main_shell() {
    let mut s = startup(InteractiveProviderKind::Local, LocalRuntimeStatus::Running);
    assert_eq!(scene(&mut s), ShellScene::Ready);

    s.local = LocalRuntimeStatus::Ready;
    assert_eq!(scene(&mut s), ShellScene::Ready);
    let degraded = runtime_degraded(s.provider, s.progress.completed, s.local);
    assert!(degraded);
    let feed = if degraded { vec![runtime_degraded_feed_item(None, None).0] } else { Vec::new() };
    assert!(feed.iter().any(|title| title == "Runtime degraded"));
    assert!(shell_status_hint(degraded, "Tab moves focus").contains("Runtime lost after startup"));
}

#[test]
fn degraded_runtime_notice_names_the_last_runtime() {
    let (title, lines) = runtime_degraded_feed_item(
        Some("broker lease expired".to_string()),
        Some(RuntimeMetadata {
            instance_id: "moe-7".to_string(),
            base_url: "http://127.0.0.1:8123".to_string(),
            lease_count: 2,
            stale: true,
        }),
    );
    assert_eq!(title, "Runtime degraded");
    assert_eq!(lines, vec![
        "broker lease expired".to_string(),
        "Last runtime moe-7 at http://127.0.0.1:8123 · leases=2 · stale=true".to_string(),
    ]);
    let (_, lines) = runtime_degraded_feed_item(None, None);
    assert_eq!(lines, vec![
        "runtime became unavailable after initial startup".to_string(),
        "No broker runtime metadata retained".to_string(),
    ]);
    assert!(!runtime_degraded(InteractiveProviderKind::Ollama, true, LocalRuntimeStatus::Failed));
    assert!(!runtime_degraded(InteractiveProviderKind::Local, false, LocalRuntimeStatus::Failed));
    assert_eq!(shell_status_hint(false, "Tab moves focus"), "Tab moves focus");
}

#[test]
fn runtime_detail_follows_the_runtime() {
    let lease = Some(RuntimeMetadata {
        instance_id: "moe-7".to_string(),
        base_url: "http://127.0.0.1:8123".to_string(),
        lease_count: 3,
        stale: false,
    });
    assert_eq!(
        bootstrap_runtime_detail(InteractiveProviderKind::Local, None, LocalRuntimeStatus::Running, &lease, "x"),
        "http://127.0.0.1:8123 · instance moe-7 · 3 lease(s)"
    );
    assert_eq!(
        bootstrap_runtime_detail(InteractiveProviderKind::Local, Some("remote"), LocalRuntimeStatus::Running, &None, "x"),
        "local loopback runtime ready"
    );
    assert_eq!(
        bootstrap_runtime_detail(InteractiveProviderKind::Nvidia, Some("remote"), LocalRuntimeStatus::Running, &None, "x"),
        "remote"
    );
    assert_eq!(
        bootstrap_runtime_detail(InteractiveProviderKind::Local, None, LocalRuntimeStatus::Downloading, &None, "downloading 40%"),
        "downloading 40%"
    );
    assert_eq!(
        bootstrap_runtime_detail(InteractiveProviderKind::Local, None, LocalRuntimeStatus::Starting, &None, "x"),
        "attach-or-spawn in progress"
    );
}

#[test]
fn bootstrap_tick_holds_at_the_last_reveal_frame() {
    assert_eq!(advance_bootstrap_tick(0), 1);
    assert_eq!(advance_bootstrap_tick(BOOTSTRAP_REVEAL_FRAMES - 2), BOOTSTRAP_REVEAL_FRAMES - 1);
    assert_eq!(advance_bootstrap_tick(BOOTSTRAP_REVEAL_FRAMES - 1), BOOTSTRAP_REVEAL_FRAMES - 1);
    assert_eq!(advance_bootstrap_tick(usize::MAX), BOOTSTRAP_REVEAL_FRAMES - 1);
}
