use caduceus::config::{Config, SandboxConfig, SandboxEngine, SandboxNetwork};
use caduceus::error::CaduceusError;
use caduceus::readiness::{
    assemble_report, assert_live, engine_answer, engine_info, find_string, is_digest_pinned,
    json_format, mode_format, render_human, run_live, CgroupObservation, CheckId, CheckStatus,
    CommandOutcome, DiagnosticCanary, DiagnosticStatus, DiskSample, EngineInfo, EngineMode,
    HostPlatform, ImageAcquisition, ImageObservation, LiveObservations, ModeReading, PathFacts,
    PathObservation, ReadinessVerdict, StorageObservation,
};
use caduceus::json::parse_json;
use caduceus::time::Timestamp;

const NOW: Timestamp = Timestamp { secs: 1_700_000_000, nanos: 0 };

fn image() -> String {
    format!("worker@sha256:{}", "a".repeat(64))
}

fn config(sandbox: bool) -> Config {
    Config {
        circuit_failure_threshold: 3,
        circuit_backoff_seconds: vec![1],
        circuit_open_interval_seconds: 1,
        circuit_max_degraded_seconds: 1,
        repo_storage_root: "/store".to_string(),
        sandbox: if sandbox {
            Some(SandboxConfig {
                engine: SandboxEngine::Docker,
                image: image(),
                network: SandboxNetwork::Bridge,
                reserved_host_disk_mb: 1,
            })
        } else {
            None
        },
        state_dir: "/state".to_string(),
        ticket_label_code: "code".to_string(),
        ticket_label_investigation: "look".to_string(),
        watched_repos: Vec::new(),
        workdir_base: "/work".to_string(),
    }
}

const INFO: &str = r#"{"ServerVersion":"27","nested":{"CgroupVersion":"2"},"CgroupDriver":"systemd"}"#;

fn info() -> EngineInfo {
    engine_info(
        Ok("[]".to_string()),
        ModeReading { reading: Ok((EngineMode::Rootless, false)) },
        Ok(INFO.to_string()),
    )
    .unwrap_or_else(|_| panic!())
}

fn path(mode: u32) -> PathObservation {
    PathObservation { facts: Ok(PathFacts { is_symlink: false, is_dir: true, mode, uid: 1000 }) }
}

fn healthy() -> LiveObservations {
    LiveObservations {
        host_os: "linux".to_string(),
        engine_path: Some("/usr/bin/docker".to_string()),
        engine: Ok(info()),
        cgroup: CgroupObservation {
            controllers: Ok("cpuset cpu io memory pids\n".to_string()),
            has_cpu: false,
            has_memory: false,
            has_pids: false,
        },
        storage: StorageObservation {
            state: path(0o40755),
            repository_storage: path(0o40700),
            worktree: path(0o40700),
            daemon_uid: 1000,
            samples: Ok(vec![DiskSample {
                representative_path: "/state".to_string(),
                free_bytes: 2_000_000,
            }]),
        },
        network: Ok("[]".to_string()),
        image: ImageObservation { acquisition: Ok(ImageAcquisition { facts: "f".to_string() }) },
        platform: HostPlatform {
            architecture: "arm64".to_string(),
            variant: Some("v8".to_string()),
        },
    }
}

fn detail(seen: LiveObservations, id: CheckId) -> (CheckStatus, String) {
    let report = run_live(&config(true), seen, NOW);
    let c = report.checks.iter().find(|c| c.id == id).unwrap();
    (c.status, c.detail.clone())
}

fn fails(seen: LiveObservations, id: CheckId) -> String {
    let (status, text) = detail(seen, id);
    assert_eq!(status, CheckStatus::Fail);
    text
}

#[test]
fn a_healthy_host_is_ready() {
    let report = run_live(&config(true), healthy(), NOW);
    assert_eq!(report.verdict, ReadinessVerdict::Ready);
    let ids: Vec<CheckId> = report.checks.iter().map(|c| c.id).collect();
    assert_eq!(ids, CheckId::all());
    assert!(report.mandatory_failures().is_empty());
    let at = |i: usize| report.checks[i].detail.as_str();
    assert_eq!(at(0), "Linux host; docker resolves to /usr/bin/docker");
    assert_eq!(at(1), "docker daemon is reachable (server 27)");
    assert_eq!(at(2), "rootless mode detected");
    assert_eq!(at(4), "cgroup v2 exposes cpu, memory, and pids");
    assert_eq!(
        at(6),
        format!("{} is present, digest-verified, and matches arm64/v8", image())
    );
    assert_eq!(at(8), "engine reports cgroup driver systemd");
    assert_eq!(assert_live(&config(true), healthy(), NOW).unwrap().facts, "f");
}

#[test]
fn without_a_sandbox_nothing_is_ready() {
    let report = run_live(&config(false), healthy(), NOW);
    assert_eq!(report.verdict, ReadinessVerdict::Unavailable);
    assert_eq!(report.checks.len(), 1);
    assert!(report.checks[0].remediation.is_some());
    assert!(report.verified_image.is_none());
}

#[test]
fn a_refusal_names_every_failure() {
    let mut seen = healthy();
    seen.engine = Err("connection refused".to_string());
    match assert_live(&config(true), seen, NOW).err().unwrap() {
        CaduceusError::OciReadinessUnavailable { failed_checks } => {
            let names: Vec<&str> = failed_checks.iter().map(|f| f.check.as_str()).collect();
            assert_eq!(names, vec!["engine", "mode", "namespace", "resources", "primitives"]);
            assert_eq!(failed_checks[0].detail, "connection refused");
        }
        _ => panic!(),
    }
}

#[test]
fn the_platform_is_checked() {
    let mut seen = healthy();
    seen.host_os = "macos".to_string();
    assert_eq!(fails(seen, CheckId::Platform), "unsupported host platform macos");
    let mut seen = healthy();
    seen.engine_path = None;
    assert_eq!(fails(seen, CheckId::Platform), "docker is not executable on PATH");
}

#[test]
fn modes_are_checked() {
    let mut seen = healthy();
    let mut i = info();
    i.mode = ModeReading { reading: Ok((EngineMode::Rootful, true)) };
    seen.engine = Ok(i);
    assert_eq!(fails(seen, CheckId::Namespace), "rootful engine reports userns-remap");
    let mut seen = healthy();
    let mut i = info();
    i.mode = ModeReading { reading: Err("odd".to_string()) };
    seen.engine = Ok(i);
    assert_eq!(fails(seen, CheckId::Mode), "odd");
}

#[test]
fn controllers_are_checked() {
    let mut seen = healthy();
    seen.cgroup.controllers = Ok("cpuset io memory".to_string());
    assert_eq!(
        fails(seen, CheckId::Resources),
        "cgroup v2 is missing controller(s): cpu, pids"
    );
    let mut seen = healthy();
    seen.cgroup.controllers = Err("perm".to_string());
    assert_eq!(
        fails(seen, CheckId::Resources),
        "cannot read /sys/fs/cgroup/cgroup.controllers: perm"
    );
    let mut seen = healthy();
    let mut i = info();
    i.json = parse_json("{}").unwrap_or_else(|_| panic!());
    seen.engine = Ok(i);
    seen.cgroup.has_cpu = true;
    assert_eq!(
        fails(seen, CheckId::Resources),
        "required cgroup controller(s) are unavailable: memory, pids"
    );
}

#[test]
fn drivers_are_checked() {
    let driver = |json: &str| {
        let mut seen = healthy();
        let mut i = info();
        i.json = parse_json(json).unwrap_or_else(|_| panic!());
        seen.engine = Ok(i);
        fails(seen, CheckId::Primitives)
    };
    assert_eq!(driver(r#"{"Driver":"NONE"}"#), "engine reports no usable cgroup driver");
    assert_eq!(driver("{}"), "engine did not report a cgroup driver");
}

#[test]
fn storage_is_checked() {
    let with = |f: fn(&mut StorageObservation)| {
        let mut seen = healthy();
        f(&mut seen.storage);
        fails(seen, CheckId::Filesystem)
    };
    assert_eq!(
        with(|s| s.state = PathObservation { facts: Err("gone".to_string()) }),
        "required state directory is missing: /state (gone)"
    );
    assert_eq!(
        with(|s| s.state.facts.as_mut().unwrap().is_symlink = true),
        "required directory is a symlink: /state"
    );
    assert_eq!(
        with(|s| s.worktree.facts.as_mut().unwrap().is_dir = false),
        "required path is not a directory: /work"
    );
    assert_eq!(
        with(|s| s.repository_storage = path(0o40750)),
        "/store has mode 750; expected 700"
    );
    assert_eq!(
        with(|s| s.state = path(0o40020)),
        "/state has mode 020; group/other write access is not allowed"
    );
    assert_eq!(
        with(|s| s.daemon_uid = 7),
        "/state is owned by uid 1000, expected daemon uid 7"
    );
    assert_eq!(
        with(|s| s.samples = Err("statvfs".to_string())),
        "filesystem probe failed: statvfs"
    );
    assert_eq!(
        with(|s| s.samples.as_mut().unwrap()[0].free_bytes = 1_048_575),
        "/state has 1048575 bytes free below the 1048576 byte reserve"
    );
}

#[test]
fn network_and_image_are_checked() {
    let mut seen = healthy();
    seen.network = Err("none".to_string());
    assert_eq!(fails(seen, CheckId::Network), "default bridge network is unavailable: none");
    let mut seen = healthy();
    seen.image = ImageObservation { acquisition: Err("denied".to_string()) };
    assert_eq!(fails(seen, CheckId::Image), "denied");
    assert!(is_digest_pinned(&image()));
    assert!(!is_digest_pinned(&image()[6..]));
    assert!(!is_digest_pinned("worker:latest"));
    assert!(!is_digest_pinned(&image().replace('a', "g")));
    assert!(is_digest_pinned(&format!("a@sha256:b@sha256:{}", "F".repeat(64))));
}

#[test]
fn commands_answer_or_say_why_not() {
    let exited = |success: bool, stderr: &str| CommandOutcome::Exited {
        success,
        status: "exit status: 1".to_string(),
        stdout: " out \n".to_string(),
        stderr: stderr.to_string(),
    };
    assert_eq!(engine_answer(&exited(true, "x")), Ok("out".to_string()));
    assert_eq!(engine_answer(&exited(false, " bad \n")), Err("bad".to_string()));
    assert_eq!(
        engine_answer(&exited(false, " \n")),
        Err("engine command exited with exit status: 1".to_string())
    );
    assert_eq!(
        engine_answer(&CommandOutcome::TimedOut),
        Err("engine command timed out".to_string())
    );
    assert_eq!(
        engine_answer(&CommandOutcome::NotStarted("enoent".to_string())),
        Err("engine command could not start: enoent".to_string())
    );
    assert_eq!(mode_format(SandboxEngine::Podman), "{{.Host.Security.Rootless}}");
    assert_eq!(json_format(SandboxEngine::Docker), "{{json .}}");
    let bad = engine_info(
        Ok(String::new()),
        ModeReading { reading: Err(String::new()) },
        Ok("{".to_string()),
    );
    assert!(bad.err().unwrap().starts_with("engine info JSON is invalid: EOF"));
}

#[test]
fn strings_are_found_deep_down() {
    let j = parse_json(r#"{"a":[1,{"K":"deep"}],"b":{"L":"x"}}"#).unwrap_or_else(|_| panic!());
    let find = |keys: &[&str]| {
        let keys: Vec<String> = keys.iter().map(|k| k.to_string()).collect();
        find_string(&j, &keys)
    };
    assert_eq!(find(&["K"]), Some("deep".to_string()));
    assert_eq!(find(&["L", "K"]), Some("deep".to_string()));
    assert_eq!(find(&["missing"]), None);
}

#[test]
fn the_report_is_rendered() {
    let report = run_live(&config(false), healthy(), NOW);
    assert_eq!(
        render_human(&report),
        "caduceus doctor\n  [FAIL] engine: no sandbox configuration is present\n         remediation: configure executor_mode: oci and a complete sandbox section, or keep trusted_host mode\n  readiness: UNAVAILABLE\n"
    );
    let mut empty = assemble_report(Vec::new(), NOW);
    empty.diagnostic_canary = Some(DiagnosticCanary {
        status: DiagnosticStatus::Skip,
        detail: "off".to_string(),
    });
    assert_eq!(empty.verdict, ReadinessVerdict::Ready);
    assert_eq!(
        render_human(&empty),
        "caduceus doctor\n  readiness: READY\n  diagnostic canary: SKIP: off\n"
    );
}
