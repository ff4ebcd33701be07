//! The host-readiness report, and the decisions behind the app's commands.

use emu_studio::error::CoreError;
use emu_studio::host::report::build_report;
use emu_studio::host::signals::{AccelSignal, HostSignals};
use emu_studio::ipc::commands::{app_info, create_request_plan, form_factor_label, ping, DeviceInfo, APP_VERSION};
use emu_studio::ipc::diagnostics::{redact_with, tail_text};
use emu_studio::ipc::dto::{run_state_label, CreateEmulatorRequest, HostReportDto};
use emu_studio::ipc::error::IpcError;
use emu_studio::ipc::helper_run::{elevated_argv, helper_outcome, helper_subcommand, last_json_line};
use emu_studio::ipc::profile_cmd::{apply_plan, finish_profile, read_profile_header};
use emu_studio::ipc::toolchain_cmd::{component_name, done_event, job_events, select_components, source_label, EmulatorJobKind};
use emu_studio::model::component::{Component, ComponentId};
use emu_studio::model::device::{DeviceProfile, FormFactor, Screen};
use emu_studio::model::emulator::{EmulatorSource, RunState};
use emu_studio::model::host::{Accelerator, AcceleratorKind, AcceleratorStatus, Fix, HostReport, Verdict, Virtualization};
use emu_studio::model::job::Progress;
use emu_studio::profile::resolve::sanitize_avd_name;
use emu_studio::toolchain::installed_state::SdkSource;

fn healthy_mac() -> HostSignals {
    HostSignals {
        os: "macos".to_string(),
        arch: "aarch64".to_string(),
        virtualization: Virtualization::Enabled,
        accel: AccelSignal::Ready,
        ram_bytes: 32 * 1024 * 1024 * 1024,
        disk_free_bytes: 400 * 1_000_000_000,
    }
}

#[test]
fn healthy_mac_can_accelerate_with_no_fixes() {
    let r = build_report(&healthy_mac());
    assert_eq!(r.verdict, Verdict::CanAccelerate);
    assert_eq!(r.accelerator.kind, AcceleratorKind::Hvf);
    assert_eq!(r.accelerator.status, AcceleratorStatus::Ready);
    assert!(r.fixes.is_empty());
}

#[test]
fn ci_runner_without_virtualization_cannot_run_and_offers_the_bios_fix() {
    let s = HostSignals {
        os: "linux".to_string(),
        arch: "x86_64".to_string(),
        virtualization: Virtualization::DisabledInFirmware,
        accel: AccelSignal::Missing,
        ram_bytes: 16 * 1024 * 1024 * 1024,
        disk_free_bytes: 100 * 1_000_000_000,
    };
    let r = build_report(&s);
    assert!(matches!(r.verdict, Verdict::CannotRun { .. }));
    if let Verdict::CannotRun { reason } = &r.verdict {
        assert!(reason.contains("firmware"));
    }
    assert!(r.fixes.iter().any(|f| f.id == "enable-virtualization" && !f.scriptable));
}

#[test]
fn kvm_no_permission_is_degraded_with_add_kvm_group() {
    let s = HostSignals {
        os: "linux".to_string(),
        arch: "x86_64".to_string(),
        virtualization: Virtualization::Enabled,
        accel: AccelSignal::NoPermission,
        ram_bytes: 16 * 1024 * 1024 * 1024,
        disk_free_bytes: 100 * 1_000_000_000,
    };
    let r = build_report(&s);
    assert!(matches!(r.verdict, Verdict::Degraded { .. }));
    let fix = r.fixes.iter().find(|f| f.id == "add-kvm-group").expect("fix present");
    assert!(fix.scriptable);
    assert!(!fix.needs_reboot);
}

#[test]
fn whpx_missing_cannot_run_with_a_reboot_fix() {
    let s = HostSignals {
        os: "windows".to_string(),
        arch: "x86_64".to_string(),
        virtualization: Virtualization::Enabled,
        accel: AccelSignal::Missing,
        ram_bytes: 16 * 1024 * 1024 * 1024,
        disk_free_bytes: 100 * 1_000_000_000,
    };
    let r = build_report(&s);
    assert!(matches!(r.verdict, Verdict::CannotRun { .. }));
    let fix = r.fixes.iter().find(|f| f.id == "enable-whpx").expect("fix present");
    assert!(fix.scriptable && fix.needs_reboot);
}

#[test]
fn low_ram_is_degraded() {
    let mut s = healthy_mac();
    s.ram_bytes = 6 * 1024 * 1024 * 1024;
    assert!(matches!(build_report(&s).verdict, Verdict::Degraded { .. }));
}

#[test]
fn too_little_ram_cannot_run() {
    let mut s = healthy_mac();
    s.ram_bytes = 2 * 1024 * 1024 * 1024;
    assert!(matches!(build_report(&s).verdict, Verdict::CannotRun { .. }));
}

#[test]
fn too_little_disk_cannot_run() {
    let mut s = healthy_mac();
    s.disk_free_bytes = 3 * 1_000_000_000;
    let r = build_report(&s);
    assert!(matches!(r.verdict, Verdict::CannotRun { .. }));
}

#[test]
fn unknown_signals_do_not_hard_block() {
    let s = HostSignals {
        os: "macos".to_string(),
        arch: "aarch64".to_string(),
        virtualization: Virtualization::Unknown,
        accel: AccelSignal::Unknown,
        ram_bytes: 0,
        disk_free_bytes: 0,
    };
    assert_eq!(build_report(&s).verdict, Verdict::CanAccelerate);
}

#[test]
fn redact_collapses_the_home_path_prefix() {
    let line = "2026-09-08 opened /Users/testuser/Library/Application Support/x/logs/a.log \
                token=abc123";
    let out = redact_with(line, Some("/Users/testuser"));
    assert!(out.contains("~/Library/Application Support/x/logs/a.log"));
    assert!(!out.contains("/Users/testuser"));
    assert!(out.contains("token=abc123"));
    assert_eq!(redact_with(line, None), line);
}

#[test]
fn redact_replaces_every_occurrence_and_ignores_an_empty_home() {
    assert_eq!(redact_with("/h/a and /h/b", Some("/h")), "~/a and ~/b");
    assert_eq!(redact_with("/h/a", Some("")), "/h/a");
    assert_eq!(redact_with("aaa", Some("aa")), "~a");
}

#[test]
fn tail_returns_the_last_n_lines() {
    let content = "l1\nl2\nl3\nl4\nl5\n";
    assert_eq!(tail_text(content, 2), "l4\nl5");
    assert_eq!(tail_text(content, 99), "l1\nl2\nl3\nl4\nl5");
    assert_eq!(tail_text("", 5), "");
}

#[test]
fn sanitize_avd_name_replaces_disallowed_chars() {
    assert_eq!(sanitize_avd_name("Pixel 6 · API 34"), "Pixel_6___API_34");
    assert_eq!(sanitize_avd_name("clean_name-1.0"), "clean_name-1.0");
    assert_eq!(sanitize_avd_name("  "), "__");
}

#[test]
fn run_state_label_covers_every_variant() {
    assert_eq!(run_state_label(RunState::Stopped), "stopped");
    assert_eq!(run_state_label(RunState::Booting), "booting");
    assert_eq!(run_state_label(RunState::Running), "running");
    assert_eq!(run_state_label(RunState::Error), "error");
}

#[test]
fn form_factor_label_covers_every_variant() {
    assert_eq!(form_factor_label(FormFactor::Phone), "phone");
    assert_eq!(form_factor_label(FormFactor::Foldable), "foldable");
    assert_eq!(form_factor_label(FormFactor::Automotive), "automotive");
}

#[test]
fn elevated_argv_wraps_per_os() {
    let h = "/opt/app/emu-helper";
    let (p, a) = elevated_argv(h, "add-kvm-group", "macos");
    assert_eq!(p, "osascript");
    assert!(a.last().unwrap().contains("with administrator privileges"));
    assert!(a.last().unwrap().contains("add-kvm-group"));

    let (p, a) = elevated_argv(h, "enable-whpx", "linux");
    assert_eq!(p, "pkexec");
    assert_eq!(a, ["/opt/app/emu-helper", "enable-whpx"]);

    let (p, a) = elevated_argv(h, "enable-whpx", "windows");
    assert_eq!(p, "powershell");
    assert!(a.iter().any(|s| s.contains("RunAs")));
}

#[test]
fn run_helper_rejects_a_non_scriptable_fix() {
    let err = helper_subcommand("enable-virtualization").unwrap_err();
    assert_eq!(err.code, "invalid");
    assert_eq!(
        err.message,
        "'enable-virtualization' has to be done manually — see the fix description"
    );
    assert_eq!(helper_subcommand("add-kvm-group").unwrap(), "add-kvm-group");
}

#[test]
fn helper_outcome_reads_the_last_json_line() {
    let stdout = "starting\n{\"command\":\"old\"}\n  {\"command\":\"add-kvm-group\",\"status\":\"ok\",\"message\":\"done\",\"needsReboot\":false}\n";
    let out = helper_outcome("add-kvm-group", "linux", true, Some(0), stdout, "").unwrap();
    assert_eq!(out.command, "add-kvm-group");
    assert_eq!(out.status, "ok");
    assert_eq!(out.message, "done");
    assert!(!out.needs_reboot);

    let sparse = helper_outcome("enable-aehd", "linux", true, Some(0), "{}\n", "").unwrap();
    assert_eq!(sparse.command, "enable-aehd");
    assert_eq!(sparse.status, "failed");
    assert_eq!(sparse.message, "");
}

#[test]
fn helper_outcome_errors_cover_cancel_missing_and_bad_json() {
    let cancelled = helper_outcome("enable-whpx", "macos", false, Some(1), "", "User canceled. (-128)").unwrap_err();
    assert_eq!(cancelled.code, "cancelled");
    let pkexec = helper_outcome("add-kvm-group", "linux", false, Some(126), "", "").unwrap_err();
    assert_eq!(pkexec.code, "cancelled");
    let none = helper_outcome("add-kvm-group", "linux", true, Some(0), "no json here\n", "  oops \n").unwrap_err();
    assert_eq!(none.code, "process_failed");
    assert_eq!(none.message, "emu-helper produced no JSON (stderr: oops)");
    let bad = helper_outcome("add-kvm-group", "linux", true, Some(0), "{not json\n", "").unwrap_err();
    assert_eq!(bad.code, "process_failed");
    assert!(bad.message.starts_with("emu-helper output wasn't JSON: "));
}

#[test]
fn helper_outcome_on_windows_is_made_up_from_the_exit_status() {
    let out = helper_outcome("enable-whpx", "windows", true, Some(0), "", "").unwrap();
    assert_eq!(out.status, "ok");
    assert!(out.needs_reboot);
    let failed = helper_outcome("add-kvm-group", "windows", false, Some(1), "", "").unwrap();
    assert_eq!(failed.status, "failed");
    assert!(!failed.needs_reboot);
}

#[test]
fn last_json_line_skips_plain_lines() {
    assert_eq!(last_json_line("a\n {x}\nb\n").map(|v| v.into_iter().collect::<String>()), Some(" {x}".to_string()));
    assert!(last_json_line("a\nb").is_none());
}

#[test]
fn host_report_dto_maps_verdict_and_units() {
    let report = HostReport {
        os: "linux".into(),
        arch: "x86_64".into(),
        virtualization: Virtualization::Enabled,
        accelerator: Accelerator { kind: AcceleratorKind::Kvm, status: AcceleratorStatus::NoPermission },
        disk_free_bytes: 50 * 1024 * 1024 * 1024,
        ram_bytes: 16 * 1024 * 1024 * 1024,
        verdict: Verdict::Degraded { reason: "not in the kvm group".into() },
        fixes: vec![Fix {
            id: "add-kvm-group".into(),
            title: "Add your user to the kvm group".into(),
            scriptable: true,
            needs_reboot: false,
            description: "usermod -aG kvm".into(),
        }],
    };
    let dto = HostReportDto::from(&report);
    assert_eq!(dto.verdict, "degraded");
    assert_eq!(dto.verdict_reason, "not in the kvm group");
    assert_eq!(dto.accelerator_status, "noPermission");
    assert_eq!(dto.ram_mb, 16 * 1024);
    assert_eq!(dto.fixes.len(), 1);
    assert!(dto.fixes[0].scriptable);
}

#[test]
fn ping_greets_and_reports_version() {
    let pong = ping("  Ada  ".to_owned()).expect("non-blank name succeeds");
    assert_eq!(pong.message, "pong, Ada");
    assert_eq!(pong.version, "0.1.0");
    assert_eq!(pong.version, APP_VERSION);
}

#[test]
fn ping_rejects_blank_name_with_invalid_code() {
    let err = ping("   ".to_owned()).expect_err("blank name is rejected");
    assert_eq!(err.code, "invalid");
    assert!(err.message.contains("name"), "message names the field: {}", err.message);
}

#[test]
fn app_info_lists_every_feature() {
    let info = app_info();
    assert_eq!(info.name, "Emulator Studio");
    assert_eq!(info.license, "UNLICENSED");
    assert_eq!(info.features.len(), 9);
}

fn header(json: &str) -> Result<(), IpcError> {
    read_profile_header(json.as_bytes())
}

#[test]
fn parse_profile_gives_specific_messages() {
    let not_json = header("not json at all").unwrap_err();
    assert!(not_json.message.contains("valid JSON"));

    let no_version = header(r#"{"name":"x"}"#).unwrap_err();
    assert!(no_version.message.contains("schemaVersion"));

    let numeric_version = header(r#"{"schemaVersion":1.0}"#).unwrap_err();
    assert_eq!(numeric_version.message, "unsupported .emuprofile version 1.0 — this app understands \"1.0\"");
    assert!(header(r#"{"schemaVersion":"1.0","platform":"android"}"#).is_ok());
    assert!(header(r#"{"schemaVersion":"1.0"}"#).is_ok());

    let bad_version = header(r#"{"schemaVersion":"9.9","platform":"android"}"#).unwrap_err();
    assert_eq!(bad_version.code, "unsupported");
    assert!(bad_version.message.contains("9.9"));

    let wrong_platform = header(r#"{"schemaVersion":"1.0","platform":"ios"}"#).unwrap_err();
    assert_eq!(wrong_platform.code, "unsupported");
    assert!(wrong_platform.message.contains("ios"));

    let wrong_platform_fixture = header(
        r#"{"schemaVersion":"1.0","name":"Tablet","platform":"ios","device":{"profile":"ipad"},"image":{"api":17,"type":"default","abi":"arm64-v8a"},"hardware":{"ramMb":2048,"storageGb":8}}"#,
    );
    assert!(wrong_platform_fixture.is_err());
}

#[test]
fn finish_profile_quotes_the_decoder() {
    let err = finish_profile(Err("missing field `image`".to_string())).unwrap_err();
    assert_eq!(err.code, "invalid");
    assert_eq!(err.message, "this .emuprofile has a bad or missing field: missing field `image`");
}

#[test]
fn maps_core_error_code_and_message() {
    let core = CoreError::NotFound { what: "avd", name: "Pixel_7".into() };
    let ipc = IpcError::from(core);
    assert_eq!(ipc.code, "not_found");
    assert!(ipc.message.contains("Pixel_7"), "message keeps context: {}", ipc.message);
    assert!(ipc.details.is_none());
}

#[test]
fn every_core_code_survives_the_mapping() {
    let cases: [(CoreError, &str); 4] = [
        (CoreError::NotImplemented("x"), "not_implemented"),
        (CoreError::Unsupported("nested virt".into()), "unsupported"),
        (CoreError::Process { program: "adb".into(), code: 1, stderr: "boom".into() }, "process_failed"),
        (CoreError::Cancelled, "cancelled"),
    ];
    for (core, want) in cases {
        assert_eq!(IpcError::from(core).code, want);
    }
}

#[test]
fn ipc_error_display_and_details() {
    let e = IpcError::new("invalid", "bad input").with_details("{\"field\":\"name\"}".to_string());
    assert_eq!(e.to_string(), "[invalid] bad input");
    assert_eq!(e.details.as_deref(), Some("{\"field\":\"name\"}"));
}

#[test]
fn create_request_checks_name_and_coord_and_clamps_hardware() {
    let mut req = CreateEmulatorRequest {
        name: "  My Pixel ".into(),
        device_id: "pixel_6".into(),
        image_coord: "system-images;android-34;google_apis;x86_64".into(),
        ram_mb: 256,
        storage_mb: 4096,
        launch: false,
    };
    let (spec, job) = create_request_plan(&req).unwrap();
    assert_eq!(spec.display_name, "My Pixel");
    assert_eq!(spec.avd_name, "My_Pixel");
    assert_eq!(job, "create:My_Pixel");
    assert_eq!(spec.hardware.ram_mb, 512);
    assert_eq!(spec.hardware.storage_mb, 4096);

    req.name = "   ".into();
    let err = create_request_plan(&req).unwrap_err();
    assert_eq!(err.code, "invalid");
    assert_eq!(err.message, "the emulator needs a name");

    req.name = "ok".into();
    req.image_coord = "nope".into();
    assert_eq!(create_request_plan(&req).unwrap_err().code, "parse_error");
}

#[test]
fn device_info_spells_the_resolution() {
    let d = DeviceProfile {
        id: "pixel_6".into(),
        display_name: "Pixel 6".into(),
        oem: "Google".into(),
        form_factor: FormFactor::Phone,
        screen: Screen { width_px: 1080, height_px: 2400, density_dpi: 420, diagonal_in: "6.4".into() },
        default_ram_mb: 8192,
        sensors: vec![],
        is_custom: false,
    };
    let info = DeviceInfo::from(&d);
    assert_eq!(info.resolution, "1080 × 2400");
    assert_eq!(info.form_factor, "phone");
    assert_eq!(info.diagonal_in, "6.4");
}

#[test]
fn component_names_and_sources() {
    assert_eq!(component_name(ComponentId::PlatformTools), "platform-tools (adb)");
    assert_eq!(source_label(&SdkSource::AppManaged), "app-managed");
    assert_eq!(source_label(&SdkSource::System("/opt/sdk".into())), "system:/opt/sdk");
}

#[test]
fn selecting_an_unknown_component_is_not_found() {
    let catalog = vec![Component {
        id: ComponentId::Emulator,
        version: "37.2.7".into(),
        url: "https://x/e.zip".into(),
        size_bytes: 1,
        sha1: "ab".into(),
    }];
    assert_eq!(select_components(catalog.clone(), "emulator").unwrap().len(), 1);
    let err = select_components(catalog, "platform-tools").unwrap_err();
    assert_eq!(err.code, "not_found");
    assert_eq!(err.message, "no SDK component with id 'platform-tools'");
}

#[test]
fn progress_becomes_a_log_event_then_a_progress_event() {
    let p = Progress { phase: Some("Installing".into()), log_line: Some("unzip".into()), ..Progress::empty() };
    let events = job_events(p);
    assert_eq!(events.len(), 2);
    assert_eq!(events[0], EmulatorJobKind::Log { line: "unzip".into() });
    assert_eq!(events[1], EmulatorJobKind::Progress { phase: Some("Installing".into()), pct: None });
    assert!(job_events(Progress::empty()).is_empty());
    assert_eq!(done_event(None), EmulatorJobKind::Done { ok: true, error: None });
}

#[test]
fn applying_a_profile_stamps_it_imported() {
    let p = emu_studio::model::profile::EmuProfile::from_parts(
        "QA run",
        "pixel_6",
        emu_studio::model::image::ImageCoord::new(34, emu_studio::model::image::ImageType::Default, emu_studio::model::image::Abi::X86_64),
        &emu_studio::model::emulator::Hardware::default(),
        String::new(),
    );
    let (spec, job, source) = apply_plan(&p);
    assert_eq!(spec.avd_name, "QA_run");
    assert_eq!(job, "apply:QA_run");
    assert_eq!(source, EmulatorSource::Imported { profile_id: "QA run".into(), origin_label: "imported .emuprofile".into() });
}
