use std::io::Write;

use emu_studio::error::CoreError;
use emu_studio::ipc::toolchain_cmd::component_infos;
use emu_studio::model::component::{Component, ComponentId, HostOs};
use emu_studio::ports::Output;
use emu_studio::toolchain::bootstrap::{
    bootstrap_steps, chmod_command, check_jdk, hex_sha1, install_command, sdkmanager_path, jdk_missing_err, licenses_command, licenses_phase,
    stream_line_progress, verify_sha1, LICENSE_ACCEPT_COUNT,
};
use emu_studio::toolchain::cmdline_zip::read_cmdline_tools_zip;
use emu_studio::toolchain::installed_state::{
    probe_paths, scan_roots, ComponentLocation, InstalledState, SdkSource,
};
use emu_studio::toolchain::uninstall::{uninstall_outcome, uninstall_step, UninstallStep};

/// A scan over a file tree that holds exactly `files`.
fn scan(files: &[&str], app_sdk_dir: &str, os: HostOs, env: &[(&str, &str)]) -> InstalledState {
    let env: Vec<(String, String)> = env.iter().map(|(k, v)| (k.to_string(), v.to_string())).collect();
    let roots = scan_roots(app_sdk_dir, os, &env);
    let paths = probe_paths(&roots, os);
    let probes: Vec<Vec<bool>> =
        paths.iter().map(|row| row.iter().map(|p| files.contains(&p.as_str())).collect()).collect();
    InstalledState::from_probes(&roots, &probes)
}

#[test]
fn nothing_installed_anywhere_is_all_missing() {
    let state = scan(&[], "/data/sdk", HostOs::Linux, &[]);
    assert_eq!(state.missing(&ComponentId::m1_set()).len(), 3);
    assert!(!state.is_installed(ComponentId::PlatformTools));
}

#[test]
fn app_managed_marker_files_are_found() {
    let files = ["/data/sdk/cmdline-tools/latest/bin/sdkmanager", "/data/sdk/platform-tools/adb"];
    let state = scan(&files, "/data/sdk", HostOs::Linux, &[]);
    assert!(state.is_installed(ComponentId::CmdlineTools));
    assert!(state.is_installed(ComponentId::PlatformTools));
    assert!(!state.is_installed(ComponentId::Emulator));
    assert_eq!(state.missing(&ComponentId::m1_set()), [ComponentId::Emulator]);
    assert_eq!(state.location_of(ComponentId::PlatformTools).unwrap().source, SdkSource::AppManaged);
}

#[test]
fn env_var_system_root_is_detected_and_skips_download() {
    let files = ["/opt/android-sdk/platform-tools/adb"];
    let state = scan(&files, "/data/sdk", HostOs::Linux, &[("ANDROID_SDK_ROOT", "/opt/android-sdk")]);
    let loc = state.location_of(ComponentId::PlatformTools).unwrap();
    assert_eq!(loc.sdk_root, "/opt/android-sdk");
    assert_eq!(loc.source, SdkSource::System("/opt/android-sdk".to_string()));
}

#[test]
fn android_studio_default_path_is_checked_per_os() {
    let files = ["/Users/dev/Library/Android/sdk/emulator/emulator"];
    let env = [("HOME", "/Users/dev")];
    let state = scan(&files, "/data/sdk", HostOs::MacOs, &env);
    assert!(state.is_installed(ComponentId::Emulator));
    let state_linux = scan(&files, "/data/sdk", HostOs::Linux, &env);
    assert!(!state_linux.is_installed(ComponentId::Emulator));
}

#[test]
fn app_managed_wins_over_system_when_both_have_it() {
    let files = ["/data/sdk/platform-tools/adb", "/opt/sdk/platform-tools/adb"];
    let state = scan(&files, "/data/sdk", HostOs::Linux, &[("ANDROID_HOME", "/opt/sdk")]);
    assert_eq!(state.location_of(ComponentId::PlatformTools).unwrap().source, SdkSource::AppManaged);
}

fn app_managed(id: ComponentId) -> ComponentLocation {
    ComponentLocation { id, sdk_root: "/data/sdk".to_string(), source: SdkSource::AppManaged }
}

#[test]
fn app_managed_component_is_removed_with_sdkmanager_uninstall() {
    let state = InstalledState::from_found(vec![
        app_managed(ComponentId::CmdlineTools),
        app_managed(ComponentId::Emulator),
    ]);
    match uninstall_step("/data", ComponentId::Emulator, &state, HostOs::Linux).expect("uninstall") {
        UninstallStep::Run { sdkmanager, command, log } => {
            assert_eq!(sdkmanager, "/data/sdk/cmdline-tools/latest/bin/sdkmanager");
            let line = command.display();
            assert!(line.contains("--uninstall"));
            assert!(line.contains("emulator"));
            assert!(line.contains("--sdk_root=/data/sdk"));
            assert_eq!(log.log_line.as_deref(), Some("removing emulator"));
        },
        other => panic!("expected a run, got {other:?}"),
    }
}

#[test]
fn removing_cmdline_tools_is_refused_without_touching_any_process() {
    let state = InstalledState::from_found(vec![app_managed(ComponentId::CmdlineTools)]);
    let err = uninstall_step("/data", ComponentId::CmdlineTools, &state, HostOs::Linux).expect_err("must refuse");
    assert!(matches!(err, CoreError::Unsupported(_)));
}

#[test]
fn a_system_sourced_component_is_never_modified() {
    let state = InstalledState::from_found(vec![
        app_managed(ComponentId::CmdlineTools),
        ComponentLocation {
            id: ComponentId::Emulator,
            sdk_root: "/opt/android-sdk".to_string(),
            source: SdkSource::System("/opt/android-sdk".to_string()),
        },
    ]);
    let err = uninstall_step("/data", ComponentId::Emulator, &state, HostOs::Linux)
        .expect_err("system SDK is off-limits");
    assert!(matches!(err, CoreError::Unsupported(_)));
}

#[test]
fn removing_something_not_installed_is_a_noop() {
    let state = InstalledState::from_found(vec![app_managed(ComponentId::CmdlineTools)]);
    let step = uninstall_step("/data", ComponentId::Emulator, &state, HostOs::Linux).expect("no-op ok");
    assert!(matches!(step, UninstallStep::AlreadyAbsent { .. }));
}

#[test]
fn without_cmdline_tools_there_is_nothing_to_uninstall_with() {
    let state = InstalledState::from_found(vec![app_managed(ComponentId::Emulator)]);
    let err = uninstall_step("/data", ComponentId::Emulator, &state, HostOs::Linux).expect_err("no sdkmanager");
    assert!(matches!(err, CoreError::NotFound { what: "cmdline-tools", .. }));
}

#[test]
fn a_nonzero_sdkmanager_exit_surfaces_as_a_process_error() {
    let out = Output { status: 1, stdout: String::new(), stderr: "Warning: Package is in use".to_string() };
    let err = uninstall_outcome("/data/sdk/cmdline-tools/latest/bin/sdkmanager", ComponentId::PlatformTools, &out)
        .expect_err("process failed");
    assert!(matches!(err, CoreError::Process { code: 1, .. }));
    let ok = Output { status: 0, stdout: String::new(), stderr: String::new() };
    let done = uninstall_outcome("sdkmanager", ComponentId::PlatformTools, &ok).expect("removed");
    assert_eq!(done.log_line.as_deref(), Some("platform-tools removed"));
}

fn tiny_cmdline_tools_zip() -> Vec<u8> {
    let mut buf = Vec::new();
    {
        let mut w = zip::ZipWriter::new(std::io::Cursor::new(&mut buf));
        let opts = zip::write::SimpleFileOptions::default();
        w.start_file("cmdline-tools/bin/sdkmanager", opts).unwrap();
        w.write_all(b"#!/bin/sh\necho fake sdkmanager\n").unwrap();
        w.start_file("cmdline-tools/source.properties", opts).unwrap();
        w.write_all(b"Pkg.Revision=19.0\n").unwrap();
        w.finish().unwrap();
    }
    buf
}

fn jdk_ok() -> Output {
    Output { status: 0, stdout: String::new(), stderr: "openjdk version \"21\" 2023-09-19 LTS".to_string() }
}

fn component(id: ComponentId, version: &str, url: &str, sha1: &str) -> Component {
    Component { id, version: version.to_string(), url: url.to_string(), size_bytes: 0, sha1: sha1.to_string() }
}

#[test]
fn fresh_bootstrap_downloads_licenses_and_installs() {
    let zip_bytes = tiny_cmdline_tools_zip();
    let url = "https://dl.google.com/android/repository/commandlinetools-fake.zip";
    let sha1 = hex_sha1(&zip_bytes);
    let wanted = [
        component(ComponentId::CmdlineTools, "19.0", url, &sha1),
        component(
            ComponentId::PlatformTools,
            "36.0.0",
            "https://dl.google.com/android/repository/platform-tools_r36-linux.zip",
            "unused-installed-via-sdkmanager",
        ),
    ];
    let steps = bootstrap_steps(&wanted, &InstalledState::from_found(vec![])).expect("work to do");
    let fetch = steps.fetch.expect("cmdline-tools is fetched first");
    assert_eq!(fetch.id, ComponentId::CmdlineTools);
    assert_eq!(steps.packages, ["platform-tools"]);

    assert!(check_jdk(&jdk_ok()).is_ok());
    assert!(verify_sha1(&zip_bytes, &fetch.sha1, &fetch.url).is_ok());
    let entries = read_cmdline_tools_zip(&zip_bytes, HostOs::Linux).expect("extracts");
    let sdkmanager = entries.iter().find(|e| e.relative == "bin/sdkmanager").expect("sdkmanager is extracted");
    assert_eq!(sdkmanager.contents, b"#!/bin/sh\necho fake sdkmanager\n");

    assert_eq!(licenses_phase().phase.as_deref(), Some("Accepting SDK licenses"));
    let licenses = licenses_command("/data/sdk/cmdline-tools/latest/bin/sdkmanager");
    assert!(licenses.display().contains("--licenses"));
    assert_eq!(licenses.stdin.as_deref(), Some("y\n".repeat(LICENSE_ACCEPT_COUNT).as_bytes()));

    let line = stream_line_progress("\"Install Android SDK Platform-Tools\" (revision: 36.0.0): 100%  ")
        .expect("a non-blank line is forwarded");
    assert_eq!(line.log_line.as_deref(), Some("\"Install Android SDK Platform-Tools\" (revision: 36.0.0): 100%"));
    assert!(stream_line_progress("   ").is_none());
}

#[test]
fn already_bootstrapped_is_a_no_op() {
    let wanted = [
        component(ComponentId::CmdlineTools, "19.0", "https://dl.google.com/x/cmdline-tools.zip", ""),
        component(ComponentId::PlatformTools, "36.0.0", "https://dl.google.com/x/platform-tools.zip", ""),
    ];
    let state = InstalledState::from_found(vec![
        app_managed(ComponentId::CmdlineTools),
        app_managed(ComponentId::PlatformTools),
    ]);
    assert!(bootstrap_steps(&wanted, &state).is_none());
}

#[test]
fn a_checksum_mismatch_is_a_download_error() {
    let err = verify_sha1(b"abc", "deadbeef", "https://dl.google.com/x/cmdline-tools.zip").unwrap_err();
    assert_eq!(err.code(), "download_failed");
    match err {
        CoreError::Download { url, detail } => {
            assert_eq!(url, "https://dl.google.com/x/cmdline-tools.zip");
            assert_eq!(
                detail,
                "sha1 mismatch: catalog says deadbeef, downloaded file is a9993e364706816aba3e25717850c26c9cd0d89d"
            );
        },
        other => panic!("expected a download error, got {other:?}"),
    }
    assert!(verify_sha1(b"abc", "A9993E364706816ABA3E25717850C26C9CD0D89D", "u").is_ok());
}

#[test]
fn missing_jdk_fails_fast_before_any_download() {
    assert_eq!(jdk_missing_err().code(), "unsupported");
    let silent = Output { status: 0, stdout: String::new(), stderr: "not a version string".to_string() };
    assert_eq!(check_jdk(&silent).unwrap_err().code(), "unsupported");
    let old = Output { status: 0, stdout: String::new(), stderr: "java version \"1.8.0_372\"".to_string() };
    let err = check_jdk(&old).unwrap_err();
    assert!(err.to_string().contains("version 8;"));
}

#[test]
fn the_components_screen_merges_the_catalog_with_what_is_installed() {
    let catalog = [
        Component {
            id: ComponentId::CmdlineTools,
            version: "19.0".to_string(),
            url: "u1".to_string(),
            size_bytes: 181_052_239,
            sha1: String::new(),
        },
        Component {
            id: ComponentId::PlatformTools,
            version: "36.0.0".to_string(),
            url: "u2".to_string(),
            size_bytes: 5_000_000_000,
            sha1: String::new(),
        },
        component(ComponentId::Emulator, "37.2.7", "u3", ""),
    ];
    let state = InstalledState::from_found(vec![
        app_managed(ComponentId::CmdlineTools),
        ComponentLocation {
            id: ComponentId::PlatformTools,
            sdk_root: "/opt/sdk".to_string(),
            source: SdkSource::System("/opt/sdk".to_string()),
        },
    ]);
    let infos = component_infos(&catalog, &state);
    assert_eq!(infos.len(), 3);
    assert_eq!(infos[0].id, "cmdline-tools;latest");
    assert_eq!(infos[0].source.as_deref(), Some("app-managed"));
    assert_eq!(infos[0].size_bytes, 181_052_239);
    assert_eq!(infos[1].name, "platform-tools (adb)");
    assert_eq!(infos[1].source.as_deref(), Some("system:/opt/sdk"));
    assert_eq!(infos[1].size_bytes, u32::MAX);
    assert!(!infos[2].installed);
    assert_eq!(infos[2].source, None);
}

#[test]
fn sdkmanager_runs_from_where_the_command_line_tools_are() {
    let system = InstalledState::from_found(vec![ComponentLocation {
        id: ComponentId::CmdlineTools,
        sdk_root: "/opt/sdk".to_string(),
        source: SdkSource::System("/opt/sdk".to_string()),
    }]);
    assert_eq!(sdkmanager_path(&system, "/data/sdk", HostOs::Linux, false), "/opt/sdk/cmdline-tools/latest/bin/sdkmanager");
    assert_eq!(sdkmanager_path(&system, "/data/sdk", HostOs::Linux, true), "/data/sdk/cmdline-tools/latest/bin/sdkmanager");
    assert_eq!(
        sdkmanager_path(&InstalledState::from_found(vec![]), "/data/sdk", HostOs::Windows, false),
        "/data/sdk/cmdline-tools/latest/bin/sdkmanager.bat"
    );
    let (cmd, phase) = install_command("sdkmanager", &["platform-tools".to_string(), "emulator".to_string()]);
    assert_eq!(cmd.display(), "sdkmanager platform-tools emulator");
    assert_eq!(phase.phase.as_deref(), Some("Downloading & installing platform-tools, emulator"));
    assert_eq!(chmod_command("/data/sdk/cmdline-tools/latest").display(), "chmod -R +x /data/sdk/cmdline-tools/latest/bin");
}
