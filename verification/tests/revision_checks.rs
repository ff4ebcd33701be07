use std::io::Write;

use emu_studio::android::avd_config::adopted_config;
use emu_studio::android::avd_list::AvdEntry;
use emu_studio::android::provider::reconcile_pass;
use emu_studio::android::provider::{stop_step, stop_target, StopStep};
use emu_studio::toolchain::cmdline_zip::{entry_step, ZipItem, ZipReadFailure};
use emu_studio::android::sysimg::entries_from_nodes;
use emu_studio::xml::{XmlAttr, XmlNode};
use emu_studio::android::inspect::parse_df_data;
use emu_studio::android::provider::{reconcile_rows, LiveSerial};
use emu_studio::error::CoreError;
use emu_studio::helper::{add_kvm_group, enable_aehd, enable_whpx, Command, HelperStep};
use emu_studio::model::component::{Component, ComponentId, HostOs};
use emu_studio::ports::Output;
use emu_studio::toolchain::bootstrap::{after_jdk, bootstrap_start, BootstrapStart};
use emu_studio::toolchain::installed_state::{ComponentLocation, InstalledState, SdkSource};
use emu_studio::model::emulator::{EmulatorId, EmulatorSource, Hardware, RunState};
use emu_studio::model::image::{Abi, ImageCoord, ImageType};
use emu_studio::ports::{next_progress, pct_progress, verify_download, verify_downloaded_bytes};
use emu_studio::registry::row::EmulatorRow;
use emu_studio::toolchain::cmdline_zip::{enclosed_parts, read_cmdline_tools_zip};

#[test]
fn download_percentages_stay_within_a_hundred() {
    assert_eq!(pct_progress(2, 1).pct, Some(100));
    assert_eq!(pct_progress(1, 2).pct, Some(50));
    assert_eq!(pct_progress(u64::MAX, 1).pct, Some(100));
    assert_eq!(pct_progress(5, 0).pct, None);
}

#[test]
fn progress_is_reported_only_when_the_percentage_moves() {
    assert!(next_progress(None, 10, None).is_none());
    let first = next_progress(None, 10, Some(1000)).expect("first percentage");
    assert_eq!(first.pct, Some(1));
    assert_eq!(first.bytes_total, Some(1000));
    assert!(next_progress(Some(1), 19, Some(1000)).is_none());
    assert_eq!(next_progress(Some(1), 20, Some(1000)).and_then(|p| p.pct), Some(2));
    assert!(next_progress(None, 0, Some(0)).is_none());
}

#[test]
fn downloads_are_checked_against_their_sha256() {
    let abc = "ba7816bf8f01cfea414140de5dae2223b00361a396177a9cb410ff61f20015ad";
    assert_eq!(verify_downloaded_bytes("u", None, b"abc").unwrap(), abc);
    assert_eq!(verify_downloaded_bytes("u", Some(&abc.to_uppercase()), b"abc").unwrap(), abc);
    match verify_downloaded_bytes("https://x/y.zip", Some("00"), b"abc").unwrap_err() {
        CoreError::Download { url, detail } => {
            assert_eq!(url, "https://x/y.zip");
            assert_eq!(detail, format!("sha256 mismatch: expected 00, got {abc}"));
        },
        other => panic!("expected a download error, got {other:?}"),
    }
    assert_eq!(verify_download("u", None, &[0xab, 0x01]).unwrap(), "ab01");
}

#[test]
fn a_df_row_without_both_columns_reads_as_nothing() {
    let df = "Filesystem 1K-blocks Used Available Use% Mounted on\n/dev/x 2048\n";
    assert_eq!(parse_df_data(df), (None, None));
    let df = "Filesystem 1K-blocks Used Available Use% Mounted on\n/dev/x 2048 10 abc 1% /data\n";
    assert_eq!(parse_df_data(df), (None, None));
}

#[test]
fn helper_outcomes_name_their_subcommand() {
    match enable_whpx(Command::EnableWhpx, HostOs::Linux, "linux") {
        HelperStep::Report(o) => {
            assert_eq!(o.command, "enable-whpx");
            assert_eq!(o.status, "notApplicable");
            assert!(!o.needs_reboot);
            assert!(!o.message.is_empty());
        },
        other => panic!("expected a report, got {other:?}"),
    }
    let aehd = enable_aehd(Command::EnableAehd, HostOs::Windows, "windows");
    assert_eq!(aehd.command, "enable-aehd");
    assert!(!aehd.needs_reboot);
    match add_kvm_group(Command::AddKvmGroup, HostOs::Linux, "linux", None, None) {
        HelperStep::Report(o) => {
            assert_eq!(o.command, "add-kvm-group");
            assert_eq!(o.status, "failed");
            assert!(!o.needs_reboot);
        },
        other => panic!("expected a report, got {other:?}"),
    }
}

#[test]
fn entry_names_are_read_as_slash_separated_paths() {
    assert_eq!(enclosed_parts("cmdline-tools/bin/sdkmanager", HostOs::Linux).unwrap(), ["cmdline-tools", "bin", "sdkmanager"]);
    assert_eq!(enclosed_parts("a//b/./c/", HostOs::Linux).unwrap(), ["a", "b", "c"]);
    assert_eq!(enclosed_parts("./a/b", HostOs::Linux).unwrap(), [".", "a", "b"]);
    assert_eq!(enclosed_parts("a/../b", HostOs::Linux).unwrap(), ["a", "..", "b"]);
    assert!(enclosed_parts("a/../../b", HostOs::Linux).is_none());
    assert!(enclosed_parts("/etc/passwd", HostOs::Linux).is_none());
    assert!(enclosed_parts("a\0b", HostOs::Linux).is_none());
    assert_eq!(enclosed_parts("a\\b", HostOs::Linux).unwrap(), ["a\\b"]);
}

#[test]
fn windows_reads_backslashes_and_drives_as_windows_paths() {
    assert_eq!(enclosed_parts("a\\b/c", HostOs::Windows).unwrap(), ["a", "b", "c"]);
    assert!(enclosed_parts("C:\\Windows\\x", HostOs::Windows).is_none());
    assert!(enclosed_parts("c:x", HostOs::Windows).is_none());
    assert!(enclosed_parts("\\\\server\\share\\x", HostOs::Windows).is_none());
    assert!(enclosed_parts("a\\..\\..\\b", HostOs::Windows).is_none());
    assert_eq!(enclosed_parts("c:x", HostOs::Linux).unwrap(), ["c:x"]);
}

#[test]
fn unsafe_archive_entries_are_skipped() {
    let mut buf = Vec::new();
    {
        let mut w = zip::ZipWriter::new(std::io::Cursor::new(&mut buf));
        let opts = zip::write::SimpleFileOptions::default();
        for (name, body) in [
            ("cmdline-tools/bin/sdkmanager", &b"ok"[..]),
            ("cmdline-tools/../../evil", &b"x"[..]),
            ("/abs/file", &b"x"[..]),
        ] {
            w.start_file(name, opts).unwrap();
            w.write_all(body).unwrap();
        }
        w.finish().unwrap();
    }
    let entries = read_cmdline_tools_zip(&buf, HostOs::Linux).expect("reads");
    let names: Vec<&str> = entries.iter().map(|e| e.relative.as_str()).collect();
    assert_eq!(names, ["bin/sdkmanager"]);
}

fn row(name: &str, state: RunState, pid: Option<u32>) -> EmulatorRow {
    let mut r = EmulatorRow::new(
        EmulatorId(format!("id-{name}")),
        name.to_string(),
        name.to_string(),
        "pixel_6".to_string(),
        ImageCoord::new(34, ImageType::Default, Abi::X86_64),
        Hardware::default(),
        EmulatorSource::Manual { discovered: false },
        time::OffsetDateTime::UNIX_EPOCH,
    );
    r.last_state = state;
    r.pid = pid;
    r
}

fn avd(name: &str, loadable: bool) -> AvdEntry {
    AvdEntry { name: name.to_string(), device: None, path: None, tag_abi: None, based_on: None, loadable, error: None }
}

#[test]
fn reconcile_converges_to_what_the_host_shows() {
    let rows = vec![
        row("up", RunState::Stopped, None),
        row("warming", RunState::Stopped, None),
        row("idle", RunState::Running, Some(7)),
        row("broken", RunState::Stopped, None),
        row("gone", RunState::Running, Some(9)),
    ];
    let avds = [avd("up", true), avd("warming", true), avd("idle", true), avd("broken", false)];
    let live = [
        LiveSerial { avd_name: "up".to_string(), serial: "emulator-5554".to_string(), booted: true },
        LiveSerial { avd_name: "warming".to_string(), serial: "emulator-5556".to_string(), booted: false },
    ];
    let later = time::OffsetDateTime::UNIX_EPOCH + time::Duration::seconds(60);
    let (rows, changed) = reconcile_rows(rows, &avds, &live, later);
    let states: Vec<RunState> = rows.iter().map(|r| r.last_state).collect();
    assert_eq!(
        states,
        [RunState::Running, RunState::Booting, RunState::Stopped, RunState::Error, RunState::Error]
    );
    assert_eq!(rows[0].adb_serial.as_deref(), Some("emulator-5554"));
    assert_eq!(rows[2].pid, None);
    assert_eq!(rows[4].pid, None);
    assert_eq!(changed, [true, true, true, true, true]);
    assert!(rows.iter().all(|r| r.updated_at == later));
    let (again, changed_again) = reconcile_rows(rows, &avds, &live, later + time::Duration::seconds(60));
    assert!(again.iter().all(|r| r.updated_at == later));
    assert_eq!(again.len(), 5);
    assert_eq!(changed_again, [false, false, false, false, false]);
}

#[test]
fn a_reconcile_pass_adopts_then_refreshes_everything() {
    let rows = vec![row("known", RunState::Running, Some(4)), row("gone", RunState::Stopped, None)];
    let avds = [avd("known", true), avd("new_one", true), avd("broken", false)];
    let live = [LiveSerial { avd_name: "new_one".to_string(), serial: "emulator-5554".to_string(), booted: true }];
    let config = adopted_config("avd.ini.displayname=Adopted Pixel\nhw.device.name=pixel_6\nimage.sysdir.1=system-images/android-30/google_apis/x86_64/\nhw.ramSize=3072\n");
    let fresh = vec![(EmulatorId("fresh-1".to_string()), Some(config))];
    let (rows, write_back) = reconcile_pass(rows, &avds, &live, fresh, time::OffsetDateTime::UNIX_EPOCH);
    let names: Vec<&str> = rows.iter().map(|r| r.avd_name.as_str()).collect();
    assert_eq!(names, ["known", "gone", "new_one"]);
    let states: Vec<RunState> = rows.iter().map(|r| r.last_state).collect();
    assert_eq!(states, [RunState::Stopped, RunState::Error, RunState::Running]);
    assert_eq!(rows[0].pid, None);
    assert_eq!(rows[2].id, EmulatorId("fresh-1".to_string()));
    assert!(matches!(rows[2].source, EmulatorSource::Manual { discovered: true }));
    assert_eq!(rows[2].display_name, "Adopted Pixel");
    assert_eq!(rows[2].device_profile_id, "pixel_6");
    assert_eq!(rows[2].hardware.ram_mb, 3072);
    assert_eq!(rows[2].image_coord.map(|c| c.to_string()).as_deref(), Some("system-images;android-30;google_apis;x86_64"));
    assert_eq!(rows[2].adb_serial.as_deref(), Some("emulator-5554"));
    assert_eq!(write_back, [true, true, true]);
}

#[test]
fn stopping_something_not_running_sends_nothing() {

    let rows = vec![row("busy", RunState::Running, Some(9))];
    assert_eq!(stop_target(&rows, &EmulatorId("id-busy".to_string())).unwrap(), "busy");
    let err = stop_target(&rows, &EmulatorId("nope".to_string())).unwrap_err();
    assert_eq!(err.code(), "not_found");

    let reports = vec![
        ("emulator-5554".to_string(), "other".to_string()),
        ("emulator-5556".to_string(), "busy".to_string()),
    ];
    match stop_step("/sdk/platform-tools/adb", "busy", &reports) {
        StopStep::Kill { serial, command } => {
            assert_eq!(serial, "emulator-5556");
            assert_eq!(command.display(), "/sdk/platform-tools/adb -s emulator-5556 emu kill");
        },
        other => panic!("expected a kill, got {other:?}"),
    }
    assert_eq!(stop_step("/sdk/platform-tools/adb", "idle", &reports), StopStep::NothingRunning);
    assert_eq!(stop_step("/sdk/platform-tools/adb", "busy", &[]), StopStep::NothingRunning);
}

#[test]
fn one_read_entry_becomes_one_extracted_entry() {

    let item = ZipItem { name: "cmdline-tools\\bin\\sdkmanager".to_string(), is_dir: false, contents: b"x".to_vec() };
    let got = entry_step(Ok(item), HostOs::Windows).expect("kept").expect("ok");
    assert_eq!(got.relative, "bin/sdkmanager");
    let top = ZipItem { name: "cmdline-tools/".to_string(), is_dir: true, contents: Vec::new() };
    assert!(entry_step(Ok(top), HostOs::Linux).is_none());
    let bad = entry_step(Err(ZipReadFailure::Archive("broken".to_string())), HostOs::Linux).unwrap().unwrap_err();
    assert_eq!(bad.code(), "invalid");
    let unreadable = entry_step(
        Err(ZipReadFailure::Read("cmdline-tools/lib/a.jar".to_string(), false, "crc".to_string())),
        HostOs::Linux,
    )
    .unwrap()
    .unwrap_err();
    assert!(matches!(unreadable, CoreError::Fs { ref path, .. } if path == "lib/a.jar"));
}

#[test]
fn system_image_entries_come_from_remote_packages() {
    let package = |path: &str| XmlNode {
        element: true,
        tag: "remotePackage".to_string(),
        attrs: vec![XmlAttr { namespaced: false, name: "path".to_string(), value: path.to_string() }],
        text: None,
        size: 1,
    };
    let nodes = vec![package("system-images;android-34;default;x86_64"), package("platforms;android-34")];
    let got = entries_from_nodes(&nodes);
    assert_eq!(got.len(), 1);
    assert_eq!(got[0].coord.to_string(), "system-images;android-34;default;x86_64");
    assert_eq!(got[0].revision, "0");
    assert_eq!(got[0].size_bytes, None);
}

#[test]
fn a_bootstrap_with_nothing_missing_runs_nothing_and_the_jdk_gates_the_rest() {
    let wanted = [Component {
        id: ComponentId::CmdlineTools,
        version: "19.0".to_string(),
        url: "https://dl.google.com/x/cmdline-tools.zip".to_string(),
        size_bytes: 0,
        sha1: String::new(),
    }];
    let installed = InstalledState::from_found(vec![ComponentLocation {
        id: ComponentId::CmdlineTools,
        sdk_root: "/data/sdk".to_string(),
        source: SdkSource::AppManaged,
    }]);
    match bootstrap_start(&wanted, &installed) {
        BootstrapStart::NothingToDo { log } => {
            assert_eq!(log.log_line.as_deref(), Some("everything requested is already installed; nothing to do"));
        },
        other => panic!("expected nothing to do, got {other:?}"),
    }
    let (steps, command) = match bootstrap_start(&wanted, &InstalledState::from_found(vec![])) {
        BootstrapStart::CheckJdk { steps, command } => (steps, command),
        other => panic!("expected a JDK check, got {other:?}"),
    };
    assert_eq!(command.display(), "java -version");
    assert_eq!(after_jdk(steps.clone(), None).unwrap_err().code(), "unsupported");
    let old = Output { status: 0, stdout: String::new(), stderr: "java version \"1.8.0_372\"".to_string() };
    assert_eq!(after_jdk(steps.clone(), Some(old)).unwrap_err().code(), "unsupported");
    let ok = Output { status: 0, stdout: String::new(), stderr: "openjdk version \"21\" 2023-09-19".to_string() };
    assert_eq!(after_jdk(steps.clone(), Some(ok)).unwrap(), steps);
}
