//! The library's promises checked on concrete values: what one call undoes of another, what
//! every state keeps, and the orders lists come in.

use std::io::Write as _;

use emu_studio::android::avd_config::hw_keyboard_fix;
use emu_studio::android::sysimg::SysImgEntry;
use emu_studio::host::report::build_report;
use emu_studio::host::signals::{AccelSignal, HostSignals, PlatformProbe, signals_from_probe};
use emu_studio::helper::KvmAccess;
use emu_studio::ipc::commands::DeviceInfo;
use emu_studio::ipc::dto::ImageInfo;
use emu_studio::ipc::helper_run::helper_subcommand;
use emu_studio::ipc::listing::{image_infos, lex_less, sort_devices, sort_images, unique_entries};
use emu_studio::ipc::profile_cmd::inspection_of;
use emu_studio::model::component::{ComponentId, HostOs};
use emu_studio::model::emulator::{Hardware, RunState};
use emu_studio::model::host::Virtualization;
use emu_studio::model::image::{Abi, ImageCoord, ImageType};
use emu_studio::model::profile::EmuProfile;
use emu_studio::profile::resolve::{resolve, sanitize_avd_name};
use emu_studio::registry::row::{parse_run_state, run_state_str};
use emu_studio::toolchain::cmdline_zip::read_cmdline_tools_zip;
use emu_studio::toolchain::installed_state::{ComponentLocation, InstalledState, SdkSource};
use emu_studio::toolchain::uninstall::{uninstall_step, UninstallStep};

#[test]
fn keyboard_fix_is_applied_once() {
    for config in ["hw.ramSize=2048\n", "hw.keyboard=no\nhw.ramSize=2048\r\n", "", "# c\n[x]\nhw.keyboard = No"] {
        let fixed = hw_keyboard_fix(config).expect("needs the fix");
        assert_eq!(hw_keyboard_fix(&fixed), None, "{config:?} -> {fixed:?}");
        assert!(fixed.ends_with("hw.keyboard=yes\n"));
    }
}

#[test]
fn run_states_read_back() {
    for s in [RunState::Stopped, RunState::Booting, RunState::Running, RunState::Error] {
        assert_eq!(parse_run_state(run_state_str(s)).unwrap(), s);
    }
}

#[test]
fn an_unknown_stored_run_state_is_named_quoted() {
    let err = parse_run_state("paused\n").unwrap_err();
    assert_eq!(err.code(), "parse_error");
    assert!(err.to_string().contains("unknown run state \"paused\\n\""), "{}", err.to_string());
}

#[test]
fn sanitized_names_are_never_empty_and_only_safe_characters() {
    for name in ["", " ", "Ünïcødé 🙂", "a/b\\c", "ok-1.0_x"] {
        let s = sanitize_avd_name(name);
        assert!(!s.is_empty());
        assert!(s.chars().all(|c| c.is_ascii_alphanumeric() || matches!(c, '_' | '-' | '.')), "{s}");
    }
}

fn state(found: Vec<ComponentLocation>) -> InstalledState {
    InstalledState::from_found(found)
}

#[test]
fn uninstall_never_touches_a_system_sdk() {
    let system = state(vec![ComponentLocation {
        id: ComponentId::Emulator,
        sdk_root: "/opt/android".into(),
        source: SdkSource::System("/opt/android".into()),
    }]);
    let err = uninstall_step("/data", ComponentId::Emulator, &system, HostOs::Linux).unwrap_err();
    assert_eq!(err.code(), "unsupported");
    assert!(err.to_string().contains("/opt/android"));

    let managed = state(vec![
        ComponentLocation { id: ComponentId::CmdlineTools, sdk_root: "/data/sdk".into(), source: SdkSource::AppManaged },
        ComponentLocation { id: ComponentId::Emulator, sdk_root: "/data/sdk".into(), source: SdkSource::AppManaged },
    ]);
    match uninstall_step("/data", ComponentId::Emulator, &managed, HostOs::Linux).unwrap() {
        UninstallStep::Run { command, .. } => {
            assert_eq!(command.args, ["--uninstall", "emulator", "--sdk_root=/data/sdk"]);
        }
        other => panic!("expected a run, got {other:?}"),
    }
    assert_eq!(
        uninstall_step("/data", ComponentId::CmdlineTools, &managed, HostOs::Linux).unwrap_err().code(),
        "unsupported"
    );
    assert!(matches!(
        uninstall_step("/data", ComponentId::PlatformTools, &managed, HostOs::Linux).unwrap(),
        UninstallStep::AlreadyAbsent { .. }
    ));
}

#[test]
fn every_scriptable_fix_is_one_the_helper_runs() {
    for (os, accel) in [
        ("linux", AccelSignal::NoPermission),
        ("linux", AccelSignal::Missing),
        ("windows", AccelSignal::Missing),
        ("windows", AccelSignal::NoPermission),
        ("windows", AccelSignal::Disabled),
    ] {
        let s = HostSignals {
            os: os.into(),
            arch: "x86_64".into(),
            virtualization: Virtualization::DisabledInFirmware,
            accel,
            ram_bytes: 0,
            disk_free_bytes: 0,
        };
        for fix in build_report(&s).fixes {
            assert_eq!(helper_subcommand(&fix.id).is_ok(), fix.scriptable, "{}", fix.id);
        }
    }
}

#[test]
fn probes_read_as_signals() {
    assert_eq!(
        signals_from_probe(&PlatformProbe::Hvf(Some("1".into()))),
        (Virtualization::Enabled, AccelSignal::Ready)
    );
    assert_eq!(
        signals_from_probe(&PlatformProbe::Kvm { exists: false, open: KvmAccess::Missing }),
        (Virtualization::Unknown, AccelSignal::Missing)
    );
    assert_eq!(
        signals_from_probe(&PlatformProbe::Kvm { exists: true, open: KvmAccess::PermissionDenied }),
        (Virtualization::Enabled, AccelSignal::NoPermission)
    );
    assert_eq!(
        signals_from_probe(&PlatformProbe::Whpx { feature: Some("disabled".into()), firmware: Some("false".into()) }),
        (Virtualization::DisabledInFirmware, AccelSignal::Missing)
    );
}

fn device(name: &str, id: &str) -> DeviceInfo {
    DeviceInfo {
        id: id.into(),
        name: name.into(),
        oem: String::new(),
        form_factor: "phone".into(),
        ram_mb: 2048,
        resolution: "1 × 1".into(),
        density_dpi: 160,
        diagonal_in: "5".into(),
    }
}

#[test]
fn devices_come_in_name_order_stably() {
    let sorted = sort_devices(vec![device("Pixel 6", "a"), device("Nexus 5", "b"), device("Pixel 6", "c"), device("Automotive", "d")]);
    let ids: Vec<&str> = sorted.iter().map(|d| d.id.as_str()).collect();
    assert_eq!(ids, ["d", "b", "a", "c"]);
    assert!(lex_less("Pixel", "Pixel 6"));
    assert!(!lex_less("b", "a"));
}

fn entry(api: u32, t: ImageType, a: Abi, revision: &str) -> SysImgEntry {
    SysImgEntry { coord: ImageCoord::new(api, t, a), revision: revision.into(), size_bytes: Some(10), sha1: None }
}

#[test]
fn images_are_deduplicated_then_newest_first() {
    let entries = vec![
        entry(33, ImageType::Default, Abi::X86_64, "1"),
        entry(34, ImageType::GoogleApis, Abi::X86_64, "2"),
        entry(33, ImageType::Default, Abi::X86_64, "9"),
        entry(34, ImageType::Default, Abi::Arm64V8a, "3"),
    ];
    let unique = unique_entries(entries);
    assert_eq!(unique.len(), 3);
    let first_33 = unique.iter().find(|e| e.coord.api == 33).unwrap();
    assert_eq!(first_33.revision, "1");
    let texts: Vec<String> = unique.iter().map(|e| e.coord.to_string()).collect();
    let mut sorted = texts.clone();
    sorted.sort();
    assert_eq!(texts, sorted);

    let installed = vec![false; unique.len()];
    let infos: Vec<ImageInfo> = sort_images(image_infos(&unique, &installed));
    let keys: Vec<(u32, &str, &str)> = infos.iter().map(|i| (i.api, i.image_type.as_str(), i.abi.as_str())).collect();
    assert_eq!(
        keys,
        [(34, "default", "arm64-v8a"), (34, "google_apis", "x86_64"), (33, "default", "x86_64")]
    );
}

fn zip_of(files: &[(&str, &[u8])]) -> Vec<u8> {
    let mut buf = Vec::new();
    {
        let mut w = zip::ZipWriter::new(std::io::Cursor::new(&mut buf));
        let opts = zip::write::SimpleFileOptions::default();
        for (name, body) in files {
            if name.ends_with('/') {
                w.add_directory(*name, opts).unwrap();
            } else {
                w.start_file(*name, opts).unwrap();
                w.write_all(body).unwrap();
            }
        }
        w.finish().unwrap();
    }
    buf
}

#[test]
fn the_archive_top_folder_is_stripped() {
    let bytes = zip_of(&[
        ("cmdline-tools/", b""),
        ("cmdline-tools/bin/", b""),
        ("cmdline-tools/bin/sdkmanager", b"#!/bin/sh\n"),
        ("cmdline-tools/lib/sdklib.jar", b"jar"),
    ]);
    let entries = read_cmdline_tools_zip(&bytes, HostOs::Linux).expect("reads");
    let listed: Vec<(&str, bool)> = entries.iter().map(|e| (e.relative.as_str(), e.is_dir)).collect();
    assert_eq!(listed, [("bin", true), ("bin/sdkmanager", false), ("lib/sdklib.jar", false)]);
    assert_eq!(entries[1].contents, b"#!/bin/sh\n");
}

#[test]
fn a_corrupt_archive_is_an_invalid_archive() {
    let err = read_cmdline_tools_zip(b"not a zip", HostOs::Linux).unwrap_err();
    assert_eq!(err.code(), "invalid");
    assert!(err.to_string().starts_with("invalid cmdline-tools archive: "));
}

fn profile() -> EmuProfile {
    EmuProfile::from_parts(
        "QA run",
        "pixel_6",
        ImageCoord::new(34, ImageType::GoogleApis, Abi::X86_64),
        &Hardware::default(),
        String::new(),
    )
}

#[test]
fn a_resolved_plan_is_ready_exactly_when_everything_is_installed() {
    let all = state(vec![
        ComponentLocation { id: ComponentId::CmdlineTools, sdk_root: "/s".into(), source: SdkSource::AppManaged },
        ComponentLocation { id: ComponentId::PlatformTools, sdk_root: "/s".into(), source: SdkSource::AppManaged },
        ComponentLocation { id: ComponentId::Emulator, sdk_root: "/s".into(), source: SdkSource::AppManaged },
    ]);
    let p = profile();
    let ready = resolve(&p, &all, true, Some(5)).unwrap();
    assert!(ready.is_ready());
    assert_eq!(ready.total_download_bytes(), 0);
    let pending = resolve(&p, &all, false, Some(1_500_000_000)).unwrap();
    assert!(!pending.is_ready());
    let view = inspection_of(&p, &pending);
    assert_eq!(view.image_label, "Android API 34 · google_apis · x86_64");
    assert_eq!(view.image_coord, "system-images;android-34;google_apis;x86_64");
    assert_eq!(view.total_download_bytes, 1_500_000_000);
    assert!(!view.ready);
}

#[test]
fn an_exported_recipe_keeps_the_image_and_hardware() {
    let hw = Hardware { ram_mb: 4096, storage_mb: 10240, ..Hardware::default() };
    let coord = ImageCoord::new(33, ImageType::AndroidWear, Abi::Arm64V8a);
    let p = EmuProfile::from_parts("Watch", "wear_os_round", coord, &hw, "notes".into());
    assert_eq!(p.image_coord(), coord);
    assert_eq!(p.hardware(), hw);
    assert!(p.validate().is_ok());
}
