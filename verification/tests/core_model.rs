//! The domain model: error codes, components, images, jobs, plans, commands, profiles.

use emu_studio::android::provider::LaunchOpts;
use emu_studio::error::CoreError;
use emu_studio::model::component::{ComponentId, HostArch, HostOs};
use emu_studio::model::emulator::{Emulator, EmulatorId, EmulatorSource, Hardware};
use emu_studio::model::image::{Abi, ImageCoord, ImageType};
use emu_studio::model::job::{JobHandle, JobId, Progress};
use emu_studio::model::plan::{CreateSpec, Plan, Requirement, RequirementKind, RequirementStatus};
use emu_studio::model::profile::EmuProfile;
use emu_studio::ports::{pct_progress, Command, Output};
use emu_studio::profile::resolve::sanitize_avd_name;
use emu_studio::toolchain::bootstrap::parse_java_major_version;
use emu_studio::toolchain::installed_state::marker_file;

const SAMPLE: &str = "system-images;android-34;google_apis_playstore;x86_64";

#[test]
fn error_error_code_is_stable() {
    assert_eq!(CoreError::NotImplemented("x").code(), "not_implemented");
    assert_eq!(CoreError::parse("image coordinate", "bad").code(), "parse_error");
    assert_eq!(
        CoreError::NotFound { what: "emulator", name: "pixel".into() }.code(),
        "not_found"
    );
    assert_eq!(CoreError::invalid("hardware", "too big").code(), "invalid");
    assert_eq!(CoreError::Unsupported("no kvm".into()).code(), "unsupported");
    assert_eq!(
        CoreError::Process { program: "adb".into(), code: 1, stderr: "boom".into() }.code(),
        "process_failed"
    );
    assert_eq!(
        CoreError::Download { url: "https://x".into(), detail: "checksum".into() }.code(),
        "download_failed"
    );
    assert_eq!(
        CoreError::Fs { path: "/tmp/x".into(), detail: "eperm".into() }.code(),
        "fs_error"
    );
    assert_eq!(CoreError::Cancelled.code(), "cancelled");
}

#[test]
fn display_includes_context() {
    let e = CoreError::Process {
        program: "avdmanager".into(),
        code: 2,
        stderr: "no such device".into(),
    };
    let s = e.to_string();
    assert!(s.contains("avdmanager"));
    assert!(s.contains("no such device"));
}

#[test]
fn lib_error_code_is_stable() {
    assert_eq!(CoreError::NotImplemented("x").code(), "not_implemented");
}

#[test]
fn error_messages_name_what_failed() {
    let e = CoreError::Process { program: "adb".into(), code: -1, stderr: "gone".into() };
    assert_eq!(e.to_string(), "`adb` exited with -1: gone");
    assert_eq!(
        CoreError::NotFound { what: "emulator", name: "x".into() }.to_string(),
        "emulator not found: x"
    );
    assert_eq!(CoreError::Cancelled.to_string(), "operation cancelled");
}

#[test]
fn repo_paths_match_sdkmanager_package_ids() {
    assert_eq!(ComponentId::CmdlineTools.repo_path(), "cmdline-tools;latest");
    assert_eq!(ComponentId::PlatformTools.repo_path(), "platform-tools");
    assert_eq!(ComponentId::Emulator.repo_path(), "emulator");
}

#[test]
fn m1_set_is_cmdline_tools_first() {
    assert_eq!(ComponentId::m1_set()[0], ComponentId::CmdlineTools);
}

#[test]
fn host_tags_match_manifest_strings() {
    assert_eq!(HostOs::Linux.tag(), "linux");
    assert_eq!(HostOs::MacOs.tag(), "macosx");
    assert_eq!(HostOs::Windows.tag(), "windows");
    assert_eq!(HostArch::X64.tag(), "x64");
    assert_eq!(HostArch::Arm64.tag(), "aarch64");
}

#[test]
fn default_hardware_is_sane() {
    let hw = Hardware::default();
    assert!(hw.ram_mb >= 2048);
    assert!(hw.snapshots);
    assert!(!hw.cold_boot);
}

#[test]
fn coord_round_trips_through_display_and_fromstr() {
    let coord = ImageCoord::from_str(SAMPLE).expect("parse");
    assert_eq!(coord.api, 34);
    assert_eq!(coord.image_type, ImageType::GoogleApisPlaystore);
    assert_eq!(coord.abi, Abi::X86_64);
    assert_eq!(coord.to_string(), SAMPLE);
}

#[test]
fn coord_round_trips_for_every_type_and_abi() {
    let types = [
        ImageType::Default,
        ImageType::GoogleApis,
        ImageType::GoogleApisPlaystore,
        ImageType::AndroidWear,
        ImageType::AndroidTv,
        ImageType::AndroidAutomotive,
        ImageType::AndroidAutomotivePlaystore,
    ];
    let abis = [Abi::X86_64, Abi::Arm64V8a, Abi::X86, Abi::ArmeabiV7a];
    for t in types {
        for a in abis {
            let c = ImageCoord::new(30, t, a);
            let s = c.to_string();
            assert_eq!(ImageCoord::from_str(&s).expect("reparse"), c, "{s}");
        }
    }
}

#[test]
fn rejects_wrong_segment_count() {
    let err = ImageCoord::from_str("system-images;android-34;x86_64").unwrap_err();
    assert_eq!(err.code(), "parse_error");
    assert!(err.to_string().contains("4 `;`"));
}

#[test]
fn rejects_bad_prefix() {
    let err = ImageCoord::from_str("sysimages;android-34;default;x86_64").unwrap_err();
    assert!(err.to_string().contains("system-images"));
}

#[test]
fn rejects_missing_android_prefix() {
    let err = ImageCoord::from_str("system-images;34;default;x86_64").unwrap_err();
    assert!(err.to_string().contains("android-<api>"));
}

#[test]
fn rejects_non_numeric_api() {
    let err = ImageCoord::from_str("system-images;android-vanilla;default;x86_64").unwrap_err();
    assert!(err.to_string().contains("API level"));
}

#[test]
fn rejects_unknown_type_and_abi() {
    assert_eq!(
        ImageCoord::from_str("system-images;android-34;super_apis;x86_64").unwrap_err().code(),
        "parse_error"
    );
    assert_eq!(
        ImageCoord::from_str("system-images;android-34;default;risc-v").unwrap_err().code(),
        "parse_error"
    );
}

#[test]
fn play_store_and_bitness_helpers() {
    assert!(ImageType::GoogleApisPlaystore.has_play_store());
    assert!(!ImageType::GoogleApis.has_play_store());
    assert!(Abi::Arm64V8a.is_64_bit());
    assert!(!Abi::ArmeabiV7a.is_64_bit());
}

#[test]
fn api_level_overflow_is_named() {
    let err = ImageCoord::from_str("system-images;android-4294967296;default;x86_64").unwrap_err();
    assert_eq!(
        err.to_string(),
        "could not parse image coordinate: bad API level: number too large to fit in target type"
    );
}

#[test]
fn job_handle_reports_through_collector() {
    let mut handle = JobHandle::collector(JobId("j1".into()));
    assert_eq!(handle.id().0, "j1");
    handle.report(Progress::log("hello"));
    handle.report(Progress { pct: Some(50), ..Progress::empty() });
    let got = handle.reported();
    assert_eq!(got.len(), 2);
    assert_eq!(got[0].log_line.as_deref(), Some("hello"));
    assert_eq!(got[1].pct, Some(50));
}

#[test]
fn noop_handle_swallows_updates() {
    let mut h = JobHandle::noop(JobId("j2".into()));
    h.report(Progress::log("ignored"));
    assert!(h.reported().is_empty());
}

#[test]
fn taking_the_reports_empties_the_handle() {
    let mut h = JobHandle::collector(JobId("j3".into()));
    h.report(Progress::phase("Downloading"));
    let taken = h.take_reported();
    assert_eq!(taken.len(), 1);
    assert_eq!(taken[0].phase.as_deref(), Some("Downloading"));
    assert!(h.reported().is_empty());
}

fn spec() -> CreateSpec {
    CreateSpec {
        avd_name: "pixel6_api34".into(),
        display_name: "Pixel 6".into(),
        device_profile_id: "pixel_6".into(),
        image_coord: ImageCoord::new(34, ImageType::GoogleApis, Abi::X86_64),
        hardware: Hardware::default(),
    }
}

#[test]
fn totals_and_readiness() {
    let plan = Plan {
        diff: vec![
            Requirement {
                kind: RequirementKind::PlatformTools,
                status: RequirementStatus::Present,
                coord: None,
                label: "platform-tools".into(),
            },
            Requirement {
                kind: RequirementKind::SystemImage,
                status: RequirementStatus::NeedsDownload { size_bytes: Some(1_200_000_000) },
                coord: Some(ImageCoord::new(34, ImageType::GoogleApis, Abi::X86_64)),
                label: "System image".into(),
            },
        ],
        create_spec: spec(),
    };
    assert_eq!(plan.total_download_bytes(), 1_200_000_000);
    assert!(!plan.is_ready());
}

#[test]
fn ready_plan_has_no_downloads() {
    let plan = Plan {
        diff: vec![Requirement {
            kind: RequirementKind::Emulator,
            status: RequirementStatus::Present,
            coord: None,
            label: "emulator".into(),
        }],
        create_spec: spec(),
    };
    assert!(plan.is_ready());
    assert_eq!(plan.total_download_bytes(), 0);
}

#[test]
fn command_builder_shapes_argv() {
    let c = Command::new("avdmanager")
        .arg("create")
        .arg("avd")
        .args(&["-n", "pixel6"])
        .env("ANDROID_SDK_ROOT", "/sdk")
        .current_dir("/tmp");
    assert_eq!(c.program, "avdmanager");
    assert_eq!(c.args, ["create", "avd", "-n", "pixel6"]);
    assert_eq!(c.display(), "avdmanager create avd -n pixel6");
    assert_eq!(c.cwd.as_deref(), Some("/tmp"));
    assert_eq!(c.env, [("ANDROID_SDK_ROOT".to_string(), "/sdk".to_string())]);
}

#[test]
fn output_success_predicate() {
    assert!(Output { status: 0, stdout: String::new(), stderr: String::new() }.success());
    assert!(!Output { status: 1, stdout: String::new(), stderr: String::new() }.success());
}

#[test]
fn pct_progress_handles_zero_total() {
    assert_eq!(pct_progress(0, 0).pct, None);
    assert_eq!(pct_progress(50, 200).pct, Some(25));
    assert_eq!(pct_progress(999, 100).pct, Some(100));
}

#[test]
fn sanitize_avd_name_matches_the_shell_rule() {
    assert_eq!(sanitize_avd_name("Pixel 6 · API 34"), "Pixel_6___API_34");
    assert_eq!(sanitize_avd_name("clean-1.0"), "clean-1.0");
    assert_eq!(sanitize_avd_name(""), "avd");
}

#[test]
fn launch_opts_default_is_windowed_and_warm() {
    let o = LaunchOpts::default();
    assert!(!o.headless);
    assert!(!o.wipe_data);
    assert!(!o.cold_boot);
    assert!(o.graphics.is_none());
    assert!(o.extra_args.is_empty());
}

#[test]
fn java_version_parsing_handles_both_schemes() {
    assert_eq!(parse_java_major_version("openjdk version \"21\" 2023-09-19"), Some(21));
    assert_eq!(parse_java_major_version("java version \"17.0.9\" 2023-10-17"), Some(17));
    assert_eq!(parse_java_major_version("java version \"1.8.0_372\""), Some(8));
    assert_eq!(parse_java_major_version("not a version string"), None);
}

#[test]
fn marker_files_use_platform_suffix() {
    assert_eq!(marker_file(ComponentId::PlatformTools, HostOs::Windows), "platform-tools/adb.exe");
    assert_eq!(marker_file(ComponentId::PlatformTools, HostOs::Linux), "platform-tools/adb");
    assert_eq!(
        marker_file(ComponentId::CmdlineTools, HostOs::Windows),
        "cmdline-tools/latest/bin/sdkmanager.bat"
    );
}

#[test]
fn export_from_an_emulator_keeps_the_recipe_fields() {
    let emulator = Emulator {
        id: EmulatorId::from("01J000000000000000000000AB".to_string()),
        avd_name: "qa_baseline".into(),
        display_name: "QA baseline".into(),
        device_profile_id: "pixel_6".into(),
        image_coord: ImageCoord::new(34, ImageType::GoogleApis, Abi::X86_64),
        hardware: Hardware { ram_mb: 3072, storage_mb: 8192, ..Hardware::default() },
        source: EmulatorSource::Manual { discovered: false },
        tags: Vec::new(),
        notes: String::new(),
        created_at: time::OffsetDateTime::UNIX_EPOCH,
        updated_at: time::OffsetDateTime::UNIX_EPOCH,
    };
    let exported = EmuProfile::from_emulator(&emulator);
    assert_eq!(exported.name, "QA baseline");
    assert_eq!(exported.device.profile, "pixel_6");
    assert_eq!(exported.image_coord(), emulator.image_coord);
    assert_eq!(exported.hardware(), emulator.hardware);
    assert!(exported.validate().is_ok());
}
