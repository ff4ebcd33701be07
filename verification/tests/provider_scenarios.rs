use emu_studio::android::avd_config::adopted_config;
use emu_studio::android::avd_list::AvdEntry;
use emu_studio::android::provider::{
    adoption_candidates, classify_create_avd_error, delete_outcome, image_install_check,
    is_boot_completed, launch_plan, launch_prerequisites, parse_emulator_serials, refresh_row,
    reported_avd_name, running_refusal, stop_command, stop_kill_outcome, stop_timeout_fallback,
    BootWait, LaunchOpts, RunFields, StopFallback,
};
use emu_studio::error::CoreError;
use emu_studio::model::component::ComponentId;
use emu_studio::model::emulator::{EmulatorId, EmulatorSource, Graphics, Hardware, RunState};
use emu_studio::model::image::{Abi, ImageCoord, ImageType};
use emu_studio::model::plan::CreateSpec;
use emu_studio::ports::Output;
use emu_studio::registry::row::EmulatorRow;
use emu_studio::toolchain::installed_state::{ComponentLocation, InstalledState, SdkSource};

fn ok(stdout: &str) -> Output {
    Output { status: 0, stdout: stdout.to_string(), stderr: String::new() }
}

fn failed(stderr: &str) -> Output {
    Output { status: 1, stdout: String::new(), stderr: stderr.to_string() }
}

fn coord() -> ImageCoord {
    ImageCoord::new(34, ImageType::Default, Abi::X86_64)
}

fn spec() -> CreateSpec {
    CreateSpec {
        avd_name: "pixel6_api34".to_string(),
        display_name: "Pixel 6 · API 34".to_string(),
        device_profile_id: "pixel_6".to_string(),
        image_coord: coord(),
        hardware: Hardware::default(),
    }
}

fn installed(ids: &[ComponentId]) -> InstalledState {
    InstalledState::from_found(
        ids.iter()
            .map(|id| ComponentLocation { id: *id, sdk_root: "/data/sdk".to_string(), source: SdkSource::AppManaged })
            .collect(),
    )
}

const EMULATOR: &str = "/data/sdk/emulator/emulator";

#[test]
fn launch_passes_headless_and_gpu_flags_from_opts() {
    let opts = LaunchOpts { headless: true, graphics: Some(Graphics::SwiftshaderIndirect), ..LaunchOpts::default() };
    let plan = launch_plan(EMULATOR, "pixel6_api34", &opts, "/data/sdk/skins", false);
    assert_eq!(plan.command.display(), format!("{EMULATOR} @pixel6_api34 -no-window -gpu swiftshader_indirect"));
    assert_eq!(plan.skin_note, None);
}

#[test]
fn launch_adds_skin_flags_when_the_frame_skin_is_installed() {
    let opts = LaunchOpts { skin: Some("pixel_6".to_string()), ..LaunchOpts::default() };
    let plan = launch_plan(EMULATOR, "pixel6_api34", &opts, "/data/sdk/skins", true);
    assert!(plan.command.display().contains("emulator @pixel6_api34 -skin pixel_6 -skindir /data/sdk/skins"));
    assert_eq!(plan.skin_note, None);
}

#[test]
fn launch_skips_the_skin_when_it_is_not_installed_and_says_so() {
    let opts = LaunchOpts { skin: Some("pixel_6".to_string()), ..LaunchOpts::default() };
    let plan = launch_plan(EMULATOR, "pixel6_api34", &opts, "/data/sdk/skins", false);
    assert_eq!(plan.command.display(), format!("{EMULATOR} @pixel6_api34"));
    let note = plan.skin_note.expect("a missing frame skin is called out on the log");
    assert!(note.contains("pixel_6"));
    assert!(note.contains("launching without a frame"));
}

#[test]
fn launch_fails_clearly_when_platform_tools_is_missing() {
    match launch_prerequisites(&installed(&[ComponentId::CmdlineTools, ComponentId::Emulator])) {
        Err(CoreError::Unsupported(msg)) => assert!(msg.contains("platform-tools")),
        other => panic!("no adb must refuse the launch, got {other:?}"),
    }
    match launch_prerequisites(&installed(&[ComponentId::PlatformTools])) {
        Err(CoreError::Unsupported(msg)) => assert!(msg.contains("emulator package")),
        other => panic!("no emulator must refuse the launch, got {other:?}"),
    }
    assert!(launch_prerequisites(&installed(&[ComponentId::Emulator, ComponentId::PlatformTools])).is_ok());
}

#[test]
fn boot_wait_adopts_the_first_serial_and_reads_boot_completed() {
    let mut wait = BootWait::new("pixel6_api34", 180);
    assert_eq!(wait.on_serials(&[]), None);
    let listed = parse_emulator_serials("List of devices attached\nemulator-5554\tdevice\nemulator-5556\toffline\n");
    assert_eq!(listed, ["emulator-5554", "emulator-5556"]);
    assert_eq!(wait.on_serials(&listed).as_deref(), Some("emulator-5554"));
    assert_eq!(wait.on_serials(&["emulator-5556".to_string()]).as_deref(), Some("emulator-5554"));
    assert!(is_boot_completed("1\n"));
    assert!(!is_boot_completed("0\n"));
    assert_eq!(wait.on_exit(true, 0).expect("booted"), "emulator-5554");
}

#[test]
fn launch_fails_fast_when_the_emulator_exits_before_boot() {
    let wait = BootWait::new("pixel6_api34", 180);
    let err = wait.on_exit(false, 1).unwrap_err();
    assert_eq!(err.code(), "process_failed");
    assert!(err.to_string().contains("before sys.boot_completed"));
}

#[test]
fn launch_times_out_when_boot_never_completes() {
    let err = BootWait::new("pixel6_api34", 0).timed_out();
    assert_eq!(err.code(), "process_failed");
    assert!(err.to_string().contains("did not reach sys.boot_completed"));
}

#[test]
fn stop_sends_emu_kill_to_the_matching_serial() {
    assert_eq!(reported_avd_name("pixel6_api34\nOK\n"), "pixel6_api34");
    let cmd = stop_command("/data/sdk/platform-tools/adb", "emulator-5554");
    assert!(cmd.display().contains("-s emulator-5554 emu kill"));
    assert!(stop_kill_outcome(&ok("OK: killing emulator, bye bye\n")).is_ok());
    let err = stop_kill_outcome(&failed("error: device offline")).unwrap_err();
    assert!(matches!(err, CoreError::Process { code: 1, .. }));
}

#[test]
fn stop_force_kills_when_graceful_shutdown_is_ignored() {
    assert_eq!(stop_timeout_fallback(true, "pixel6_api34", "emulator-5554", 0), StopFallback::ForceKill);
    match stop_timeout_fallback(false, "pixel6_api34", "emulator-5554", 20) {
        StopFallback::GiveUp(err) => {
            assert_eq!(err.code(), "process_failed");
            assert!(err.to_string().contains("did not exit within 20s"));
        },
        other => panic!("without a child handle there is nothing to kill, got {other:?}"),
    }
}

#[test]
fn delete_is_refused_while_running() {
    let err = running_refusal("busy", "deleting");
    assert_eq!(err.code(), "invalid");
    assert!(err.to_string().contains("stop it before deleting"));
}

#[test]
fn deleting_an_avd_already_gone_is_fine() {
    assert!(delete_outcome(&ok("")).is_ok());
    assert!(delete_outcome(&failed("Error: There is no Android Virtual Device named 'x'.")).is_ok());
    let err = delete_outcome(&failed("Error: permission denied")).unwrap_err();
    assert_eq!(err.code(), "process_failed");
}

#[test]
fn create_maps_duplicate_name_error() {
    let out = failed("Error: Android Virtual Device 'pixel6_api34' already exists.\nUse --force if you want to replace it.\nnull");
    let err = classify_create_avd_error(&spec(), &out);
    assert_eq!(err.code(), "invalid");
    assert!(err.to_string().contains("already exists locally"));
}

#[test]
fn create_maps_unknown_device_error() {
    let err = classify_create_avd_error(&spec(), &failed("Error: No device found matching --device pixel_6.\nnull"));
    assert_eq!(err.code(), "not_found");
    assert!(err.to_string().contains("pixel_6"));
}

#[test]
fn create_maps_invalid_package_error() {
    let out = failed("Error: Package path is not valid. Valid system image paths are:\nnull");
    let err = classify_create_avd_error(&spec(), &out);
    assert_eq!(err.code(), "not_found");
    assert!(err.to_string().contains("system-images;android-34;default;x86_64"));
}

#[test]
fn ensure_image_treats_a_success_with_no_marker_as_an_error() {
    let err = image_install_check(false, coord(), "/data/sdk").unwrap_err();
    assert_eq!(err.code(), "invalid");
    assert!(err.to_string().contains("not present under"));
    assert!(image_install_check(true, coord(), "/data/sdk").is_ok());
}

fn fields(state: RunState, pid: Option<u32>) -> RunFields {
    RunFields { state, adb_serial: None, grpc_port: None, pid, launched_at: None }
}

#[test]
fn reconcile_adopts_unknown_avds_and_flags_missing_or_broken_ones() {
    let entry = |name: &str, loadable: bool| AvdEntry {
        name: name.to_string(),
        device: None,
        path: None,
        tag_abi: None,
        based_on: None,
        loadable,
        error: None,
    };
    let listed = [entry("known_ok", true), entry("adopt_me", true), entry("known_broken", false)];
    let known = ["known_ok".to_string(), "known_gone".to_string(), "known_broken".to_string()];
    assert_eq!(adoption_candidates(&listed, &known), [1]);

    assert_eq!(refresh_row(&fields(RunState::Stopped, None), Some(true), None, false).fields.state, RunState::Stopped);
    assert_eq!(refresh_row(&fields(RunState::Running, Some(123)), None, None, false).fields.state, RunState::Error);
    assert_eq!(refresh_row(&fields(RunState::Stopped, None), Some(false), None, false).fields.state, RunState::Error);
}

#[test]
fn reconcile_kill_safety_resets_a_stale_running_row() {
    let crashed = refresh_row(&fields(RunState::Running, Some(4242)), Some(true), None, false);
    assert_eq!(crashed.fields.state, RunState::Stopped);
    assert_eq!(crashed.fields.pid, None);
    assert_eq!(crashed.fields.adb_serial, None);
    assert!(crashed.changed);

    let other = refresh_row(&fields(RunState::Stopped, None), Some(true), Some("emulator-5554".to_string()), true);
    assert_eq!(other.fields.state, RunState::Running);
    assert_eq!(other.fields.adb_serial.as_deref(), Some("emulator-5554"));
    assert!(other.changed);
}

#[test]
fn reconcile_reports_booting_when_not_yet_boot_completed() {
    let warming = refresh_row(&fields(RunState::Stopped, None), Some(true), Some("emulator-5554".to_string()), false);
    assert_eq!(warming.fields.state, RunState::Booting);
    let unchanged = refresh_row(&fields(RunState::Stopped, None), Some(true), None, false);
    assert!(!unchanged.changed);
}

#[test]
fn an_adopted_avd_is_enriched_from_its_config_ini() {
    let config = adopted_config(
        "avd.ini.displayname=Adopted Pixel\nhw.device.name=pixel_6\n\
         image.sysdir.1=system-images/android-30/google_apis/x86_64/\nhw.ramSize=3072\n",
    );
    let row = EmulatorRow::adopted(
        EmulatorId("01HZX".to_string()),
        "adopt_me",
        Some(config),
        time::OffsetDateTime::UNIX_EPOCH,
    );
    assert_eq!(row.avd_name, "adopt_me");
    assert_eq!(row.display_name, "Adopted Pixel");
    assert_eq!(row.device_profile_id, "pixel_6");
    assert_eq!(row.hardware.ram_mb, 3072);
    assert_eq!(
        row.image_coord.map(|c| c.to_string()).as_deref(),
        Some("system-images;android-30;google_apis;x86_64")
    );
    assert!(matches!(row.source, EmulatorSource::Manual { discovered: true }));
    assert_eq!(row.last_state, RunState::Stopped);

    let bare = EmulatorRow::adopted(EmulatorId("01HZY".to_string()), "plain", None, time::OffsetDateTime::UNIX_EPOCH);
    assert_eq!(bare.display_name, "plain");
    assert_eq!(bare.device_profile_id, "");
    assert_eq!(bare.hardware, Hardware::default());
}
