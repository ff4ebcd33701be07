//! The decisions behind the app's commands: validating what the frontend sends, and shaping
//! what it gets back. Running processes, reading files and emitting events is the shell's part.

use vstd::prelude::*;

use crate::error::{message_of, CoreError};
use crate::ipc::dto::{AppInfo, CreateEmulatorRequest, Pong};
use crate::ipc::error::IpcError;
use crate::model::device::{DeviceProfile, FormFactor};
use crate::model::emulator::{default_hardware, Hardware};
use crate::model::image::{coord_parse, ImageCoord};
use crate::model::plan::{CreateSpec, CreateSpecView};
use crate::profile::resolve::{sanitize_avd_name, sanitized};
use crate::text::{cat, trim, trim_str, u64_to_string, decimal};

verus! {

/// The backend's version.
pub const APP_VERSION: &'static str = "0.1.0";

// ---------------------------------------------------------------------------
// ping / app_info
// ---------------------------------------------------------------------------

/// Liveness check: a greeting echoing the trimmed `name`, plus the backend version. A blank
/// name is an `invalid` error naming the field.
pub fn ping(name: String) -> (r: Result<Pong, IpcError>)
    ensures
        trim(name@).len() == 0 <==> r is Err,
        r matches Ok(p) ==> p.message@ == "pong, "@ + trim(name@) && p.version@ == APP_VERSION@,
        r matches Err(e) ==> e.code@ == "invalid"@ && e.message@ == "invalid "@ + "name"@ + ": "@
            + "must not be blank"@ && e.details is None,
{
    let trimmed = trim_str(name.as_str());
    if trimmed.as_str().is_empty() {
        let e = CoreError::invalid("name", "must not be blank");
        return Err(IpcError::from(e));
    }
    Ok(Pong { message: cat("pong, ", trimmed.as_str()), version: APP_VERSION.to_owned() })
}

/// The headline features, one short line each.
pub open spec fn app_features() -> Seq<Seq<char>> {
    seq![
        "Installs the Android command-line SDK (cmdline-tools, platform-tools, emulator, system images) into its own data directory — or reuses an SDK you already have."@,
        "Each SDK component installs on its own, with live download/progress and logs."@,
        "Create wizard: pick a device profile and system image, set RAM/storage, review, create — optionally launching straight away."@,
        "Dashboard tracks every emulator and its live Stopped / Booting / Running state; launch, stop, wipe, delete, rename from there."@,
        "Per-emulator detail panel with a live log console and an 'open folder' shortcut."@,
        "Registry reconciles with reality on startup and on demand — adopts AVDs made elsewhere, recovers cleanly after a crash."@,
        "Portable .emuprofile recipes: export an emulator, import one and it resolves + downloads what's missing and recreates it. Recipes carry no SDK or image bytes."@,
        "Host-readiness check: virtualization, accelerator (KVM / WHPX / AEHD / HVF), disk and RAM, with a verdict and one-click fixes via an elevated helper."@,
        "Self-updates from signed release artifacts."@,
    ]
}

/// Static app metadata for the About screen.
pub fn app_info() -> (r: AppInfo)
    ensures
        r.name@ == "Emulator Studio"@,
        r.version@ == APP_VERSION@,
        r.license@ == "UNLICENSED"@,
        r.repository@ == "https://github.com/sachinshettigar/emumanager"@,
        r.description@
            == "Create, launch, track and share Android emulators — no Android Studio, no terminal."@,
        crate::ports::string_views(r.features@) == app_features(),
{
    let features = vec![
        "Installs the Android command-line SDK (cmdline-tools, platform-tools, emulator, system images) into its own data directory — or reuses an SDK you already have.".to_owned(),
        "Each SDK component installs on its own, with live download/progress and logs.".to_owned(),
        "Create wizard: pick a device profile and system image, set RAM/storage, review, create — optionally launching straight away.".to_owned(),
        "Dashboard tracks every emulator and its live Stopped / Booting / Running state; launch, stop, wipe, delete, rename from there.".to_owned(),
        "Per-emulator detail panel with a live log console and an 'open folder' shortcut.".to_owned(),
        "Registry reconciles with reality on startup and on demand — adopts AVDs made elsewhere, recovers cleanly after a crash.".to_owned(),
        "Portable .emuprofile recipes: export an emulator, import one and it resolves + downloads what's missing and recreates it. Recipes carry no SDK or image bytes.".to_owned(),
        "Host-readiness check: virtualization, accelerator (KVM / WHPX / AEHD / HVF), disk and RAM, with a verdict and one-click fixes via an elevated helper.".to_owned(),
        "Self-updates from signed release artifacts.".to_owned(),
    ];
    assert(crate::ports::string_views(features@) =~= app_features());
    AppInfo {
        name: "Emulator Studio".to_owned(),
        version: APP_VERSION.to_owned(),
        license: "UNLICENSED".to_owned(),
        repository: "https://github.com/sachinshettigar/emumanager".to_owned(),
        description: "Create, launch, track and share Android emulators — no Android Studio, no terminal.".to_owned(),
        features,
    }
}

// ---------------------------------------------------------------------------
// Device catalog
// ---------------------------------------------------------------------------

/// The wire name of a form factor.
pub open spec fn form_factor_text(f: FormFactor) -> Seq<char> {
    match f {
        FormFactor::Phone => "phone"@,
        FormFactor::Tablet => "tablet"@,
        FormFactor::Foldable => "foldable"@,
        FormFactor::Wear => "wear"@,
        FormFactor::Tv => "tv"@,
        FormFactor::Automotive => "automotive"@,
        FormFactor::Desktop => "desktop"@,
    }
}

/// The wire name of a form factor.
pub fn form_factor_label(form_factor: FormFactor) -> (r: &'static str)
    ensures
        r@ == form_factor_text(form_factor),
{
    match form_factor {
        FormFactor::Phone => "phone",
        FormFactor::Tablet => "tablet",
        FormFactor::Foldable => "foldable",
        FormFactor::Wear => "wear",
        FormFactor::Tv => "tv",
        FormFactor::Automotive => "automotive",
        FormFactor::Desktop => "desktop",
    }
}

/// A hardware profile for the Create wizard's device step.
#[derive(Debug, Clone, PartialEq, Eq)]
pub struct DeviceInfo {
    /// `avdmanager -d` id, e.g. `pixel_6`.
    pub id: String,
    /// Human name, e.g. `Pixel 6`.
    pub name: String,
    /// Manufacturer label; empty when unknown.
    pub oem: String,
    /// Form factor's wire name.
    pub form_factor: String,
    /// Recommended RAM in MiB.
    pub ram_mb: u32,
    /// `"<width> × <height>"` in pixels.
    pub resolution: String,
    /// Screen density in dpi.
    pub density_dpi: u32,
    /// Physical diagonal in inches, as the definition spells it.
    pub diagonal_in: String,
}

impl DeviceInfo {
    /// The wizard's view of a device profile.
    pub fn from(device: &DeviceProfile) -> (r: DeviceInfo)
        ensures
            r.id@ == device.id@,
            r.name@ == device.display_name@,
            r.oem@ == device.oem@,
            r.form_factor@ == form_factor_text(device.form_factor),
            r.ram_mb == device.default_ram_mb,
            r.resolution@ == decimal(device.screen.width_px as nat) + " × "@ + decimal(
                device.screen.height_px as nat,
            ),
            r.density_dpi == device.screen.density_dpi,
            r.diagonal_in@ == device.screen.diagonal_in@,
    {
        let w = u64_to_string(device.screen.width_px as u64);
        let h = u64_to_string(device.screen.height_px as u64);
        let mut resolution = cat(w.as_str(), " × ");
        resolution.append(h.as_str());
        DeviceInfo {
            id: device.id.clone(),
            name: device.display_name.clone(),
            oem: device.oem.clone(),
            form_factor: form_factor_label(device.form_factor).to_owned(),
            ram_mb: device.default_ram_mb,
            resolution,
            density_dpi: device.screen.density_dpi,
            diagonal_in: device.screen.diagonal_in.clone(),
        }
    }
}

// ---------------------------------------------------------------------------
// create_emulator
// ---------------------------------------------------------------------------

/// What a create request asks for, once checked: the create spec (RAM at least 512 MiB,
/// storage at least 1024 MiB, the other knobs at their defaults) and the job id
/// `create:<avd name>`.
pub open spec fn create_plan_of(
    name: Seq<char>,
    device_id: Seq<char>,
    image_coord: Seq<char>,
    ram_mb: u32,
    storage_mb: u32,
) -> Result<(CreateSpecView, Seq<char>), (Seq<char>, Seq<char>)> {
    let display = trim(name);
    if display.len() == 0 {
        Err(("invalid"@, "the emulator needs a name"@))
    } else {
        match coord_parse(image_coord) {
            Err(wd) => Err(("parse_error"@, "could not parse "@ + wd.0 + ": "@ + wd.1)),
            Ok(coord) => Ok(
                (
                    CreateSpecView {
                        avd_name: sanitized(display),
                        display_name: display,
                        device_profile_id: device_id,
                        image_coord: coord,
                        hardware: Hardware {
                            ram_mb: if ram_mb < 512 {
                                512
                            } else {
                                ram_mb
                            },
                            storage_mb: if storage_mb < 1024 {
                                1024
                            } else {
                                storage_mb
                            },
                            ..default_hardware()
                        },
                    },
                    "create:"@ + sanitized(display),
                ),
            ),
        }
    }
}

/// Check a create request and turn it into the spec to create plus its job id: the trimmed
/// name must not be blank and the image coordinate must parse.
pub fn create_request_plan(request: &CreateEmulatorRequest) -> (r: Result<(CreateSpec, String), IpcError>)
    ensures
        match (r, create_plan_of(
            request.name@,
            request.device_id@,
            request.image_coord@,
            request.ram_mb,
            request.storage_mb,
        )) {
            (Ok((spec, job)), Ok((s, j))) => spec@ == s && job@ == j,
            (Err(e), Err((c, m))) => e.code@ == c && e.message@ == m && e.details is None,
            _ => false,
        },
{
    let display_name = trim_str(request.name.as_str());
    if display_name.as_str().is_empty() {
        return Err(IpcError::new("invalid", "the emulator needs a name"));
    }
    let coord = match ImageCoord::from_str(request.image_coord.as_str()) {
        Ok(c) => c,
        Err(e) => {
            let ghost ev = e;
            let r = IpcError::from(e);
            assert(r.code@ == "parse_error"@);
            return Err(r);
        },
    };
    let avd_name = sanitize_avd_name(display_name.as_str());
    let job_id = cat("create:", avd_name.as_str());
    let d = Hardware::default();
    let hardware = Hardware {
        ram_mb: if request.ram_mb < 512 {
            512
        } else {
            request.ram_mb
        },
        storage_mb: if request.storage_mb < 1024 {
            1024
        } else {
            request.storage_mb
        },
        ..d
    };
    let spec = CreateSpec {
        avd_name,
        display_name,
        device_profile_id: request.device_id.clone(),
        image_coord: coord,
        hardware,
    };
    Ok((spec, job_id))
}

} // verus!
