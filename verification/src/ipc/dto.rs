//! The flat records the app hands its frontend, and how each is made from the domain values.

use vstd::prelude::*;

use crate::android::avd_list::opt_view;
use crate::android::inspect::{DeviceFacts, DeviceNetwork, NetConnection, NetInterface};
use crate::android::provider::TrackedEmulator;
use crate::model::host::{
    fix_views, AcceleratorKind, AcceleratorStatus, Fix, HostReport, Verdict, VerdictView,
    Virtualization,
};
use crate::model::emulator::RunState;

verus! {

/// Reply of the liveness check.
#[derive(Debug, Clone, PartialEq, Eq)]
pub struct Pong {
    /// Greeting echoing the caller's name.
    pub message: String,
    /// The running backend's version.
    pub version: String,
}

/// Static app metadata for the About screen.
#[derive(Debug, Clone, PartialEq, Eq)]
pub struct AppInfo {
    /// Product name.
    pub name: String,
    /// Version.
    pub version: String,
    /// Licence.
    pub license: String,
    /// Source repository.
    pub repository: String,
    /// One-line description.
    pub description: String,
    /// One short line per headline feature.
    pub features: Vec<String>,
}

/// One remediation from the host report.
#[derive(Debug, Clone, PartialEq, Eq)]
pub struct HostFixDto {
    /// Stable id.
    pub id: String,
    /// Title.
    pub title: String,
    /// Whether the helper can perform it.
    pub scriptable: bool,
    /// Whether it needs a reboot.
    pub needs_reboot: bool,
    /// Explanation.
    pub description: String,
}

/// The host-readiness picture for the Dependencies screen.
#[derive(Debug, Clone, PartialEq, Eq)]
pub struct HostReportDto {
    /// OS family.
    pub os: String,
    /// CPU architecture.
    pub arch: String,
    /// `enabled` / `disabledInFirmware` / `unknown`.
    pub virtualization: String,
    /// `kvm` / `whpx` / `aehd` / `hvf` / `none`.
    pub accelerator_kind: String,
    /// `ok` / `missing` / `noPermission` / `disabled` / `unknown`.
    pub accelerator_status: String,
    /// Free space on the data volume, in MiB (saturating at `u32::MAX`).
    pub disk_free_mb: u32,
    /// Total RAM in MiB (saturating at `u32::MAX`).
    pub ram_mb: u32,
    /// `canAccelerate` / `degraded` / `cannotRun`.
    pub verdict: String,
    /// The reason of a degraded or blocked verdict; empty otherwise.
    pub verdict_reason: String,
    /// The fixes.
    pub fixes: Vec<HostFixDto>,
}

/// The wire name of a virtualization state.
pub open spec fn virt_text(v: Virtualization) -> Seq<char> {
    match v {
        Virtualization::Enabled => "enabled"@,
        Virtualization::DisabledInFirmware => "disabledInFirmware"@,
        Virtualization::Unknown => "unknown"@,
    }
}

/// The wire name of a virtualization state.
pub fn virt_str(v: Virtualization) -> (r: &'static str)
    ensures
        r@ == virt_text(v),
{
    match v {
        Virtualization::Enabled => "enabled",
        Virtualization::DisabledInFirmware => "disabledInFirmware",
        Virtualization::Unknown => "unknown",
    }
}

/// The wire name of an accelerator kind.
pub open spec fn accel_kind_text(k: AcceleratorKind) -> Seq<char> {
    match k {
        AcceleratorKind::Kvm => "kvm"@,
        AcceleratorKind::Whpx => "whpx"@,
        AcceleratorKind::Aehd => "aehd"@,
        AcceleratorKind::Hvf => "hvf"@,
        AcceleratorKind::Software => "none"@,
    }
}

/// The wire name of an accelerator kind.
pub fn accel_kind_str(k: AcceleratorKind) -> (r: &'static str)
    ensures
        r@ == accel_kind_text(k),
{
    match k {
        AcceleratorKind::Kvm => "kvm",
        AcceleratorKind::Whpx => "whpx",
        AcceleratorKind::Aehd => "aehd",
        AcceleratorKind::Hvf => "hvf",
        AcceleratorKind::Software => "none",
    }
}

/// The wire name of an accelerator status.
pub open spec fn accel_status_text(s: AcceleratorStatus) -> Seq<char> {
    match s {
        AcceleratorStatus::Ready => "ok"@,
        AcceleratorStatus::Missing => "missing"@,
        AcceleratorStatus::NoPermission => "noPermission"@,
        AcceleratorStatus::Disabled => "disabled"@,
        AcceleratorStatus::Unknown => "unknown"@,
    }
}

/// The wire name of an accelerator status.
pub fn accel_status_str(s: AcceleratorStatus) -> (r: &'static str)
    ensures
        r@ == accel_status_text(s),
{
    match s {
        AcceleratorStatus::Ready => "ok",
        AcceleratorStatus::Missing => "missing",
        AcceleratorStatus::NoPermission => "noPermission",
        AcceleratorStatus::Disabled => "disabled",
        AcceleratorStatus::Unknown => "unknown",
    }
}

/// Bytes in whole MiB, saturating at `u32::MAX`.
pub open spec fn mb_of(bytes: u64) -> u32 {
    if bytes as int / 1048576 > u32::MAX as int {
        u32::MAX
    } else {
        (bytes as int / 1048576) as u32
    }
}

/// Bytes in whole MiB, saturating at `u32::MAX`.
pub fn mb(bytes: u64) -> (r: u32)
    ensures
        r == mb_of(bytes),
{
    let m = bytes / (1024 * 1024);
    if m > 0xffff_ffffu64 {
        0xffff_ffffu32
    } else {
        m as u32
    }
}

/// The wire name and reason of a verdict.
pub open spec fn verdict_wire(v: VerdictView) -> (Seq<char>, Seq<char>) {
    match v {
        VerdictView::CanAccelerate => ("canAccelerate"@, seq![]),
        VerdictView::Degraded(r) => ("degraded"@, r),
        VerdictView::CannotRun(r) => ("cannotRun"@, r),
    }
}

/// The contents of a [`HostFixDto`], in the domain's terms.
pub open spec fn fix_dto_matches(d: HostFixDto, f: crate::model::host::FixView) -> bool {
    d.id@ == f.id && d.title@ == f.title && d.scriptable == f.scriptable && d.needs_reboot
        == f.needs_reboot && d.description@ == f.description
}

impl HostReportDto {
    /// The flat form of a host report: enums by their wire names, sizes in MiB, the verdict
    /// split into its name and reason.
    pub fn from(r: &HostReport) -> (d: HostReportDto)
        ensures
            d.os@ == r.os@,
            d.arch@ == r.arch@,
            d.virtualization@ == virt_text(r.virtualization),
            d.accelerator_kind@ == accel_kind_text(r.accelerator.kind),
            d.accelerator_status@ == accel_status_text(r.accelerator.status),
            d.disk_free_mb == mb_of(r.disk_free_bytes),
            d.ram_mb == mb_of(r.ram_bytes),
            (d.verdict@, d.verdict_reason@) == verdict_wire(r.verdict@),
            d.fixes@.len() == r.fixes@.len(),
            forall|i: int|
                0 <= i < d.fixes@.len() ==> fix_dto_matches(
                    #[trigger] d.fixes@[i],
                    fix_views(r.fixes@)[i],
                ),
    {
        let (verdict, verdict_reason) = match &r.verdict {
            Verdict::CanAccelerate => ("canAccelerate".to_owned(), String::new()),
            Verdict::Degraded { reason } => ("degraded".to_owned(), reason.clone()),
            Verdict::CannotRun { reason } => ("cannotRun".to_owned(), reason.clone()),
        };
        let mut fixes: Vec<HostFixDto> = Vec::new();
        let n = r.fixes.len();
        let mut i: usize = 0;
        while i < n
            invariant
                i <= n,
                n == r.fixes@.len(),
                fixes@.len() == i,
                forall|k: int|
                    0 <= k < i ==> fix_dto_matches(#[trigger] fixes@[k], fix_views(r.fixes@)[k]),
            decreases n - i,
        {
            let f: &Fix = &r.fixes[i];
            fixes.push(
                HostFixDto {
                    id: f.id.clone(),
                    title: f.title.clone(),
                    scriptable: f.scriptable,
                    needs_reboot: f.needs_reboot,
                    description: f.description.clone(),
                },
            );
            i = i + 1;
        }
        HostReportDto {
            os: r.os.clone(),
            arch: r.arch.clone(),
            virtualization: virt_str(r.virtualization).to_owned(),
            accelerator_kind: accel_kind_str(r.accelerator.kind).to_owned(),
            accelerator_status: accel_status_str(r.accelerator.status).to_owned(),
            disk_free_mb: mb(r.disk_free_bytes),
            ram_mb: mb(r.ram_bytes),
            verdict,
            verdict_reason,
            fixes,
        }
    }
}

/// The parsed result of one elevated helper run.
#[derive(Debug, Clone, PartialEq, Eq)]
pub struct HelperOutcomeDto {
    /// The subcommand.
    pub command: String,
    /// `ok` / `failed` / `notApplicable` / `needsReboot`.
    pub status: String,
    /// What happened.
    pub message: String,
    /// Whether a reboot is needed.
    pub needs_reboot: bool,
}

/// One line of a device's logcat stream.
#[derive(Debug, Clone, PartialEq, Eq)]
pub struct DeviceLogLine {
    /// The emulator's id.
    pub id: String,
    /// The line.
    pub line: String,
}

/// A device's facts for the inspector.
#[derive(Debug, Clone, PartialEq, Eq)]
pub struct DeviceFactsDto {
    /// `ro.product.model`.
    pub model: Option<String>,
    /// `ro.build.version.release`.
    pub android_release: Option<String>,
    /// API level.
    pub sdk_int: Option<u32>,
    /// Battery percent.
    pub battery_pct: Option<u8>,
    /// Free space on `/data`, MB (saturating at `u32::MAX`).
    pub data_free_mb: Option<u32>,
    /// Size of `/data`, MB (saturating at `u32::MAX`).
    pub data_total_mb: Option<u32>,
}

/// An optional `u64` as `u32`, saturating.
pub open spec fn sat_u32(v: Option<u64>) -> Option<u32> {
    match v {
        Some(n) => Some(if n > u32::MAX {
            u32::MAX
        } else {
            n as u32
        }),
        None => None,
    }
}

/// An optional `u64` as `u32`, saturating.
fn sat_u32_exec(v: Option<u64>) -> (r: Option<u32>)
    ensures
        r == sat_u32(v),
{
    match v {
        Some(n) => Some(if n > 0xffff_ffffu64 {
            0xffff_ffffu32
        } else {
            n as u32
        }),
        None => None,
    }
}

impl DeviceFactsDto {
    /// The flat form of device facts (MB counts saturate at `u32::MAX`).
    pub fn from(f: DeviceFacts) -> (d: DeviceFactsDto)
        ensures
            d.model == f.model,
            d.android_release == f.android_release,
            d.sdk_int == f.sdk_int,
            d.battery_pct == f.battery_pct,
            d.data_free_mb == sat_u32(f.data_free_mb),
            d.data_total_mb == sat_u32(f.data_total_mb),
    {
        DeviceFactsDto {
            model: f.model,
            android_release: f.android_release,
            sdk_int: f.sdk_int,
            battery_pct: f.battery_pct,
            data_free_mb: sat_u32_exec(f.data_free_mb),
            data_total_mb: sat_u32_exec(f.data_total_mb),
        }
    }
}

/// One interface address for the inspector.
#[derive(Debug, Clone, PartialEq, Eq)]
pub struct NetInterfaceDto {
    /// Interface name.
    pub name: String,
    /// Address.
    pub addr: String,
}

/// One socket for the inspector.
#[derive(Debug, Clone, PartialEq, Eq)]
pub struct NetConnectionDto {
    /// `tcp` / `udp`.
    pub proto: String,
    /// Local `ip:port`.
    pub local: String,
    /// Remote `ip:port`.
    pub remote: String,
    /// TCP state; empty for UDP.
    pub state: String,
    /// Owning uid.
    pub uid: u32,
    /// Package of the uid.
    pub package: Option<String>,
}

/// A device's network state for the inspector.
#[derive(Debug, Clone, PartialEq, Eq)]
pub struct DeviceNetworkDto {
    /// Interface addresses.
    pub interfaces: Vec<NetInterfaceDto>,
    /// Sockets.
    pub connections: Vec<NetConnectionDto>,
}

impl DeviceNetworkDto {
    /// The flat form of a device's network state, entry for entry.
    pub fn from(net: DeviceNetwork) -> (d: DeviceNetworkDto)
        ensures
            d.interfaces@.len() == net.interfaces@.len(),
            forall|i: int|
                0 <= i < d.interfaces@.len() ==> (#[trigger] d.interfaces@[i]).name@
                    == net.interfaces@[i].name@ && d.interfaces@[i].addr@
                    == net.interfaces@[i].addr@,
            d.connections@.len() == net.connections@.len(),
            forall|i: int|
                0 <= i < d.connections@.len() ==> {
                    let c = #[trigger] d.connections@[i];
                    let o = net.connections@[i];
                    &&& c.proto@ == o.proto@
                    &&& c.local@ == o.local@
                    &&& c.remote@ == o.remote@
                    &&& c.state@ == o.state@
                    &&& c.uid == o.uid
                    &&& opt_view(c.package) == opt_view(o.package)
                },
    {
        let mut interfaces: Vec<NetInterfaceDto> = Vec::new();
        let n = net.interfaces.len();
        let mut i: usize = 0;
        while i < n
            invariant
                i <= n,
                n == net.interfaces@.len(),
                interfaces@.len() == i,
                forall|k: int|
                    0 <= k < i ==> (#[trigger] interfaces@[k]).name@ == net.interfaces@[k].name@
                        && interfaces@[k].addr@ == net.interfaces@[k].addr@,
            decreases n - i,
        {
            let x: &NetInterface = &net.interfaces[i];
            interfaces.push(NetInterfaceDto { name: x.name.clone(), addr: x.addr.clone() });
            i = i + 1;
        }
        let mut connections: Vec<NetConnectionDto> = Vec::new();
        let m = net.connections.len();
        let mut j: usize = 0;
        while j < m
            invariant
                j <= m,
                m == net.connections@.len(),
                connections@.len() == j,
                forall|k: int|
                    0 <= k < j ==> {
                        let c = #[trigger] connections@[k];
                        let o = net.connections@[k];
                        &&& c.proto@ == o.proto@
                        &&& c.local@ == o.local@
                        &&& c.remote@ == o.remote@
                        &&& c.state@ == o.state@
                        &&& c.uid == o.uid
                        &&& opt_view(c.package) == opt_view(o.package)
                    },
            decreases m - j,
        {
            let c: &NetConnection = &net.connections[j];
            let package = match &c.package {
                Some(p) => Some(p.clone()),
                None => None,
            };
            connections.push(
                NetConnectionDto {
                    proto: c.proto.to_owned(),
                    local: c.local.clone(),
                    remote: c.remote.clone(),
                    state: c.state.to_owned(),
                    uid: c.uid,
                    package,
                },
            );
            j = j + 1;
        }
        DeviceNetworkDto { interfaces, connections }
    }
}

/// A system image for the image picker.
#[derive(Debug, Clone, PartialEq, Eq)]
pub struct ImageInfo {
    /// The package path.
    pub coord: String,
    /// API level.
    pub api: u32,
    /// Marketing Android version.
    pub android_version: String,
    /// Image type tag.
    pub image_type: String,
    /// ABI.
    pub abi: String,
    /// Package revision.
    pub revision: String,
    /// Download size in bytes (0 when unknown, saturating at `u32::MAX`).
    pub download_size_bytes: u32,
    /// Installed locally.
    pub installed: bool,
    /// Bundles the Play Store.
    pub has_play_store: bool,
}

impl ImageInfo {
    /// The picker's record of a manifest entry, given whether it is installed.
    pub fn from_entry(entry: &crate::android::sysimg::SysImgEntry, installed: bool) -> (r: ImageInfo)
        ensures
            r.coord@ == crate::model::image::coord_text(entry.coord),
            r.api == entry.coord.api,
            r.android_version@ == crate::android::sysimg::android_version_of(entry.coord.api),
            r.image_type@ == crate::model::image::image_type_tag(entry.coord.image_type),
            r.abi@ == crate::model::image::abi_tag(entry.coord.abi),
            r.revision@ == entry.revision@,
            r.download_size_bytes == sat_u32(Some(
                match entry.size_bytes {
                    Some(n) => n,
                    None => 0u64,
                },
            ))->0,
            r.installed == installed,
            r.has_play_store == (entry.coord.image_type
                == crate::model::image::ImageType::GoogleApisPlaystore || entry.coord.image_type
                == crate::model::image::ImageType::AndroidAutomotivePlaystore),
    {
        let size: u64 = match entry.size_bytes {
            Some(n) => n,
            None => 0,
        };
        ImageInfo {
            coord: entry.coord.to_string(),
            api: entry.coord.api,
            android_version: crate::android::sysimg::android_version_name(entry.coord.api),
            image_type: entry.coord.image_type.tag().to_owned(),
            abi: entry.coord.abi.tag().to_owned(),
            revision: entry.revision.clone(),
            download_size_bytes: if size > 0xffff_ffffu64 {
                0xffff_ffffu32
            } else {
                size as u32
            },
            installed,
            has_play_store: entry.coord.image_type.has_play_store(),
        }
    }
}

/// A tracked emulator for the dashboard.
#[derive(Debug, Clone, PartialEq, Eq)]
pub struct EmulatorInfo {
    /// Our id.
    pub id: String,
    /// AVD name.
    pub avd_name: String,
    /// Display name.
    pub display_name: String,
    /// `stopped` / `booting` / `running` / `error`.
    pub state: String,
    /// Serial when running.
    pub adb_serial: Option<String>,
}

/// The dashboard's name of a run state.
pub open spec fn run_state_label_of(state: RunState) -> Seq<char> {
    match state {
        RunState::Stopped => "stopped"@,
        RunState::Booting => "booting"@,
        RunState::Running => "running"@,
        RunState::Error => "error"@,
    }
}

/// The dashboard's name of a run state.
pub fn run_state_label(state: RunState) -> (r: &'static str)
    ensures
        r@ == run_state_label_of(state),
{
    match state {
        RunState::Stopped => "stopped",
        RunState::Booting => "booting",
        RunState::Running => "running",
        RunState::Error => "error",
    }
}

impl EmulatorInfo {
    /// The dashboard record of a tracked emulator.
    pub fn from(t: &TrackedEmulator) -> (r: EmulatorInfo)
        ensures
            r.id@ == t.id.0@,
            r.avd_name@ == t.avd_name@,
            r.display_name@ == t.display_name@,
            r.state@ == run_state_label_of(t.state),
            opt_view(r.adb_serial) == opt_view(t.adb_serial),
    {
        EmulatorInfo {
            id: t.id.0.clone(),
            avd_name: t.avd_name.clone(),
            display_name: t.display_name.clone(),
            state: run_state_label(t.state).to_owned(),
            adb_serial: match &t.adb_serial {
                Some(s) => Some(s.clone()),
                None => None,
            },
        }
    }
}

/// The Create wizard's request.
#[derive(Debug, Clone, PartialEq, Eq)]
pub struct CreateEmulatorRequest {
    /// Display name.
    pub name: String,
    /// Device profile id.
    pub device_id: String,
    /// Image package path.
    pub image_coord: String,
    /// RAM in MiB.
    pub ram_mb: u32,
    /// Storage in MiB.
    pub storage_mb: u32,
    /// Launch right after creating.
    pub launch: bool,
}

/// One requirement line of a profile inspection.
#[derive(Debug, Clone, PartialEq, Eq)]
pub struct ProfileRequirement {
    /// Label.
    pub label: String,
    /// Already installed.
    pub present: bool,
    /// Bytes to download (saturating at `u32::MAX`).
    pub download_bytes: u32,
}

/// What importing a profile would do.
#[derive(Debug, Clone, PartialEq, Eq)]
pub struct ProfileInspection {
    /// Recipe name.
    pub name: String,
    /// Recipe description (empty when none).
    pub description: String,
    /// Device profile id.
    pub device_label: String,
    /// `Android API <n> · <type> · <abi>`.
    pub image_label: String,
    /// Image package path.
    pub image_coord: String,
    /// Requirement lines.
    pub requirements: Vec<ProfileRequirement>,
    /// Bytes to download in all (saturating at `u32::MAX`).
    pub total_download_bytes: u32,
    /// Nothing to download.
    pub ready: bool,
}

/// A saved profile in the list.
#[derive(Debug, Clone, PartialEq, Eq)]
pub struct ProfileSummary {
    /// Name.
    pub name: String,
    /// Description.
    pub description: String,
    /// When it was saved.
    pub created_at: String,
}

/// An SDK component for the Dependencies screen.
#[derive(Debug, Clone, PartialEq, Eq)]
pub struct ComponentInfo {
    /// Package path.
    pub id: String,
    /// Friendly name.
    pub name: String,
    /// Version.
    pub version: String,
    /// Archive size (saturating at `u32::MAX`).
    pub size_bytes: u32,
    /// Installed anywhere.
    pub installed: bool,
    /// Where it is installed.
    pub source: Option<String>,
}

} // verus!
