//! Tracked emulators: identity, hardware, provenance and live run state.

use vstd::prelude::*;

use crate::model::image::ImageCoord;

verus! {

/// A point in time with a UTC offset (from the `time` crate); carried through, never inspected.
#[verifier::external_type_specification]
#[verifier::external_body]
pub struct ExOffsetDateTime(time::OffsetDateTime);

/// Our stable identifier for a tracked emulator (a string unique among the registry's rows); distinct from the
/// on-disk AVD name.
#[derive(Debug, Clone, PartialEq, Eq, Hash)]
pub struct EmulatorId(pub String);

impl EmulatorId {
    /// Borrow the inner string.
    pub fn as_str(&self) -> (r: &str)
        ensures
            r@ == self.0@,
    {
        self.0.as_str()
    }

    /// Wrap a string as an id.
    pub fn from(s: String) -> (r: EmulatorId)
        ensures
            r.0@ == s@,
    {
        EmulatorId(s)
    }

    /// The id's display text: the inner string.
    pub fn to_string(&self) -> (r: String)
        ensures
            r@ == self.0@,
    {
        self.0.clone()
    }
}

/// Emulator graphics backend (the `-gpu` flag).
#[derive(Debug, Clone, Copy, PartialEq, Eq, Hash, Structural)]
pub enum Graphics {
    /// `-gpu auto`: let the emulator decide.
    Auto,
    /// `-gpu host`: use the host GPU.
    Host,
    /// `-gpu swiftshader_indirect`: software rendering.
    SwiftshaderIndirect,
}

/// Hardware configuration baked into the AVD.
#[derive(Debug, Clone, Copy, PartialEq, Eq, Hash, Structural)]
pub struct Hardware {
    /// RAM in MiB.
    pub ram_mb: u32,
    /// Userdata partition size in MiB.
    pub storage_mb: u32,
    /// Graphics backend.
    pub graphics: Graphics,
    /// Whether snapshots (quickboot) are enabled.
    pub snapshots: bool,
    /// Force a full cold boot every launch.
    pub cold_boot: bool,
    /// Show the device frame around the window.
    pub device_frame: bool,
    /// Screen density override in dpi; `None` uses the device profile default.
    pub dpi_override: Option<u32>,
}

/// The hardware a new AVD gets when nothing else is said.
pub open spec fn default_hardware() -> Hardware {
    Hardware {
        ram_mb: 2048,
        storage_mb: 6144,
        graphics: Graphics::Auto,
        snapshots: true,
        cold_boot: false,
        device_frame: true,
        dpi_override: None,
    }
}

impl Default for Hardware {
    fn default() -> (r: Hardware)
        ensures
            r == default_hardware(),
    {
        Hardware {
            ram_mb: 2048,
            storage_mb: 6144,
            graphics: Graphics::Auto,
            snapshots: true,
            cold_boot: false,
            device_frame: true,
            dpi_override: None,
        }
    }
}

/// Where a tracked emulator came from.
#[derive(Debug, Clone, PartialEq, Eq)]
pub enum EmulatorSource {
    /// Created by the user in the app, or adopted from an out-of-band AVD.
    Manual {
        /// `true` when reconciliation discovered this AVD rather than the app creating it.
        discovered: bool,
    },
    /// Created by applying a saved profile.
    FromProfile {
        /// The saved profile's id.
        profile_id: String,
    },
    /// Created by importing an external `.emuprofile`.
    Imported {
        /// The imported profile's id.
        profile_id: String,
        /// A human label for where it was imported from.
        origin_label: String,
    },
}

/// The contents of an [`EmulatorSource`].
pub enum EmulatorSourceView {
    Manual(bool),
    FromProfile(Seq<char>),
    Imported(Seq<char>, Seq<char>),
}

impl View for EmulatorSource {
    type V = EmulatorSourceView;

    open spec fn view(&self) -> EmulatorSourceView {
        match self {
            EmulatorSource::Manual { discovered } => EmulatorSourceView::Manual(*discovered),
            EmulatorSource::FromProfile { profile_id } => EmulatorSourceView::FromProfile(
                profile_id@,
            ),
            EmulatorSource::Imported { profile_id, origin_label } => EmulatorSourceView::Imported(
                profile_id@,
                origin_label@,
            ),
        }
    }
}

/// Runtime lifecycle state (never persisted).
#[derive(Debug, Clone, Copy, PartialEq, Eq, Hash, Structural)]
pub enum RunState {
    /// Not running.
    Stopped,
    /// Process started, `sys.boot_completed` not yet `1`.
    Booting,
    /// Fully booted and reachable over adb.
    Running,
    /// Crashed or failed to boot.
    Error,
}

/// Live, non-persisted facts about an emulator.
#[derive(Debug, Clone, PartialEq, Eq)]
pub struct LiveState {
    /// Which emulator this describes.
    pub id: EmulatorId,
    /// Current lifecycle state.
    pub state: RunState,
    /// adb serial (e.g. `emulator-5554`) when running.
    pub adb_serial: Option<String>,
    /// Emulator gRPC control port when running.
    pub grpc_port: Option<u16>,
    /// OS process id when running.
    pub pid: Option<u32>,
    /// Seconds since the process started, when running.
    pub uptime_secs: Option<u64>,
}

/// A tracked emulator: an AVD on disk plus the app's metadata.
#[derive(Debug, PartialEq)]
pub struct Emulator {
    /// Our id.
    pub id: EmulatorId,
    /// The on-disk AVD name.
    pub avd_name: String,
    /// Human-friendly name shown in the UI.
    pub display_name: String,
    /// The device profile this was built from.
    pub device_profile_id: String,
    /// The system image it runs.
    pub image_coord: ImageCoord,
    /// Hardware configuration.
    pub hardware: Hardware,
    /// Provenance.
    pub source: EmulatorSource,
    /// Free-form tags.
    pub tags: Vec<String>,
    /// User notes.
    pub notes: String,
    /// When the row was created.
    pub created_at: time::OffsetDateTime,
    /// When the row was last modified.
    pub updated_at: time::OffsetDateTime,
}

} // verus!
