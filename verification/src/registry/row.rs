//! Typed registry records: a tracked emulator as stored, and the stored spelling of its run
//! state.

use vstd::prelude::*;

use crate::android::avd_config::AdoptedConfig;
use crate::error::{parsed_as, CoreError};
use crate::model::emulator::{
    default_hardware, EmulatorId, EmulatorSource, Hardware, RunState,
};
use crate::model::image::{coord_text, ImageCoord};
use crate::text::{cat, str_eq};

verus! {

/// A tracked emulator as stored in the registry.
#[derive(Debug, PartialEq)]
pub struct EmulatorRow {
    /// Our stable id (unique among the rows).
    pub id: EmulatorId,
    /// On-disk AVD directory name (unique).
    pub avd_name: String,
    /// Human-friendly name shown in the UI.
    pub display_name: String,
    /// Device profile the AVD was built from (empty when unknown).
    pub device_profile_id: String,
    /// System image coordinate; `None` when unset or unreadable.
    pub image_coord: Option<ImageCoord>,
    /// Hardware configuration.
    pub hardware: Hardware,
    /// Provenance.
    pub source: EmulatorSource,
    /// Free-form tags.
    pub tags: Vec<String>,
    /// User notes.
    pub notes: String,
    /// Last known lifecycle state.
    pub last_state: RunState,
    /// adb serial from the last probe, when running.
    pub adb_serial: Option<String>,
    /// Emulator gRPC control port from the last probe, when known.
    pub grpc_port: Option<u16>,
    /// OS process id of the emulator this app launched.
    pub pid: Option<u32>,
    /// When the row was created.
    pub created_at: time::OffsetDateTime,
    /// When the row was last modified.
    pub updated_at: time::OffsetDateTime,
    /// When the emulator was last launched, when known.
    pub launched_at: Option<time::OffsetDateTime>,
}

/// The stored fields of a row adopted for the AVD `avd_name`: that id and AVD name, marked
/// discovered, default hardware and no image; then, from its `config.ini` facts when read, the
/// display name (else the AVD name), device profile (else empty), image and RAM; no tags, no
/// notes, created at `now`.
pub open spec fn adopted_identity(
    r: EmulatorRow,
    id: EmulatorId,
    avd_name: Seq<char>,
    config: Option<AdoptedConfig>,
    now: time::OffsetDateTime,
) -> bool {
    &&& r.id == id
    &&& r.avd_name@ == avd_name
    &&& r.display_name@ == match config {
        Some(c) => match c.display_name {
            Some(d) => d@,
            None => avd_name,
        },
        None => avd_name,
    }
    &&& r.device_profile_id@ == match config {
        Some(c) => match c.device_profile_id {
            Some(d) => d@,
            None => Seq::<char>::empty(),
        },
        None => Seq::<char>::empty(),
    }
    &&& r.image_coord == match config {
        Some(c) => c.image_coord,
        None => None,
    }
    &&& r.hardware == (Hardware {
        ram_mb: match config {
            Some(c) => match c.ram_mb {
                Some(m) => m,
                None => default_hardware().ram_mb,
            },
            None => default_hardware().ram_mb,
        },
        ..default_hardware()
    })
    &&& r.source == (EmulatorSource::Manual { discovered: true })
    &&& r.tags@.len() == 0
    &&& r.notes@.len() == 0
    &&& r.created_at == now
}

/// A freshly adopted row: its stored fields as [`adopted_identity`] says, stopped, with no
/// serial, port, pid or launch time, last updated at `now`.
pub open spec fn is_adopted(
    r: EmulatorRow,
    id: EmulatorId,
    avd_name: Seq<char>,
    config: Option<AdoptedConfig>,
    now: time::OffsetDateTime,
) -> bool {
    &&& adopted_identity(r, id, avd_name, config, now)
    &&& r.last_state == RunState::Stopped
    &&& r.adb_serial is None && r.grpc_port is None && r.pid is None && r.launched_at is None
    &&& r.updated_at == now
}

impl EmulatorRow {
    /// A new row for a freshly created emulator: stopped, no live-run fields, both timestamps
    /// `now`.
    pub fn new(
        id: EmulatorId,
        avd_name: String,
        display_name: String,
        device_profile_id: String,
        image_coord: ImageCoord,
        hardware: Hardware,
        source: EmulatorSource,
        now: time::OffsetDateTime,
    ) -> (r: EmulatorRow)
        ensures
            r.id == id,
            r.avd_name == avd_name,
            r.display_name == display_name,
            r.device_profile_id == device_profile_id,
            r.image_coord == Some(image_coord),
            r.hardware == hardware,
            r.source == source,
            r.tags@.len() == 0,
            r.notes@.len() == 0,
            r.last_state == RunState::Stopped,
            r.adb_serial is None,
            r.grpc_port is None,
            r.pid is None,
            r.created_at == now,
            r.updated_at == now,
            r.launched_at is None,
    {
        EmulatorRow {
            id,
            avd_name,
            display_name,
            device_profile_id,
            image_coord: Some(image_coord),
            hardware,
            source,
            tags: Vec::new(),
            notes: String::new(),
            last_state: RunState::Stopped,
            adb_serial: None,
            grpc_port: None,
            pid: None,
            created_at: now,
            updated_at: now,
            launched_at: None,
        }
    }

    /// The row for an AVD reconciliation just discovered on disk: named after the AVD, stopped,
    /// marked discovered, with default hardware; then enriched from its `config.ini` when that
    /// could be read (display name, device profile, image and RAM, each only when present).
    pub fn adopted(
        id: EmulatorId,
        avd_name: &str,
        config: Option<AdoptedConfig>,
        now: time::OffsetDateTime,
    ) -> (r: EmulatorRow)
        ensures
            is_adopted(r, id, avd_name@, config, now),
    {
        let mut row = EmulatorRow {
            id,
            avd_name: avd_name.to_owned(),
            display_name: avd_name.to_owned(),
            device_profile_id: String::new(),
            image_coord: None,
            hardware: Hardware::default(),
            source: EmulatorSource::Manual { discovered: true },
            tags: Vec::new(),
            notes: String::new(),
            last_state: RunState::Stopped,
            adb_serial: None,
            grpc_port: None,
            pid: None,
            created_at: now,
            updated_at: now,
            launched_at: None,
        };
        if let Some(c) = config {
            if let Some(d) = c.display_name {
                row.display_name = d;
            }
            if let Some(d) = c.device_profile_id {
                row.device_profile_id = d;
            }
            row.image_coord = c.image_coord;
            if let Some(m) = c.ram_mb {
                row.hardware.ram_mb = m;
            }
        }
        row
    }

    /// The image coordinate as stored: its package path, or empty for none.
    pub fn image_coord_str(&self) -> (r: String)
        ensures
            r@ == match self.image_coord {
                Some(c) => coord_text(c),
                None => Seq::<char>::empty(),
            },
    {
        match &self.image_coord {
            Some(c) => c.to_string(),
            None => String::new(),
        }
    }
}

/// The stored spelling of a run state (lower case).
pub open spec fn run_state_text(state: RunState) -> Seq<char> {
    match state {
        RunState::Stopped => "stopped"@,
        RunState::Booting => "booting"@,
        RunState::Running => "running"@,
        RunState::Error => "error"@,
    }
}

/// `str`'s `Debug` text: the string quoted, with quotes, backslashes and control characters
/// escaped.
pub uninterp spec fn str_debug(s: Seq<char>) -> Seq<char>;

/// `format!("{s:?}")`: the `Debug` rendering of a string slice.
#[verifier::external_body]
fn debug_quoted(s: &str) -> (r: String)
    ensures
        r@ == str_debug(s@),
{
    format!("{s:?}")
}

/// Reading a stored run state; anything else is a parse error naming the text.
pub open spec fn run_state_parse(s: Seq<char>) -> Result<RunState, (Seq<char>, Seq<char>)> {
    if s == "stopped"@ {
        Ok(RunState::Stopped)
    } else if s == "booting"@ {
        Ok(RunState::Booting)
    } else if s == "running"@ {
        Ok(RunState::Running)
    } else if s == "error"@ {
        Ok(RunState::Error)
    } else {
        Err(("registry last_state"@, "unknown run state "@ + str_debug(s)))
    }
}

/// The stored spelling of a run state.
pub fn run_state_str(state: RunState) -> (r: &'static str)
    ensures
        r@ == run_state_text(state),
{
    match state {
        RunState::Stopped => "stopped",
        RunState::Booting => "booting",
        RunState::Running => "running",
        RunState::Error => "error",
    }
}

/// Read a stored run state.
pub fn parse_run_state(s: &str) -> (r: Result<RunState, CoreError>)
    ensures
        parsed_as(r, run_state_parse(s@)),
{
    if str_eq(s, "stopped") {
        Ok(RunState::Stopped)
    } else if str_eq(s, "booting") {
        Ok(RunState::Booting)
    } else if str_eq(s, "running") {
        Ok(RunState::Running)
    } else if str_eq(s, "error") {
        Ok(RunState::Error)
    } else {
        let q = debug_quoted(s);
        let d = cat("unknown run state ", q.as_str());
        Err(CoreError::parse("registry last_state", d.as_str()))
    }
}

/// A run state's stored spelling reads back as the same run state.
pub proof fn lemma_run_state_round_trip(state: RunState)
    ensures
        run_state_parse(run_state_text(state)) == Ok::<RunState, (Seq<char>, Seq<char>)>(state),
{
    reveal_strlit("stopped");
    reveal_strlit("booting");
    reveal_strlit("running");
    reveal_strlit("error");
    assert("stopped"@.len() == 7);
    assert("booting"@.len() == 7);
    assert("running"@.len() == 7);
    assert("error"@.len() == 5);
    assert("stopped"@ != "booting"@) by {
        assert("stopped"@[0] != "booting"@[0]);
    }
    assert("stopped"@ != "running"@) by {
        assert("stopped"@[0] != "running"@[0]);
    }
    assert("booting"@ != "running"@) by {
        assert("booting"@[0] != "running"@[0]);
    }
}

} // verus!
