//! Reading a dropped `.emuprofile` with a specific message for each way it can be wrong, and
//! the preview shown before importing it.

use vstd::prelude::*;

use crate::android::avd_list::opt_view;
use crate::error::{code_of, message_of};
use crate::ipc::dto::{ProfileInspection, ProfileRequirement};
use crate::ipc::error::IpcError;
use crate::model::image::{abi_tag, coord_text, image_type_tag};
use crate::model::plan::{
    requirement_views, total_bytes, all_present, Plan, RequirementStatus, RequirementView,
};
use crate::model::profile::{coord_of, validation_of, EmuProfile, SCHEMA_VERSION};
use crate::model::emulator::{EmulatorSource, EmulatorSourceView};
use crate::model::plan::CreateSpec;
use crate::profile::resolve::{create_spec_of, sanitize_avd_name, sanitized};
use crate::text::{cat, cat3, decimal, str_eq, u64_to_string};

verus! {

// ---------------------------------------------------------------------------
// Reading a profile
// ---------------------------------------------------------------------------

/// The first problem with a profile's header, as `(code, message)`: no `schemaVersion`, a
/// version other than `1.0` (quoted as the document spells it), or a platform other than
/// `android`.
pub open spec fn header_problem(
    version_json: Option<Seq<char>>,
    version_str: Option<Seq<char>>,
    platform: Option<Seq<char>>,
) -> Option<(Seq<char>, Seq<char>)> {
    match version_json {
        None => Some(
            ("invalid"@, "this doesn't look like a .emuprofile (no \"schemaVersion\" field)"@),
        ),
        Some(v) => if version_str != Some("1.0"@) {
            Some(
                (
                    "unsupported"@,
                    "unsupported .emuprofile version "@ + v + " — this app understands \"1.0\""@,
                ),
            )
        } else {
            match platform {
                Some(p) => if p != "android"@ {
                    Some(("unsupported"@, "this profile targets \""@ + p + "\", not Android"@))
                } else {
                    None
                },
                None => None,
            }
        },
    }
}

/// Check a profile's header before reading the rest. `version_json` is the `schemaVersion`
/// value as JSON text (absent when the field is), `version_str` the same value when it is a
/// string, and `platform` the `platform` field when it is a string.
pub fn check_profile_header(
    version_json: Option<&str>,
    version_str: Option<&str>,
    platform: Option<&str>,
) -> (r: Result<(), IpcError>)
    ensures
        match header_problem(
            match version_json {
                Some(v) => Some(v@),
                None => None,
            },
            match version_str {
                Some(v) => Some(v@),
                None => None,
            },
            match platform {
                Some(p) => Some(p@),
                None => None,
            },
        ) {
            None => r is Ok,
            Some((c, m)) => r matches Err(e) && e.code@ == c && e.message@ == m && e.details is None,
        },
{
    let v = match version_json {
        None => {
            return Err(
                IpcError::new(
                    "invalid",
                    "this doesn't look like a .emuprofile (no \"schemaVersion\" field)",
                ),
            );
        },
        Some(v) => v,
    };
    let supported = match version_str {
        Some(s) => str_eq(s, SCHEMA_VERSION),
        None => false,
    };
    if !supported {
        let m = cat3("unsupported .emuprofile version ", v, " — this app understands \"1.0\"");
        return Err(IpcError::new("unsupported", m.as_str()));
    }
    if let Some(p) = platform {
        if !str_eq(p, "android") {
            let m = cat3("this profile targets \"", p, "\", not Android");
            return Err(IpcError::new("unsupported", m.as_str()));
        }
    }
    Ok(())
}

/// The message for bytes that are not JSON at all.
pub fn not_json_error() -> (e: IpcError)
    ensures
        e.code@ == "invalid"@,
        e.message@ == "this file isn't valid JSON — a .emuprofile is a small JSON recipe"@,
        e.details is None,
{
    IpcError::new("invalid", "this file isn't valid JSON — a .emuprofile is a small JSON recipe")
}

/// What `serde_json` reads of a profile's header: `Err` when the bytes are not JSON; else the
/// `schemaVersion` field as JSON text, the same field when it is a string, and the `platform`
/// field when it is a string (each absent when missing or not of that shape).
pub uninterp spec fn profile_header_of(bytes: Seq<u8>) -> Result<
    (Option<Seq<char>>, Option<Seq<char>>, Option<Seq<char>>),
    (),
>;

/// `serde_json::from_slice::<Value>`, then `get("schemaVersion")` (as its JSON text and as a
/// string) and `get("platform")` as a string.
#[verifier::external_body]
fn profile_header_json(bytes: &[u8]) -> (r: Result<(Option<String>, Option<String>, Option<String>), ()>)
    ensures
        match r {
            Ok((j, t, p)) => profile_header_of(bytes@) == Ok::<
                (Option<Seq<char>>, Option<Seq<char>>, Option<Seq<char>>),
                (),
            >((opt_view(j), opt_view(t), opt_view(p))),
            Err(()) => profile_header_of(bytes@) == Err::<
                (Option<Seq<char>>, Option<Seq<char>>, Option<Seq<char>>),
                (),
            >(()),
        },
{
    let value: serde_json::Value = serde_json::from_slice(bytes).map_err(|_| ())?;
    let version = value.get("schemaVersion");
    Ok((
        version.map(|v| v.to_string()),
        version.and_then(serde_json::Value::as_str).map(str::to_owned),
        value.get("platform").and_then(serde_json::Value::as_str).map(str::to_owned),
    ))
}

/// A borrowed view of an optional owned string.
fn as_opt_str(o: &Option<String>) -> (r: Option<&str>)
    ensures
        match r {
            Some(s) => *o matches Some(t) && s@ == t@,
            None => o is None,
        },
{
    match o {
        Some(t) => Some(t.as_str()),
        None => None,
    }
}

/// Check a dropped profile's header straight from its bytes: bytes that are not JSON give the
/// not-JSON error; otherwise the header is judged as [`check_profile_header`] judges it.
pub fn read_profile_header(bytes: &[u8]) -> (r: Result<(), IpcError>)
    ensures
        match profile_header_of(bytes@) {
            Err(()) => r matches Err(e) && e.code@ == "invalid"@ && e.message@
                == "this file isn't valid JSON — a .emuprofile is a small JSON recipe"@
                && e.details is None,
            Ok((j, t, p)) => match header_problem(j, t, p) {
                None => r is Ok,
                Some((c, m)) => r matches Err(e) && e.code@ == c && e.message@ == m && e.details is None,
            },
        },
{
    match profile_header_json(bytes) {
        Err(()) => Err(not_json_error()),
        Ok((j, t, p)) => check_profile_header(as_opt_str(&j), as_opt_str(&t), as_opt_str(&p)),
    }
}

/// Finish reading a profile: a field the decoder rejected is an `invalid` error quoting the
/// decoder, and a decoded profile must pass its own checks.
pub fn finish_profile(decoded: Result<EmuProfile, String>) -> (r: Result<EmuProfile, IpcError>)
    ensures
        match decoded {
            Err(d) => r matches Err(e) && e.code@ == "invalid"@ && e.message@
                == "this .emuprofile has a bad or missing field: "@ + d@ && e.details is None,
            Ok(p) => match validation_of(p@) {
                Ok(_) => r == Ok::<EmuProfile, IpcError>(p),
                Err((w, d)) => r matches Err(e) && e.code@ == "invalid"@ && e.message@
                    == "invalid "@ + w + ": "@ + d && e.details is None,
            },
        },
{
    match decoded {
        Err(d) => {
            let m = cat("this .emuprofile has a bad or missing field: ", d.as_str());
            Err(IpcError::new("invalid", m.as_str()))
        },
        Ok(p) => match p.validate() {
            Ok(()) => Ok(p),
            Err(e) => Err(IpcError::from(e)),
        },
    }
}

// ---------------------------------------------------------------------------
// Inspection
// ---------------------------------------------------------------------------

/// `n` as a `u32`, saturating.
pub open spec fn sat_u32_of(n: nat) -> u32 {
    if n > u32::MAX {
        u32::MAX
    } else {
        n as u32
    }
}

/// The requirement line shown for one requirement: present lines download nothing; the
/// others show their size when known (0 otherwise), saturating.
pub open spec fn requirement_line(r: RequirementView) -> (Seq<char>, bool, u32) {
    match r.status {
        RequirementStatus::Present => (r.label, true, 0),
        RequirementStatus::NeedsDownload { size_bytes } => (
            r.label,
            false,
            match size_bytes {
                Some(n) => sat_u32_of(n as nat),
                None => 0,
            },
        ),
    }
}

/// `Android API <n> · <type> · <abi>`.
pub open spec fn image_label_of(p: crate::model::profile::EmuProfileView) -> Seq<char> {
    "Android API "@ + decimal(p.image.api as nat) + " · "@ + image_type_tag(
        coord_of(p).image_type,
    ) + " · "@ + abi_tag(coord_of(p).abi)
}

/// The line shown for one requirement.
fn requirement_line_exec(r: &crate::model::plan::Requirement) -> (l: ProfileRequirement)
    ensures
        (l.label@, l.present, l.download_bytes) == requirement_line(r@),
{
    match r.status {
        RequirementStatus::Present => ProfileRequirement {
            label: r.label.clone(),
            present: true,
            download_bytes: 0,
        },
        RequirementStatus::NeedsDownload { size_bytes } => ProfileRequirement {
            label: r.label.clone(),
            present: false,
            download_bytes: match size_bytes {
                Some(n) => if n > 0xffff_ffffu64 {
                    0xffff_ffffu32
                } else {
                    n as u32
                },
                None => 0,
            },
        },
    }
}

/// The preview of importing `profile` under `plan` (the plan the resolver gave for it).
pub fn inspection_of(profile: &EmuProfile, plan: &Plan) -> (r: ProfileInspection)
    requires
        total_bytes(requirement_views(plan.diff@)) <= u64::MAX,
    ensures
        r.name@ == profile.name@,
        r.description@ == match profile@.description {
            Some(d) => d,
            None => Seq::<char>::empty(),
        },
        r.device_label@ == profile.device.profile@,
        r.image_label@ == image_label_of(profile@),
        r.image_coord@ == coord_text(coord_of(profile@)),
        r.requirements@.len() == plan.diff@.len(),
        forall|i: int|
            0 <= i < r.requirements@.len() ==> (
            #[trigger] r.requirements@[i].label@,
            r.requirements@[i].present,
            r.requirements@[i].download_bytes,
        ) == requirement_line(plan.diff@[i]@),
        r.total_download_bytes == sat_u32_of(total_bytes(requirement_views(plan.diff@))),
        r.ready == all_present(requirement_views(plan.diff@)),
{
    let n = plan.diff.len();
    let mut requirements: Vec<ProfileRequirement> = Vec::new();
    let mut i: usize = 0;
    while i < n
        invariant
            i <= n,
            n == plan.diff@.len(),
            requirements@.len() == i,
            forall|k: int|
                0 <= k < i ==> (
                #[trigger] requirements@[k].label@,
                requirements@[k].present,
                requirements@[k].download_bytes,
            ) == requirement_line(plan.diff@[k]@),
        decreases n - i,
    {
        let line = requirement_line_exec(&plan.diff[i]);
        requirements.push(line);
        i = i + 1;
    }
    let coord = profile.image_coord();
    let api = u64_to_string(profile.image.api as u64);
    let mut image_label = cat("Android API ", api.as_str());
    image_label.append(" · ");
    image_label.append(coord.image_type.tag());
    image_label.append(" · ");
    image_label.append(coord.abi.tag());
    let total = plan.total_download_bytes();
    ProfileInspection {
        name: profile.name.clone(),
        description: match &profile.description {
            Some(d) => d.clone(),
            None => String::new(),
        },
        device_label: profile.device.profile.clone(),
        image_label,
        image_coord: coord.to_string(),
        requirements,
        total_download_bytes: if total > 0xffff_ffffu64 {
            0xffff_ffffu32
        } else {
            total as u32
        },
        ready: plan.is_ready(),
    }
}

// ---------------------------------------------------------------------------
// Saved profiles and export
// ---------------------------------------------------------------------------

/// A saved profile's body, or `not_found` naming it.
pub fn saved_profile_or_not_found(body: Option<String>, name: &str) -> (r: Result<String, IpcError>)
    ensures
        match body {
            Some(b) => r == Ok::<String, IpcError>(b),
            None => r matches Err(e) && e.code@ == "not_found"@ && e.message@
                == "no saved profile named '"@ + name@ + "'"@ && e.details is None,
        },
{
    match body {
        Some(b) => Ok(b),
        None => {
            let m = cat3("no saved profile named '", name, "'");
            Err(IpcError::new("not_found", m.as_str()))
        },
    }
}

/// The refusal to export an emulator whose system image is unknown.
pub fn no_image_to_export() -> (e: IpcError)
    ensures
        e.code@ == "invalid"@,
        e.message@
            == "this emulator has no known system image, so it can't be saved as a profile — reconcile or recreate it first"@,
        e.details is None,
{
    IpcError::new(
        "invalid",
        "this emulator has no known system image, so it can't be saved as a profile — reconcile or recreate it first",
    )
}

// ---------------------------------------------------------------------------
// Apply
// ---------------------------------------------------------------------------

/// What importing a profile creates: the profile's create spec, the job id
/// `apply:<avd name>`, and the source stamped on the new emulator (imported, under the
/// profile's name).
pub fn apply_plan(profile: &EmuProfile) -> (r: (CreateSpec, String, EmulatorSource))
    ensures
        r.0@ == create_spec_of(profile@),
        r.1@ == "apply:"@ + sanitized(profile@.name),
        r.2@ == EmulatorSourceView::Imported(profile@.name, "imported .emuprofile"@),
{
    let avd_name = sanitize_avd_name(profile.name.as_str());
    let job_id = cat("apply:", avd_name.as_str());
    let spec = CreateSpec {
        avd_name,
        display_name: profile.name.clone(),
        device_profile_id: profile.device.profile.clone(),
        image_coord: profile.image_coord(),
        hardware: profile.hardware(),
    };
    let source = EmulatorSource::Imported {
        profile_id: profile.name.clone(),
        origin_label: "imported .emuprofile".to_owned(),
    };
    (spec, job_id, source)
}

} // verus!
