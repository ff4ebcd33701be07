//! The Dependencies screen: the component catalog merged with what is installed, picking one
//! component to install, and the job events a running install or emulator job emits.

use vstd::prelude::*;

use crate::android::avd_list::opt_view;
use crate::ipc::dto::ComponentInfo;
use crate::ipc::error::IpcError;
use crate::model::component::{repo_path_of, Component, ComponentId, ComponentView};
use crate::model::job::{Progress, ProgressView};
use crate::toolchain::installed_state::{
    location_in, ComponentLocationView, InstalledState, SdkSource, SdkSourceView,
};
use crate::text::{cat, cat3, str_eq};

verus! {

/// The id of the one toolchain install job.
pub const BOOTSTRAP_JOB_ID: &'static str = "toolchain-bootstrap";

/// The friendly name of a component.
pub open spec fn component_name_of(id: ComponentId) -> Seq<char> {
    match id {
        ComponentId::CmdlineTools => "cmdline-tools"@,
        ComponentId::PlatformTools => "platform-tools (adb)"@,
        ComponentId::Emulator => "emulator"@,
    }
}

/// The friendly name of a component.
pub fn component_name(id: ComponentId) -> (r: String)
    ensures
        r@ == component_name_of(id),
{
    match id {
        ComponentId::CmdlineTools => "cmdline-tools".to_owned(),
        ComponentId::PlatformTools => "platform-tools (adb)".to_owned(),
        ComponentId::Emulator => "emulator".to_owned(),
    }
}

/// Where a component was found, as the screen spells it.
pub open spec fn source_text(s: SdkSourceView) -> Seq<char> {
    match s {
        SdkSourceView::AppManaged => "app-managed"@,
        SdkSourceView::System(p) => "system:"@ + p,
    }
}

/// Where a component was found: `app-managed`, or `system:<path>`.
pub fn source_label(source: &SdkSource) -> (r: String)
    ensures
        r@ == source_text(source@),
{
    match source {
        SdkSource::AppManaged => "app-managed".to_owned(),
        SdkSource::System(path) => cat("system:", path.as_str()),
    }
}

/// The screen's line for one catalog component, given what is installed.
pub open spec fn info_matches(
    i: ComponentInfo,
    c: ComponentView,
    installed: Seq<ComponentLocationView>,
) -> bool {
    &&& i.id@ == repo_path_of(c.id)
    &&& i.name@ == component_name_of(c.id)
    &&& i.version@ == c.version
    &&& i.size_bytes == if c.size_bytes > u32::MAX {
        u32::MAX
    } else {
        c.size_bytes as u32
    }
    &&& i.installed == location_in(installed, c.id) is Some
    &&& opt_view(i.source) == match location_in(installed, c.id) {
        Some(l) => Some(source_text(l.source)),
        None => None,
    }
}

/// The screen's line for one catalog component.
pub fn component_info(c: &Component, state: &InstalledState) -> (r: ComponentInfo)
    ensures
        info_matches(r, c@, state@),
{
    let location = state.location_of(c.id);
    ComponentInfo {
        id: c.id.repo_path().to_owned(),
        name: component_name(c.id),
        version: c.version.clone(),
        size_bytes: if c.size_bytes > 0xffff_ffffu64 {
            0xffff_ffffu32
        } else {
            c.size_bytes as u32
        },
        installed: location.is_some(),
        source: match location {
            Some(l) => Some(source_label(&l.source)),
            None => None,
        },
    }
}

/// The whole catalog merged with installed state, in catalog order.
pub fn component_infos(catalog: &[Component], state: &InstalledState) -> (r: Vec<ComponentInfo>)
    ensures
        r@.len() == catalog@.len(),
        forall|i: int| 0 <= i < r@.len() ==> info_matches(#[trigger] r@[i], catalog@[i]@, state@),
{
    let n = catalog.len();
    let mut out: Vec<ComponentInfo> = Vec::new();
    let mut i: usize = 0;
    while i < n
        invariant
            i <= n,
            n == catalog@.len(),
            out@.len() == i,
            forall|k: int| 0 <= k < i ==> info_matches(#[trigger] out@[k], catalog@[k]@, state@),
        decreases n - i,
    {
        out.push(component_info(&catalog[i], state));
        i = i + 1;
    }
    out
}

/// The catalog entries whose package path is `id`, in order.
pub open spec fn entries_with_path(catalog: Seq<ComponentView>, id: Seq<char>) -> Seq<ComponentView>
    decreases catalog.len(),
{
    if catalog.len() == 0 {
        catalog
    } else {
        let rest = entries_with_path(catalog.drop_last(), id);
        if repo_path_of(catalog.last().id) == id {
            rest.push(catalog.last())
        } else {
            rest
        }
    }
}

/// The views of a sequence of components.
pub open spec fn component_views(v: Seq<Component>) -> Seq<ComponentView> {
    v.map_values(|c: Component| c@)
}

/// The components to install for one requested package path; none is a `not_found` error.
pub fn select_components(catalog: Vec<Component>, component_id: &str) -> (r: Result<
    Vec<Component>,
    IpcError,
>)
    ensures
        entries_with_path(component_views(catalog@), component_id@).len() == 0 ==> (r matches Err(
            e,
        ) && e.code@ == "not_found"@ && e.message@ == "no SDK component with id '"@ + component_id@
            + "'"@ && e.details is None),
        entries_with_path(component_views(catalog@), component_id@).len() > 0 ==> (r matches Ok(v)
            && component_views(v@) == entries_with_path(component_views(catalog@), component_id@)),
{
    let ghost cv = component_views(catalog@);
    let n = catalog.len();
    let mut wanted: Vec<Component> = Vec::new();
    let mut i: usize = 0;
    while i < n
        invariant
            i <= n,
            n == catalog@.len(),
            cv == component_views(catalog@),
            component_views(wanted@) == entries_with_path(cv.take(i as int), component_id@),
        decreases n - i,
    {
        assert(cv.take(i + 1).drop_last() =~= cv.take(i as int));
        assert(cv.take(i + 1).last() == catalog@[i as int]@);
        if str_eq(catalog[i].id.repo_path(), component_id) {
            let c = catalog[i].duplicate();
            let ghost before = wanted@;
            wanted.push(c);
            assert(component_views(wanted@) =~= component_views(before).push(catalog@[i as int]@));
        }
        i = i + 1;
    }
    assert(cv.take(n as int) =~= cv);
    if wanted.len() == 0 {
        let m = cat3("no SDK component with id '", component_id, "'");
        return Err(IpcError::new("not_found", m.as_str()));
    }
    Ok(wanted)
}

// ---------------------------------------------------------------------------
// Job events
// ---------------------------------------------------------------------------

/// One update of a running install or emulator job, as the frontend receives it.
#[derive(Debug, Clone, PartialEq, Eq)]
pub enum EmulatorJobKind {
    /// A phase and/or percentage update.
    Progress { phase: Option<String>, pct: Option<u8> },
    /// One log line to append to the run's tail.
    Log { line: String },
    /// The job reached a terminal state.
    Done { ok: bool, error: Option<IpcError> },
}

/// The toolchain install job emits the same updates.
pub type BootstrapProgressKind = EmulatorJobKind;

/// One event of the emulator job channel.
#[derive(Debug, Clone, PartialEq, Eq)]
pub struct EmulatorJob {
    /// `create:<avd name>`, `apply:<avd name>` or `launch:<id>`.
    pub job_id: String,
    /// The update.
    pub payload: EmulatorJobKind,
}

/// One event of the toolchain install channel.
#[derive(Debug, Clone, PartialEq, Eq)]
pub struct BootstrapProgress {
    /// Always [`BOOTSTRAP_JOB_ID`].
    pub job_id: String,
    /// The update.
    pub payload: BootstrapProgressKind,
}

/// What a progress update turns into on the wire, in order: its log line (when it has one),
/// then its phase and percentage (when it has either).
pub open spec fn events_of(p: ProgressView) -> Seq<(bool, Option<Seq<char>>, Option<u8>, Seq<char>)> {
    let logs: Seq<(bool, Option<Seq<char>>, Option<u8>, Seq<char>)> = match p.log_line {
        Some(l) => seq![(false, None, None, l)],
        None => seq![],
    };
    if p.phase is Some || p.pct is Some {
        logs.push((true, p.phase, p.pct, Seq::<char>::empty()))
    } else {
        logs
    }
}

/// The wire form of an event as `(is progress, phase, pct, log line)`; `Done` has none.
pub open spec fn event_view(e: EmulatorJobKind) -> Option<(bool, Option<Seq<char>>, Option<u8>, Seq<char>)> {
    match e {
        EmulatorJobKind::Progress { phase, pct } => Some((true, opt_view(phase), pct, Seq::<char>::empty())),
        EmulatorJobKind::Log { line } => Some((false, None, None, line@)),
        EmulatorJobKind::Done { .. } => None,
    }
}

/// The events one progress update emits.
pub fn job_events(p: Progress) -> (r: Vec<EmulatorJobKind>)
    ensures
        r@.len() == events_of(p@).len(),
        forall|i: int| 0 <= i < r@.len() ==> event_view(#[trigger] r@[i]) == Some(events_of(p@)[i]),
{
    let ghost pv = p@;
    let mut out: Vec<EmulatorJobKind> = Vec::new();
    let has_progress = p.phase.is_some() || p.pct.is_some();
    if let Some(line) = p.log_line {
        out.push(EmulatorJobKind::Log { line });
    }
    if has_progress {
        out.push(EmulatorJobKind::Progress { phase: p.phase, pct: p.pct });
    }
    assert(out@.len() == events_of(pv).len());
    out
}

/// The terminal event of a job: `ok` exactly when there is no error.
pub fn done_event(error: Option<IpcError>) -> (r: EmulatorJobKind)
    ensures
        r == (EmulatorJobKind::Done { ok: error is None, error }),
{
    let ok = error.is_none();
    EmulatorJobKind::Done { ok, error }
}

} // verus!
