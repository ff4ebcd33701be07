//! Jobs: tracked units of long-running work, and the progress updates they report.

use vstd::prelude::*;

verus! {

/// Identifier of a job (a ULID string in practice).
#[derive(Debug, Clone, PartialEq, Eq, Hash)]
pub struct JobId(pub String);

impl JobId {
    /// The id's display text: the inner string.
    pub fn to_string(&self) -> (r: String)
        ensures
            r@ == self.0@,
    {
        self.0.clone()
    }
}

/// What a job is doing.
#[derive(Debug, Clone, Copy, PartialEq, Eq, Hash, Structural)]
pub enum JobKind {
    /// A single file download.
    Download,
    /// Ensure a system image is installed.
    EnsureImage,
    /// Create an AVD.
    Create,
    /// Launch an emulator and wait for boot.
    Launch,
    /// Apply a profile end to end.
    ApplyProfile,
    /// Update SDK components.
    Update,
}

/// Lifecycle of a job.
#[derive(Debug, Clone, Copy, PartialEq, Eq, Hash, Structural)]
pub enum JobState {
    /// Waiting to start.
    Queued,
    /// In progress.
    Running,
    /// Finished successfully.
    Done,
    /// Finished with an error.
    Failed,
    /// Cancelled by the user.
    Cancelled,
}

/// A unit of tracked work.
#[derive(Debug, PartialEq)]
pub struct Job {
    /// Job id.
    pub id: JobId,
    /// What kind of work this is.
    pub kind: JobKind,
    /// Current state.
    pub state: JobState,
    /// Short human phase label, e.g. `"Downloading system image (2 of 3)"`.
    pub phase: String,
    /// Progress percentage in `0..=100`, or `None` when indeterminate.
    pub pct: Option<u8>,
    /// Estimated seconds remaining, when known.
    pub eta_secs: Option<u64>,
    /// When the job started running.
    pub started_at: Option<time::OffsetDateTime>,
    /// When the job reached a terminal state.
    pub finished_at: Option<time::OffsetDateTime>,
    /// Error message when the job failed.
    pub error: Option<String>,
}

/// A progress update pushed by a port while a job runs.
#[derive(Debug, Clone, PartialEq, Eq)]
pub struct Progress {
    /// New phase label, if it changed.
    pub phase: Option<String>,
    /// Bytes completed so far (for downloads).
    pub bytes_done: Option<u64>,
    /// Total bytes expected, when known.
    pub bytes_total: Option<u64>,
    /// Percentage `0..=100`, when computable.
    pub pct: Option<u8>,
    /// A single log line to append to the job's tail.
    pub log_line: Option<String>,
}

/// The contents of a [`Progress`].
pub struct ProgressView {
    pub phase: Option<Seq<char>>,
    pub bytes_done: Option<u64>,
    pub bytes_total: Option<u64>,
    pub pct: Option<u8>,
    pub log_line: Option<Seq<char>>,
}

impl View for Progress {
    type V = ProgressView;

    open spec fn view(&self) -> ProgressView {
        ProgressView {
            phase: crate::android::avd_list::opt_view(self.phase),
            bytes_done: self.bytes_done,
            bytes_total: self.bytes_total,
            pct: self.pct,
            log_line: crate::android::avd_list::opt_view(self.log_line),
        }
    }
}

impl Progress {
    /// An empty update (no fields set).
    pub fn empty() -> (r: Progress)
        ensures
            r@ == (ProgressView {
                phase: None,
                bytes_done: None,
                bytes_total: None,
                pct: None,
                log_line: None,
            }),
    {
        Progress { phase: None, bytes_done: None, bytes_total: None, pct: None, log_line: None }
    }

    /// A pure log-line update.
    pub fn log(line: &str) -> (r: Progress)
        ensures
            r@ == (ProgressView {
                phase: None,
                bytes_done: None,
                bytes_total: None,
                pct: None,
                log_line: Some(line@),
            }),
    {
        Progress {
            phase: None,
            bytes_done: None,
            bytes_total: None,
            pct: None,
            log_line: Some(line.to_owned()),
        }
    }

    /// A phase-change update.
    pub fn phase(label: &str) -> (r: Progress)
        ensures
            r@ == (ProgressView {
                phase: Some(label@),
                bytes_done: None,
                bytes_total: None,
                pct: None,
                log_line: None,
            }),
    {
        Progress {
            phase: Some(label.to_owned()),
            bytes_done: None,
            bytes_total: None,
            pct: None,
            log_line: None,
        }
    }
}

/// The views of a sequence of progress updates.
pub open spec fn progress_views(v: Seq<Progress>) -> Seq<ProgressView> {
    v.map_values(|p: Progress| p@)
}

/// Where a job's progress goes: either kept, in order, for the caller to forward (to an event
/// channel, or to a test), or dropped.
pub struct JobHandle {
    id: JobId,
    keeps: bool,
    reported: Vec<Progress>,
}

impl JobHandle {
    /// The job's id.
    pub closed spec fn id_view(&self) -> Seq<char> {
        self.id.0@
    }

    /// Whether reported updates are kept.
    pub closed spec fn keeps(&self) -> bool {
        self.keeps
    }

    /// The updates kept so far, oldest first.
    pub closed spec fn kept(&self) -> Seq<ProgressView> {
        progress_views(self.reported@)
    }

    /// A handle that drops every update, for code paths that do not care.
    pub fn noop(id: JobId) -> (r: JobHandle)
        ensures
            r.id_view() == id.0@,
            !r.keeps(),
            r.kept() == Seq::<ProgressView>::empty(),
    {
        let r = JobHandle { id, keeps: false, reported: Vec::new() };
        assert(r.kept() =~= Seq::<ProgressView>::empty());
        r
    }

    /// A handle that keeps everything reported to it.
    pub fn collector(id: JobId) -> (r: JobHandle)
        ensures
            r.id_view() == id.0@,
            r.keeps(),
            r.kept() == Seq::<ProgressView>::empty(),
    {
        let r = JobHandle { id, keeps: true, reported: Vec::new() };
        assert(r.kept() =~= Seq::<ProgressView>::empty());
        r
    }

    /// The job this handle reports to.
    pub fn id(&self) -> (r: &JobId)
        ensures
            r.0@ == self.id_view(),
    {
        &self.id
    }

    /// Report a progress update: kept at the end when the handle keeps updates, else dropped.
    pub fn report(&mut self, p: Progress)
        ensures
            final(self).id_view() == old(self).id_view(),
            final(self).keeps() == old(self).keeps(),
            final(self).kept() == if old(self).keeps() {
                old(self).kept().push(p@)
            } else {
                old(self).kept()
            },
    {
        if self.keeps {
            let ghost before = self.reported@;
            self.reported.push(p);
            assert(progress_views(self.reported@) =~= progress_views(before).push(p@));
        }
    }

    /// The updates kept so far, oldest first.
    pub fn reported(&self) -> (r: &Vec<Progress>)
        ensures
            progress_views(r@) == self.kept(),
    {
        &self.reported
    }

    /// Hand over the updates kept so far, leaving none.
    pub fn take_reported(&mut self) -> (r: Vec<Progress>)
        ensures
            progress_views(r@) == old(self).kept(),
            final(self).kept() == Seq::<ProgressView>::empty(),
            final(self).id_view() == old(self).id_view(),
            final(self).keeps() == old(self).keeps(),
    {
        let mut r: Vec<Progress> = Vec::new();
        std::mem::swap(&mut r, &mut self.reported);
        assert(progress_views(self.reported@) =~= Seq::<ProgressView>::empty());
        r
    }
}

} // verus!
