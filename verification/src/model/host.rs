//! Host capability model: virtualization, the accelerator and its status, the overall verdict
//! and the fixes the app can offer.

use vstd::prelude::*;

verus! {

/// Whether hardware virtualization is available.
#[derive(Debug, Clone, Copy, PartialEq, Eq, Hash, Structural)]
pub enum Virtualization {
    /// CPU virtualization present and enabled.
    Enabled,
    /// Supported by the CPU but switched off in firmware.
    DisabledInFirmware,
    /// Could not be determined.
    Unknown,
}

/// The hypervisor or acceleration layer the emulator would use.
#[derive(Debug, Clone, Copy, PartialEq, Eq, Hash, Structural)]
pub enum AcceleratorKind {
    /// Linux KVM.
    Kvm,
    /// Windows Hypervisor Platform.
    Whpx,
    /// Android Emulator Hypervisor Driver (AMD).
    Aehd,
    /// Apple Hypervisor.framework.
    Hvf,
    /// No accelerator: software only (`none` on the wire).
    Software,
}

/// Status of the chosen [`AcceleratorKind`].
#[derive(Debug, Clone, Copy, PartialEq, Eq, Hash, Structural)]
pub enum AcceleratorStatus {
    /// Ready to use (`ok` on the wire).
    Ready,
    /// Not installed, or the driver is missing.
    Missing,
    /// Present, but the current user lacks permission.
    NoPermission,
    /// Present but disabled.
    Disabled,
    /// Could not be determined.
    Unknown,
}

/// The accelerator picture for the host.
#[derive(Debug, Clone, Copy, PartialEq, Eq, Hash, Structural)]
pub struct Accelerator {
    /// Which accelerator applies on this OS and CPU.
    pub kind: AcceleratorKind,
    /// Its current status.
    pub status: AcceleratorStatus,
}

/// Overall go/no-go verdict.
#[derive(Debug, Clone, PartialEq, Eq)]
pub enum Verdict {
    /// Emulators will run with hardware acceleration.
    CanAccelerate,
    /// Emulators will run, but slowly or with caveats.
    Degraded {
        /// Why it is degraded.
        reason: String,
    },
    /// Emulators cannot run until something is fixed.
    CannotRun {
        /// What is blocking.
        reason: String,
    },
}

/// The contents of a [`Verdict`].
pub enum VerdictView {
    CanAccelerate,
    Degraded(Seq<char>),
    CannotRun(Seq<char>),
}

impl View for Verdict {
    type V = VerdictView;

    open spec fn view(&self) -> VerdictView {
        match self {
            Verdict::CanAccelerate => VerdictView::CanAccelerate,
            Verdict::Degraded { reason } => VerdictView::Degraded(reason@),
            Verdict::CannotRun { reason } => VerdictView::CannotRun(reason@),
        }
    }
}

/// A remediation the app can offer, and sometimes apply through the helper.
#[derive(Debug, Clone, PartialEq, Eq)]
pub struct Fix {
    /// Stable id, e.g. `enable-whpx`.
    pub id: String,
    /// Short imperative title.
    pub title: String,
    /// Whether the helper can perform this automatically (with elevation).
    pub scriptable: bool,
    /// Whether applying it requires a reboot.
    pub needs_reboot: bool,
    /// Full explanation, including any manual steps.
    pub description: String,
}

/// The contents of a [`Fix`].
pub struct FixView {
    pub id: Seq<char>,
    pub title: Seq<char>,
    pub scriptable: bool,
    pub needs_reboot: bool,
    pub description: Seq<char>,
}

impl View for Fix {
    type V = FixView;

    open spec fn view(&self) -> FixView {
        FixView {
            id: self.id@,
            title: self.title@,
            scriptable: self.scriptable,
            needs_reboot: self.needs_reboot,
            description: self.description@,
        }
    }
}

/// The views of a sequence of fixes.
pub open spec fn fix_views(v: Seq<Fix>) -> Seq<FixView> {
    v.map_values(|f: Fix| f@)
}

/// Snapshot of the host capabilities relevant to running emulators.
#[derive(Debug, Clone, PartialEq, Eq)]
pub struct HostReport {
    /// OS family, e.g. `"linux"`, `"windows"`, `"macos"`.
    pub os: String,
    /// CPU architecture, e.g. `"x86_64"`, `"aarch64"`.
    pub arch: String,
    /// Virtualization availability.
    pub virtualization: Virtualization,
    /// Accelerator kind and status.
    pub accelerator: Accelerator,
    /// Free disk space in the data directory's volume, in bytes.
    pub disk_free_bytes: u64,
    /// Total system RAM in bytes.
    pub ram_bytes: u64,
    /// Overall verdict.
    pub verdict: Verdict,
    /// Applicable fixes, most impactful first.
    pub fixes: Vec<Fix>,
}

/// The contents of a [`HostReport`].
pub struct HostReportView {
    pub os: Seq<char>,
    pub arch: Seq<char>,
    pub virtualization: Virtualization,
    pub accelerator: Accelerator,
    pub disk_free_bytes: u64,
    pub ram_bytes: u64,
    pub verdict: VerdictView,
    pub fixes: Seq<FixView>,
}

impl View for HostReport {
    type V = HostReportView;

    open spec fn view(&self) -> HostReportView {
        HostReportView {
            os: self.os@,
            arch: self.arch@,
            virtualization: self.virtualization,
            accelerator: self.accelerator,
            disk_free_bytes: self.disk_free_bytes,
            ram_bytes: self.ram_bytes,
            verdict: self.verdict@,
            fixes: fix_views(self.fixes@),
        }
    }
}

} // verus!
