//! [`build_report`]: the derivation of a [`HostReport`] (verdict and fixes) from
//! [`HostSignals`].

use vstd::prelude::*;

use crate::host::signals::{AccelSignal, HostSignals, HostSignalsView};
use crate::model::host::{
    fix_views, Accelerator, AcceleratorKind, AcceleratorStatus, Fix, FixView, HostReport,
    HostReportView, Verdict, VerdictView, Virtualization,
};
use crate::text::{cat, cat3, decimal, str_eq, u64_to_string};

verus! {

/// Below this an Android emulator will not boot into anything usable.
pub const RAM_FLOOR_BYTES: u64 = 4 * 1024 * 1024 * 1024;

/// Below this it boots but competes hard with everything else on the machine.
pub const RAM_LOW_BYTES: u64 = 8 * 1024 * 1024 * 1024;

/// A system image plus one AVD needs at least this much free.
pub const DISK_FLOOR_BYTES: u64 = 8 * 1024 * 1024 * 1024;

/// Below this the disk runs out after a couple of system images.
pub const DISK_LOW_BYTES: u64 = 25 * 1024 * 1024 * 1024;

/// The accelerator the Android emulator uses on an OS.
pub open spec fn kind_for(os: Seq<char>) -> AcceleratorKind {
    if os == "linux"@ {
        AcceleratorKind::Kvm
    } else if os == "macos"@ {
        AcceleratorKind::Hvf
    } else if os == "windows"@ {
        AcceleratorKind::Whpx
    } else {
        AcceleratorKind::Software
    }
}

/// The accelerator status a probe outcome stands for.
pub open spec fn status_for(sig: AccelSignal) -> AcceleratorStatus {
    match sig {
        AccelSignal::Ready => AcceleratorStatus::Ready,
        AccelSignal::NoPermission => AcceleratorStatus::NoPermission,
        AccelSignal::Missing => AcceleratorStatus::Missing,
        AccelSignal::Disabled => AcceleratorStatus::Disabled,
        AccelSignal::Unknown => AcceleratorStatus::Unknown,
    }
}

/// How messages name an accelerator.
pub open spec fn kind_label_text(kind: AcceleratorKind) -> Seq<char> {
    match kind {
        AcceleratorKind::Kvm => "KVM"@,
        AcceleratorKind::Whpx => "the Windows Hypervisor Platform"@,
        AcceleratorKind::Aehd => "AEHD"@,
        AcceleratorKind::Hvf => "Apple's Hypervisor"@,
        AcceleratorKind::Software => "hardware acceleration"@,
    }
}

/// A rough decimal-gigabyte figure with one truncated tenth, e.g. `"12.0 GB"`.
pub open spec fn gb_text(bytes: u64) -> Seq<char> {
    decimal((bytes / 1_000_000_000) as nat) + "."@ + decimal(
        ((bytes % 1_000_000_000) / 100_000_000) as nat,
    ) + " GB"@
}

/// The verdict for an accelerator kind and status on a host.
pub open spec fn verdict_of(
    kind: AcceleratorKind,
    status: AcceleratorStatus,
    s: HostSignalsView,
) -> VerdictView {
    if s.virtualization == Virtualization::DisabledInFirmware {
        VerdictView::CannotRun(
            "hardware virtualization is turned off in your firmware (BIOS/UEFI)"@,
        )
    } else if 0 < s.ram_bytes < RAM_FLOOR_BYTES {
        VerdictView::CannotRun(
            "only "@ + gb_text(s.ram_bytes) + " of RAM — an Android emulator needs at least 4 GB"@,
        )
    } else if 0 < s.disk_free_bytes < DISK_FLOOR_BYTES {
        VerdictView::CannotRun(
            "only "@ + gb_text(s.disk_free_bytes)
                + " free on the data volume — a system image plus one emulator needs about 8 GB"@,
        )
    } else if status == AcceleratorStatus::Missing {
        VerdictView::CannotRun(
            kind_label_text(kind)
                + " isn't available — an emulator would be far too slow to use without it"@,
        )
    } else if status == AcceleratorStatus::NoPermission {
        VerdictView::Degraded("your user account can't use "@ + kind_label_text(kind) + " yet"@)
    } else if status == AcceleratorStatus::Disabled {
        VerdictView::Degraded(kind_label_text(kind) + " is installed but switched off"@)
    } else if 0 < s.ram_bytes < RAM_LOW_BYTES {
        VerdictView::Degraded(
            gb_text(s.ram_bytes) + " of RAM — emulators will be tight alongside your other apps"@,
        )
    } else if 0 < s.disk_free_bytes < DISK_LOW_BYTES {
        VerdictView::Degraded(
            "only "@ + gb_text(s.disk_free_bytes)
                + " free — you may run out after a couple of system images"@,
        )
    } else {
        VerdictView::CanAccelerate
    }
}

/// A host is judged able to run accelerated emulators only when its accelerator is usable
/// (ready, or its state unknown), virtualization is on in firmware, and RAM and free disk are
/// not low. An accelerator that is missing, off limits to the user, or installed but switched
/// off is named in the verdict whenever virtualization, RAM and disk pass the hard floors.
pub proof fn lemma_verdict_needs_usable_accelerator(
    kind: AcceleratorKind,
    status: AcceleratorStatus,
    s: HostSignalsView,
)
    ensures
        verdict_of(kind, status, s) is CanAccelerate ==> {
            &&& status == AcceleratorStatus::Ready || status == AcceleratorStatus::Unknown
            &&& s.virtualization != Virtualization::DisabledInFirmware
            &&& !(0 < s.ram_bytes < RAM_LOW_BYTES)
            &&& !(0 < s.disk_free_bytes < DISK_LOW_BYTES)
        },
        ({
            let floors_pass = s.virtualization != Virtualization::DisabledInFirmware && !(0
                < s.ram_bytes < RAM_FLOOR_BYTES) && !(0 < s.disk_free_bytes < DISK_FLOOR_BYTES);
            &&& (floors_pass && status == AcceleratorStatus::Missing ==> verdict_of(kind, status, s)
                == VerdictView::CannotRun(
                kind_label_text(kind)
                    + " isn't available — an emulator would be far too slow to use without it"@,
            ))
            &&& (floors_pass && status == AcceleratorStatus::NoPermission ==> verdict_of(
                kind,
                status,
                s,
            ) == VerdictView::Degraded("your user account can't use "@ + kind_label_text(kind) + " yet"@))
            &&& (floors_pass && status == AcceleratorStatus::Disabled ==> verdict_of(kind, status, s)
                == VerdictView::Degraded(kind_label_text(kind) + " is installed but switched off"@))
        }),
        report_of(s).verdict is CanAccelerate ==> s.accel == AccelSignal::Ready || s.accel
            == AccelSignal::Unknown,
{
}

/// The firmware fix: turn virtualization on in the BIOS/UEFI.
pub open spec fn enable_virtualization_fix() -> FixView {
    FixView {
        id: "enable-virtualization"@,
        title: "Enable virtualization in your BIOS/UEFI"@,
        scriptable: false,
        needs_reboot: true,
        description: "Reboot into firmware setup and turn on Intel VT-x / AMD-V (sometimes labelled \"SVM Mode\" or \"Virtualization Technology\"). Emulator Studio can't change a firmware setting for you."@,
    }
}

/// Add the user to the `kvm` group.
pub open spec fn add_kvm_group_fix() -> FixView {
    FixView {
        id: "add-kvm-group"@,
        title: "Add your user to the kvm group"@,
        scriptable: true,
        needs_reboot: false,
        description: "Runs `sudo usermod -aG kvm $USER`. Log out and back in (or reboot) for it to take effect."@,
    }
}

/// Install the KVM packages.
pub open spec fn install_kvm_fix() -> FixView {
    FixView {
        id: "install-kvm"@,
        title: "Install KVM"@,
        scriptable: false,
        needs_reboot: false,
        description: "Install your distro's KVM packages (e.g. `qemu-kvm libvirt-daemon-system` on Debian/Ubuntu) and make sure the `kvm` kernel module is loaded."@,
    }
}

/// Turn on the Windows Hypervisor Platform.
pub open spec fn enable_whpx_fix() -> FixView {
    FixView {
        id: "enable-whpx"@,
        title: "Enable the Windows Hypervisor Platform"@,
        scriptable: true,
        needs_reboot: true,
        description: "Runs `dism /online /enable-feature /featurename:HypervisorPlatform /all /norestart`, then a reboot is required."@,
    }
}

/// Install AEHD on AMD hosts.
pub open spec fn enable_aehd_fix() -> FixView {
    FixView {
        id: "enable-aehd"@,
        title: "Install AEHD (AMD hosts)"@,
        scriptable: true,
        needs_reboot: true,
        description: "On an AMD CPU without WHPX, install the Android Emulator Hypervisor Driver (AEHD) — the HAXM successor — and reboot."@,
    }
}

/// The fix the accelerator picture calls for, if any.
pub open spec fn accel_fix(kind: AcceleratorKind, sig: AccelSignal) -> Option<FixView> {
    match (kind, sig) {
        (AcceleratorKind::Kvm, AccelSignal::NoPermission) => Some(add_kvm_group_fix()),
        (AcceleratorKind::Kvm, AccelSignal::Missing) => Some(install_kvm_fix()),
        (AcceleratorKind::Whpx, AccelSignal::Missing) => Some(enable_whpx_fix()),
        (AcceleratorKind::Whpx, AccelSignal::Disabled) => Some(enable_whpx_fix()),
        (AcceleratorKind::Whpx, AccelSignal::NoPermission) => Some(enable_aehd_fix()),
        _ => None,
    }
}

/// The fixes for a host, most impactful first: the firmware fix, then the accelerator fix.
pub open spec fn fixes_of(kind: AcceleratorKind, s: HostSignalsView) -> Seq<FixView> {
    let first: Seq<FixView> = if s.virtualization == Virtualization::DisabledInFirmware {
        seq![enable_virtualization_fix()]
    } else {
        seq![]
    };
    match accel_fix(kind, s.accel) {
        Some(f) => first.push(f),
        None => first,
    }
}

/// The full report for a host.
pub open spec fn report_of(s: HostSignalsView) -> HostReportView {
    let kind = kind_for(s.os);
    let status = status_for(s.accel);
    HostReportView {
        os: s.os,
        arch: s.arch,
        virtualization: s.virtualization,
        accelerator: Accelerator { kind, status },
        disk_free_bytes: s.disk_free_bytes,
        ram_bytes: s.ram_bytes,
        verdict: verdict_of(kind, status, s),
        fixes: fixes_of(kind, s),
    }
}

/// Turn raw signals into the full [`HostReport`] the UI renders.
pub fn build_report(s: &HostSignals) -> (r: HostReport)
    ensures
        r@ == report_of(s@),
{
    let kind = accelerator_kind_for(s.os.as_str());
    let status = accelerator_status(s.accel);
    let fixes = fixes_for(kind, s);
    let verdict = verdict_for(kind, status, s);
    HostReport {
        os: s.os.clone(),
        arch: s.arch.clone(),
        virtualization: s.virtualization,
        accelerator: Accelerator { kind, status },
        disk_free_bytes: s.disk_free_bytes,
        ram_bytes: s.ram_bytes,
        verdict,
        fixes,
    }
}

/// The accelerator the Android emulator uses on this OS.
pub fn accelerator_kind_for(os: &str) -> (r: AcceleratorKind)
    ensures
        r == kind_for(os@),
{
    if str_eq(os, "linux") {
        AcceleratorKind::Kvm
    } else if str_eq(os, "macos") {
        AcceleratorKind::Hvf
    } else if str_eq(os, "windows") {
        AcceleratorKind::Whpx
    } else {
        AcceleratorKind::Software
    }
}

/// The accelerator status a probe outcome stands for.
pub fn accelerator_status(sig: AccelSignal) -> (r: AcceleratorStatus)
    ensures
        r == status_for(sig),
{
    match sig {
        AccelSignal::Ready => AcceleratorStatus::Ready,
        AccelSignal::NoPermission => AcceleratorStatus::NoPermission,
        AccelSignal::Missing => AcceleratorStatus::Missing,
        AccelSignal::Disabled => AcceleratorStatus::Disabled,
        AccelSignal::Unknown => AcceleratorStatus::Unknown,
    }
}

/// How messages name an accelerator.
pub fn kind_label(kind: AcceleratorKind) -> (r: &'static str)
    ensures
        r@ == kind_label_text(kind),
{
    match kind {
        AcceleratorKind::Kvm => "KVM",
        AcceleratorKind::Whpx => "the Windows Hypervisor Platform",
        AcceleratorKind::Aehd => "AEHD",
        AcceleratorKind::Hvf => "Apple's Hypervisor",
        AcceleratorKind::Software => "hardware acceleration",
    }
}

/// A rough `"12.0 GB"` for a user-facing message (decimal gigabytes, tenths truncated).
pub fn gb(bytes: u64) -> (r: String)
    ensures
        r@ == gb_text(bytes),
{
    let whole = u64_to_string(bytes / 1_000_000_000);
    let tenths = u64_to_string((bytes % 1_000_000_000) / 100_000_000);
    let mut s = cat3(whole.as_str(), ".", tenths.as_str());
    s.append(" GB");
    s
}

/// The verdict for an accelerator kind and status on a host.
pub fn verdict_for(kind: AcceleratorKind, status: AcceleratorStatus, s: &HostSignals) -> (r: Verdict)
    ensures
        r@ == verdict_of(kind, status, s@),
{
    if s.virtualization == Virtualization::DisabledInFirmware {
        return Verdict::CannotRun {
            reason: "hardware virtualization is turned off in your firmware (BIOS/UEFI)".to_owned(),
        };
    }
    if s.ram_bytes > 0 && s.ram_bytes < RAM_FLOOR_BYTES {
        let g = gb(s.ram_bytes);
        return Verdict::CannotRun {
            reason: cat3("only ", g.as_str(), " of RAM — an Android emulator needs at least 4 GB"),
        };
    }
    if s.disk_free_bytes > 0 && s.disk_free_bytes < DISK_FLOOR_BYTES {
        let g = gb(s.disk_free_bytes);
        return Verdict::CannotRun {
            reason: cat3(
                "only ",
                g.as_str(),
                " free on the data volume — a system image plus one emulator needs about 8 GB",
            ),
        };
    }
    if status == AcceleratorStatus::Missing {
        return Verdict::CannotRun {
            reason: cat(
                kind_label(kind),
                " isn't available — an emulator would be far too slow to use without it",
            ),
        };
    }
    if status == AcceleratorStatus::NoPermission {
        return Verdict::Degraded {
            reason: cat3("your user account can't use ", kind_label(kind), " yet"),
        };
    }
    if status == AcceleratorStatus::Disabled {
        return Verdict::Degraded { reason: cat(kind_label(kind), " is installed but switched off") };
    }
    if s.ram_bytes > 0 && s.ram_bytes < RAM_LOW_BYTES {
        let g = gb(s.ram_bytes);
        return Verdict::Degraded {
            reason: cat(g.as_str(), " of RAM — emulators will be tight alongside your other apps"),
        };
    }
    if s.disk_free_bytes > 0 && s.disk_free_bytes < DISK_LOW_BYTES {
        let g = gb(s.disk_free_bytes);
        return Verdict::Degraded {
            reason: cat3(
                "only ",
                g.as_str(),
                " free — you may run out after a couple of system images",
            ),
        };
    }
    Verdict::CanAccelerate
}

/// A fix from its parts.
fn fix(id: &str, title: &str, scriptable: bool, needs_reboot: bool, description: &str) -> (r: Fix)
    ensures
        r@ == (FixView {
            id: id@,
            title: title@,
            scriptable,
            needs_reboot,
            description: description@,
        }),
{
    Fix {
        id: id.to_owned(),
        title: title.to_owned(),
        scriptable,
        needs_reboot,
        description: description.to_owned(),
    }
}

/// The fixes for a host, most impactful first.
pub fn fixes_for(kind: AcceleratorKind, s: &HostSignals) -> (r: Vec<Fix>)
    ensures
        fix_views(r@) == fixes_of(kind, s@),
{
    let mut fixes: Vec<Fix> = Vec::new();
    if s.virtualization == Virtualization::DisabledInFirmware {
        fixes.push(
            fix(
                "enable-virtualization",
                "Enable virtualization in your BIOS/UEFI",
                false,
                true,
                "Reboot into firmware setup and turn on Intel VT-x / AMD-V (sometimes labelled \"SVM Mode\" or \"Virtualization Technology\"). Emulator Studio can't change a firmware setting for you.",
            ),
        );
    }
    let ghost first = fix_views(fixes@);
    let extra: Option<Fix> = match (kind, s.accel) {
        (AcceleratorKind::Kvm, AccelSignal::NoPermission) => Some(
            fix(
                "add-kvm-group",
                "Add your user to the kvm group",
                true,
                false,
                "Runs `sudo usermod -aG kvm $USER`. Log out and back in (or reboot) for it to take effect.",
            ),
        ),
        (AcceleratorKind::Kvm, AccelSignal::Missing) => Some(
            fix(
                "install-kvm",
                "Install KVM",
                false,
                false,
                "Install your distro's KVM packages (e.g. `qemu-kvm libvirt-daemon-system` on Debian/Ubuntu) and make sure the `kvm` kernel module is loaded.",
            ),
        ),
        (AcceleratorKind::Whpx, AccelSignal::Missing) | (
            AcceleratorKind::Whpx,
            AccelSignal::Disabled,
        ) => Some(
            fix(
                "enable-whpx",
                "Enable the Windows Hypervisor Platform",
                true,
                true,
                "Runs `dism /online /enable-feature /featurename:HypervisorPlatform /all /norestart`, then a reboot is required.",
            ),
        ),
        (AcceleratorKind::Whpx, AccelSignal::NoPermission) => Some(
            fix(
                "enable-aehd",
                "Install AEHD (AMD hosts)",
                true,
                true,
                "On an AMD CPU without WHPX, install the Android Emulator Hypervisor Driver (AEHD) — the HAXM successor — and reboot.",
            ),
        ),
        _ => None,
    };
    match extra {
        Some(f) => {
            fixes.push(f);
            assert(fix_views(fixes@) =~= first.push(f@));
        },
        None => {},
    }
    assert(fix_views(fixes@) =~= fixes_of(kind, s@));
    fixes
}

/// A host is blocked exactly when virtualization is off in firmware, the known RAM or free disk
/// is under its floor, or the accelerator is missing; an unknown (zero) amount never blocks.
pub proof fn lemma_cannot_run_exactly(s: HostSignalsView)
    ensures
        (report_of(s).verdict is CannotRun) <==> (s.virtualization
            == Virtualization::DisabledInFirmware || 0 < s.ram_bytes < RAM_FLOOR_BYTES || 0
            < s.disk_free_bytes < DISK_FLOOR_BYTES || s.accel == AccelSignal::Missing),
{
}

/// Virtualization switched off in firmware means the host cannot run, and the firmware fix is
/// offered first; the app cannot apply it, and it needs a reboot.
pub proof fn lemma_firmware_off_blocks_with_fix(s: HostSignalsView)
    requires
        s.virtualization == Virtualization::DisabledInFirmware,
    ensures
        report_of(s).verdict is CannotRun,
        report_of(s).fixes.len() >= 1,
        report_of(s).fixes[0] == enable_virtualization_fix(),
        !report_of(s).fixes[0].scriptable,
        report_of(s).fixes[0].needs_reboot,
{
}

/// With nothing known to be wrong (virtualization not switched off, accelerator status
/// unknown, RAM and disk unread), the host can accelerate.
pub proof fn lemma_unknown_signals_do_not_block(s: HostSignalsView)
    requires
        s.virtualization != Virtualization::DisabledInFirmware,
        s.accel == AccelSignal::Unknown,
        s.ram_bytes == 0,
        s.disk_free_bytes == 0,
    ensures
        report_of(s).verdict == VerdictView::CanAccelerate,
{
}

/// The firmware fix is offered exactly when virtualization is off in firmware, and a host has
/// at most two fixes.
pub proof fn lemma_firmware_fix_iff(s: HostSignalsView)
    ensures
        report_of(s).fixes.len() <= 2,
        (exists|i: int|
            0 <= i < report_of(s).fixes.len() && #[trigger] report_of(s).fixes[i].id
                == "enable-virtualization"@) <==> s.virtualization
            == Virtualization::DisabledInFirmware,
{
    reveal_strlit("enable-virtualization");
    reveal_strlit("add-kvm-group");
    reveal_strlit("install-kvm");
    reveal_strlit("enable-whpx");
    reveal_strlit("enable-aehd");
    let fs = report_of(s).fixes;
    if s.virtualization == Virtualization::DisabledInFirmware {
        assert(fs[0].id == "enable-virtualization"@);
    } else {
        assert forall|i: int| 0 <= i < fs.len() implies fs[i].id != "enable-virtualization"@ by {
            assert(fs.len() <= 1);
            assert(fs[i].id.len() != 21 || fs[i].id[0] != 'e' || fs[i].id[7] != 'v');
        }
    }
}

} // verus!
