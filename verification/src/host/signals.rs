//! [`HostSignals`]: the OS-independent facts a host probe gathers, from which the report is
//! derived.

use vstd::prelude::*;

use crate::model::host::Virtualization;

verus! {

/// Raw host facts, gathered once.
#[derive(Debug, Clone, PartialEq, Eq)]
pub struct HostSignals {
    /// `"linux"` / `"windows"` / `"macos"`.
    pub os: String,
    /// `"x86_64"` / `"aarch64"`.
    pub arch: String,
    /// Hardware-virtualization availability.
    pub virtualization: Virtualization,
    /// What the OS-specific accelerator probe found.
    pub accel: AccelSignal,
    /// Total system RAM in bytes; `0` when it could not be read.
    pub ram_bytes: u64,
    /// Free space on the data-directory volume in bytes; `0` when it could not be read.
    pub disk_free_bytes: u64,
}

/// The contents of [`HostSignals`].
pub struct HostSignalsView {
    pub os: Seq<char>,
    pub arch: Seq<char>,
    pub virtualization: Virtualization,
    pub accel: AccelSignal,
    pub ram_bytes: u64,
    pub disk_free_bytes: u64,
}

impl View for HostSignals {
    type V = HostSignalsView;

    open spec fn view(&self) -> HostSignalsView {
        HostSignalsView {
            os: self.os@,
            arch: self.arch@,
            virtualization: self.virtualization,
            accel: self.accel,
            ram_bytes: self.ram_bytes,
            disk_free_bytes: self.disk_free_bytes,
        }
    }
}

/// Outcome of the per-OS accelerator probe.
#[derive(Debug, Clone, Copy, PartialEq, Eq, Hash, Structural)]
pub enum AccelSignal {
    /// Present and usable right now.
    Ready,
    /// Present, but the current user cannot use it (Linux: not in the `kvm` group).
    NoPermission,
    /// The platform supports it but the driver or feature is not installed.
    Missing,
    /// Installed but switched off.
    Disabled,
    /// Could not determine: a soft unknown, never a hard block.
    Unknown,
}

/// What the per-OS accelerator probe saw, before it is read as signals.
#[derive(Debug, Clone, PartialEq, Eq)]
pub enum PlatformProbe {
    /// macOS: `sysctl -n kern.hv_support`, trimmed, when it ran successfully.
    Hvf(Option<String>),
    /// Linux: whether `/dev/kvm` exists, and how opening it read-write went.
    Kvm {
        /// `/dev/kvm` exists.
        exists: bool,
        /// Opening it read-write.
        open: crate::helper::KvmAccess,
    },
    /// Windows: the HypervisorPlatform feature state and the firmware virtualization flag,
    /// trimmed and lower-cased, when queried successfully.
    Whpx {
        /// `(Get-WindowsOptionalFeature … HypervisorPlatform).State`.
        feature: Option<String>,
        /// `(Get-CimInstance Win32_Processor).VirtualizationFirmwareEnabled`.
        firmware: Option<String>,
    },
    /// Any other OS.
    Other,
}

/// How a probe reads: on macOS `1` means usable (Hypervisor.framework implies CPU
/// virtualization), `0` missing; on Linux a missing `/dev/kvm` is a missing accelerator, one
/// that opens is ready, one that refuses this user is a permission problem; on Windows the
/// feature and firmware states map directly. Anything else is unknown.
pub open spec fn probe_signals(p: PlatformProbe) -> (Virtualization, AccelSignal) {
    match p {
        PlatformProbe::Hvf(hv) => match hv {
            Some(v) => if v@ == "1"@ {
                (Virtualization::Enabled, AccelSignal::Ready)
            } else if v@ == "0"@ {
                (Virtualization::Unknown, AccelSignal::Missing)
            } else {
                (Virtualization::Unknown, AccelSignal::Unknown)
            },
            None => (Virtualization::Unknown, AccelSignal::Unknown),
        },
        PlatformProbe::Kvm { exists, open } => if !exists {
            (Virtualization::Unknown, AccelSignal::Missing)
        } else {
            match open {
                crate::helper::KvmAccess::Usable => (Virtualization::Enabled, AccelSignal::Ready),
                crate::helper::KvmAccess::PermissionDenied => (
                    Virtualization::Enabled,
                    AccelSignal::NoPermission,
                ),
                crate::helper::KvmAccess::Missing => (Virtualization::Enabled, AccelSignal::Unknown),
            }
        },
        PlatformProbe::Whpx { feature, firmware } => (
            match firmware {
                Some(f) => if f@ == "true"@ {
                    Virtualization::Enabled
                } else if f@ == "false"@ {
                    Virtualization::DisabledInFirmware
                } else {
                    Virtualization::Unknown
                },
                None => Virtualization::Unknown,
            },
            match feature {
                Some(f) => if f@ == "enabled"@ {
                    AccelSignal::Ready
                } else if f@ == "disabled"@ {
                    AccelSignal::Missing
                } else {
                    AccelSignal::Unknown
                },
                None => AccelSignal::Unknown,
            },
        ),
        PlatformProbe::Other => (Virtualization::Unknown, AccelSignal::Unknown),
    }
}

/// The virtualization and accelerator signals a probe reads as.
pub fn signals_from_probe(p: &PlatformProbe) -> (r: (Virtualization, AccelSignal))
    ensures
        r == probe_signals(*p),
{
    match p {
        PlatformProbe::Hvf(hv) => match hv {
            Some(v) => if crate::text::str_eq(v.as_str(), "1") {
                (Virtualization::Enabled, AccelSignal::Ready)
            } else if crate::text::str_eq(v.as_str(), "0") {
                (Virtualization::Unknown, AccelSignal::Missing)
            } else {
                (Virtualization::Unknown, AccelSignal::Unknown)
            },
            None => (Virtualization::Unknown, AccelSignal::Unknown),
        },
        PlatformProbe::Kvm { exists, open } => if !*exists {
            (Virtualization::Unknown, AccelSignal::Missing)
        } else {
            match open {
                crate::helper::KvmAccess::Usable => (Virtualization::Enabled, AccelSignal::Ready),
                crate::helper::KvmAccess::PermissionDenied => (
                    Virtualization::Enabled,
                    AccelSignal::NoPermission,
                ),
                crate::helper::KvmAccess::Missing => (Virtualization::Enabled, AccelSignal::Unknown),
            }
        },
        PlatformProbe::Whpx { feature, firmware } => {
            let v = match firmware {
                Some(f) => if crate::text::str_eq(f.as_str(), "true") {
                    Virtualization::Enabled
                } else if crate::text::str_eq(f.as_str(), "false") {
                    Virtualization::DisabledInFirmware
                } else {
                    Virtualization::Unknown
                },
                None => Virtualization::Unknown,
            };
            let a = match feature {
                Some(f) => if crate::text::str_eq(f.as_str(), "enabled") {
                    AccelSignal::Ready
                } else if crate::text::str_eq(f.as_str(), "disabled") {
                    AccelSignal::Missing
                } else {
                    AccelSignal::Unknown
                },
                None => AccelSignal::Unknown,
            };
            (v, a)
        },
        PlatformProbe::Other => (Virtualization::Unknown, AccelSignal::Unknown),
    }
}

} // verus!
