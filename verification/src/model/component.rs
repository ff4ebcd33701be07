//! SDK components (outside system images) and the host coordinates their archives are
//! published for.

use vstd::prelude::*;

verus! {

/// One of the SDK components the app manages outside of system images.
#[derive(Debug, Clone, Copy, PartialEq, Eq, Hash, Structural)]
pub enum ComponentId {
    /// `cmdline-tools;latest`: ships `sdkmanager` and `avdmanager`.
    CmdlineTools,
    /// `platform-tools`: ships `adb`.
    PlatformTools,
    /// `emulator`: ships the `emulator` binary.
    Emulator,
}

/// The `sdkmanager` package path of a component.
pub open spec fn repo_path_of(id: ComponentId) -> Seq<char> {
    match id {
        ComponentId::CmdlineTools => "cmdline-tools;latest"@,
        ComponentId::PlatformTools => "platform-tools"@,
        ComponentId::Emulator => "emulator"@,
    }
}

impl ComponentId {
    /// The exact `sdkmanager` package path (the manifest's `<remotePackage path="...">`).
    pub fn repo_path(self) -> (r: &'static str)
        ensures
            r@ == repo_path_of(self),
    {
        match self {
            ComponentId::CmdlineTools => "cmdline-tools;latest",
            ComponentId::PlatformTools => "platform-tools",
            ComponentId::Emulator => "emulator",
        }
    }

    /// Every component the toolchain bootstraps, in install order (`cmdline-tools` first).
    pub fn m1_set() -> (r: [ComponentId; 3])
        ensures
            r@ == seq![ComponentId::CmdlineTools, ComponentId::PlatformTools, ComponentId::Emulator],
    {
        let r = [ComponentId::CmdlineTools, ComponentId::PlatformTools, ComponentId::Emulator];
        assert(r@ =~= seq![ComponentId::CmdlineTools, ComponentId::PlatformTools, ComponentId::Emulator]);
        r
    }
}

/// Host operating system, as Google's repository manifest spells it in `<host-os>`.
#[derive(Debug, Clone, Copy, PartialEq, Eq, Hash, Structural)]
pub enum HostOs {
    /// `linux`.
    Linux,
    /// `macosx`.
    MacOs,
    /// `windows`.
    Windows,
}

/// The `<host-os>` text of an OS.
pub open spec fn host_os_tag(os: HostOs) -> Seq<char> {
    match os {
        HostOs::Linux => "linux"@,
        HostOs::MacOs => "macosx"@,
        HostOs::Windows => "windows"@,
    }
}

/// The OS a Rust target's `std::env::consts::OS` names, if the SDK publishes archives for it.
pub open spec fn host_os_for(os: Seq<char>) -> Option<HostOs> {
    if os == "linux"@ {
        Some(HostOs::Linux)
    } else if os == "macos"@ {
        Some(HostOs::MacOs)
    } else if os == "windows"@ {
        Some(HostOs::Windows)
    } else {
        None
    }
}

impl HostOs {
    /// The exact `<host-os>` tag text.
    pub fn tag(self) -> (r: &'static str)
        ensures
            r@ == host_os_tag(self),
    {
        match self {
            HostOs::Linux => "linux",
            HostOs::MacOs => "macosx",
            HostOs::Windows => "windows",
        }
    }

    /// The host OS for a `std::env::consts::OS` value; `None` for an OS the SDK does not
    /// publish archives for.
    pub fn from_os_name(os: &str) -> (r: Option<HostOs>)
        ensures
            r == host_os_for(os@),
    {
        if crate::text::str_eq(os, "linux") {
            Some(HostOs::Linux)
        } else if crate::text::str_eq(os, "macos") {
            Some(HostOs::MacOs)
        } else if crate::text::str_eq(os, "windows") {
            Some(HostOs::Windows)
        } else {
            None
        }
    }
}

/// Host CPU architecture, as Google's repository manifest spells it in `<host-arch>`.
#[derive(Debug, Clone, Copy, PartialEq, Eq, Hash, Structural)]
pub enum HostArch {
    /// `x64`.
    X64,
    /// `aarch64`.
    Arm64,
}

/// The `<host-arch>` text of an architecture.
pub open spec fn host_arch_tag(arch: HostArch) -> Seq<char> {
    match arch {
        HostArch::X64 => "x64"@,
        HostArch::Arm64 => "aarch64"@,
    }
}

/// The architecture a Rust target's `std::env::consts::ARCH` names, if the SDK publishes
/// archives for it.
pub open spec fn host_arch_for(arch: Seq<char>) -> Option<HostArch> {
    if arch == "x86_64"@ {
        Some(HostArch::X64)
    } else if arch == "aarch64"@ {
        Some(HostArch::Arm64)
    } else {
        None
    }
}

impl HostArch {
    /// The exact `<host-arch>` tag text.
    pub fn tag(self) -> (r: &'static str)
        ensures
            r@ == host_arch_tag(self),
    {
        match self {
            HostArch::X64 => "x64",
            HostArch::Arm64 => "aarch64",
        }
    }

    /// The architecture for a `std::env::consts::ARCH` value.
    pub fn from_arch_name(arch: &str) -> (r: Option<HostArch>)
        ensures
            r == host_arch_for(arch@),
    {
        if crate::text::str_eq(arch, "x86_64") {
            Some(HostArch::X64)
        } else if crate::text::str_eq(arch, "aarch64") {
            Some(HostArch::Arm64)
        } else {
            None
        }
    }
}

/// One resolved, host-matched archive for a [`ComponentId`], ready to download.
#[derive(Debug, Clone, PartialEq, Eq)]
pub struct Component {
    /// Which component this is.
    pub id: ComponentId,
    /// Package revision, dot-joined (`major[.minor[.micro]]`), e.g. `"37.0.1"`.
    pub version: String,
    /// Fully resolved download URL.
    pub url: String,
    /// Archive size in bytes.
    pub size_bytes: u64,
    /// Lower-case hex SHA-1 of the archive.
    pub sha1: String,
}

/// The contents of a [`Component`].
pub struct ComponentView {
    pub id: ComponentId,
    pub version: Seq<char>,
    pub url: Seq<char>,
    pub size_bytes: u64,
    pub sha1: Seq<char>,
}

impl View for Component {
    type V = ComponentView;

    open spec fn view(&self) -> ComponentView {
        ComponentView {
            id: self.id,
            version: self.version@,
            url: self.url@,
            size_bytes: self.size_bytes,
            sha1: self.sha1@,
        }
    }
}

impl Component {
    /// A copy of this component.
    pub fn duplicate(&self) -> (r: Component)
        ensures
            r@ == self@,
    {
        Component {
            id: self.id,
            version: self.version.clone(),
            url: self.url.clone(),
            size_bytes: self.size_bytes,
            sha1: self.sha1.clone(),
        }
    }
}

} // verus!
