//! The elevated helper's decisions: its subcommands, the single JSON outcome it reports
//! (`command`, `status`, `message`, `needsReboot`), and what each subcommand does on each OS.
//!
//! `status` is one of `ok`, `failed`, `notApplicable` or `needsReboot`; the exit code is `1` for
//! `failed` and `0` otherwise. Off its platform every mutating subcommand is `notApplicable`.

use vstd::prelude::*;

use crate::model::component::HostOs;
use crate::text::{cat, cat3, str_eq, trim_str};

verus! {

/// The helper's subcommands.
#[derive(Debug, Clone, Copy, PartialEq, Eq, Hash, Structural)]
pub enum Command {
    /// Report what the host has and what the helper could change (no mutation).
    Check,
    /// Enable the Windows Hypervisor Platform feature.
    EnableWhpx,
    /// Install and enable AEHD on Windows.
    EnableAehd,
    /// Add the invoking user to the `kvm` group on Linux.
    AddKvmGroup,
}

/// The command-line name of a subcommand.
pub open spec fn slug_of(c: Command) -> Seq<char> {
    match c {
        Command::Check => "check"@,
        Command::EnableWhpx => "enable-whpx"@,
        Command::EnableAehd => "enable-aehd"@,
        Command::AddKvmGroup => "add-kvm-group"@,
    }
}

impl Command {
    /// The command-line name of the subcommand (echoed as `command` in the outcome).
    pub fn slug(self) -> (r: &'static str)
        ensures
            r@ == slug_of(self),
    {
        match self {
            Command::Check => "check",
            Command::EnableWhpx => "enable-whpx",
            Command::EnableAehd => "enable-aehd",
            Command::AddKvmGroup => "add-kvm-group",
        }
    }
}

/// The single JSON object the helper prints.
#[derive(Debug, Clone, PartialEq, Eq)]
pub struct Outcome {
    /// The subcommand's name.
    pub command: &'static str,
    /// `ok` | `failed` | `notApplicable` | `needsReboot`.
    pub status: &'static str,
    /// What happened, for a person.
    pub message: String,
    /// Whether a reboot is needed to finish.
    pub needs_reboot: bool,
}

impl Outcome {
    /// An outcome of `command`; it needs a reboot exactly when its status is `needsReboot`.
    pub fn new(command: Command, status: &'static str, message: &str) -> (r: Outcome)
        ensures
            r.command@ == slug_of(command),
            r.status == status,
            r.message@ == message@,
            r.needs_reboot == (status@ == "needsReboot"@),
    {
        Outcome {
            command: command.slug(),
            status,
            message: message.to_owned(),
            needs_reboot: str_eq(status, "needsReboot"),
        }
    }
}

/// The helper's exit code: `1` for a failed outcome, else `0`.
pub fn exit_code(o: &Outcome) -> (r: i32)
    ensures
        r == (if o.status@ == "failed"@ {
            1i32
        } else {
            0i32
        }),
{
    if str_eq(o.status, "failed") {
        1
    } else {
        0
    }
}

/// The outcome of a mutating subcommand off its platform.
pub fn not_applicable(cmd: Command, what: &str, os_name: &str) -> (r: Outcome)
    ensures
        r.command@ == slug_of(cmd),
        r.status@ == "notApplicable"@,
        r.message@ == what@ + " — nothing for this helper to do on "@ + os_name@ + "."@,
        !r.needs_reboot,
{
    let mut m = cat3(what, " — nothing for this helper to do on ", os_name);
    m.append(".");
    let r = Outcome::new(cmd, "notApplicable", m.as_str());
    proof {
        reveal_strlit("notApplicable");
        reveal_strlit("needsReboot");
        assert("notApplicable"@.len() != "needsReboot"@.len());
    }
    r
}

/// How running a system command went.
#[derive(Debug, Clone, PartialEq, Eq)]
pub enum ProcResult {
    /// It ran: whether it exited successfully, and its stderr (decoded).
    Ran {
        /// Exit status was success.
        success: bool,
        /// Its standard error, decoded lossily.
        stderr: String,
    },
    /// It could not be started; the error's message.
    SpawnFailed(String),
}

/// The outcome of a mutating step done by running a system command: success is `ok` (or
/// `needsReboot` when the step needs one) with `ok_msg`; a failure is `failed` with
/// `fail_prefix` and the trimmed stderr, or why the command could not run.
pub fn from_proc(cmd: Command, result: ProcResult, ok_reboot: bool, ok_msg: &str, fail_prefix: &str) -> (r: Outcome)
    ensures
        r.command@ == slug_of(cmd),
        match result {
            ProcResult::Ran { success: true, .. } => r.status@ == (if ok_reboot {
                "needsReboot"@
            } else {
                "ok"@
            }) && r.message@ == ok_msg@,
            ProcResult::Ran { success: false, stderr } => r.status@ == "failed"@ && r.message@
                == fail_prefix@ + ": "@ + crate::text::trim(stderr@),
            ProcResult::SpawnFailed(e) => r.status@ == "failed"@ && r.message@ == fail_prefix@
                + ": could not run the command ("@ + e@ + ")"@,
        },
{
    match result {
        ProcResult::Ran { success, stderr } => {
            if success {
                Outcome::new(
                    cmd,
                    if ok_reboot {
                        "needsReboot"
                    } else {
                        "ok"
                    },
                    ok_msg,
                )
            } else {
                let t = trim_str(stderr.as_str());
                let m = cat3(fail_prefix, ": ", t.as_str());
                Outcome::new(cmd, "failed", m.as_str())
            }
        },
        ProcResult::SpawnFailed(e) => {
            let mut m = cat(fail_prefix, ": could not run the command (");
            m.append(e.as_str());
            m.append(")");
            Outcome::new(cmd, "failed", m.as_str())
        },
    }
}

/// What the `check` probe found, per OS.
#[derive(Debug, Clone, PartialEq, Eq)]
pub enum CheckProbe {
    /// macOS: `sysctl -n kern.hv_support`, trimmed, when it ran.
    Hvf(Option<String>),
    /// Linux: opening `/dev/kvm` read-write.
    Kvm(KvmAccess),
    /// Windows: the HypervisorPlatform feature state, trimmed and lower-cased, when queried.
    Whpx(Option<String>),
    /// Any other OS.
    Unsupported,
}

/// The result of opening `/dev/kvm` read-write.
#[derive(Debug, Clone, Copy, PartialEq, Eq, Hash, Structural)]
pub enum KvmAccess {
    /// It opened.
    Usable,
    /// It exists but this user may not open it.
    PermissionDenied,
    /// Anything else: missing.
    Missing,
}

/// The `check` outcome for what the probe found (`os_name` names the OS for an unsupported
/// one).
pub fn check(cmd: Command, probe: &CheckProbe, os_name: &str) -> (r: Outcome)
    ensures
        r.command@ == slug_of(cmd),
        match probe {
            CheckProbe::Hvf(hv) => if opt_is(*hv, "1"@) {
                r.status@ == "ok"@ && r.message@
                    == "Apple's Hypervisor (HVF) is available — no setup needed."@
            } else {
                r.status@ == "failed"@ && r.message@
                    == "kern.hv_support is not 1 — this Mac can't use hardware acceleration."@
            },
            CheckProbe::Kvm(KvmAccess::Usable) => r.status@ == "ok"@ && r.message@
                == "/dev/kvm is present and usable."@,
            CheckProbe::Kvm(KvmAccess::PermissionDenied) => r.status@ == "ok"@ && r.message@
                == "/dev/kvm exists but this user can't open it — run `add-kvm-group`."@,
            CheckProbe::Kvm(KvmAccess::Missing) => r.status@ == "failed"@ && r.message@
                == "/dev/kvm is missing — install KVM."@,
            CheckProbe::Whpx(state) => if opt_is(*state, "enabled"@) {
                r.status@ == "ok"@ && r.message@ == "The Windows Hypervisor Platform is enabled."@
            } else if opt_is(*state, "disabled"@) {
                r.status@ == "ok"@ && r.message@
                    == "The Windows Hypervisor Platform is disabled — run `enable-whpx`."@
            } else {
                r.status@ == "failed"@ && r.message@
                    == "couldn't query the Hypervisor Platform feature state."@
            },
            CheckProbe::Unsupported => r.status@ == "notApplicable"@ && r.message@
                == "Unsupported OS"@ + " — nothing for this helper to do on "@ + os_name@ + "."@,
        },
{
    match probe {
        CheckProbe::Hvf(hv) => {
            if is_some_text(hv, "1") {
                Outcome::new(cmd, "ok", "Apple's Hypervisor (HVF) is available — no setup needed.")
            } else {
                Outcome::new(
                    cmd,
                    "failed",
                    "kern.hv_support is not 1 — this Mac can't use hardware acceleration.",
                )
            }
        },
        CheckProbe::Kvm(KvmAccess::Usable) => Outcome::new(
            cmd,
            "ok",
            "/dev/kvm is present and usable.",
        ),
        CheckProbe::Kvm(KvmAccess::PermissionDenied) => Outcome::new(
            cmd,
            "ok",
            "/dev/kvm exists but this user can't open it — run `add-kvm-group`.",
        ),
        CheckProbe::Kvm(KvmAccess::Missing) => Outcome::new(
            cmd,
            "failed",
            "/dev/kvm is missing — install KVM.",
        ),
        CheckProbe::Whpx(state) => {
            if is_some_text(state, "enabled") {
                Outcome::new(cmd, "ok", "The Windows Hypervisor Platform is enabled.")
            } else if is_some_text(state, "disabled") {
                Outcome::new(
                    cmd,
                    "ok",
                    "The Windows Hypervisor Platform is disabled — run `enable-whpx`.",
                )
            } else {
                Outcome::new(cmd, "failed", "couldn't query the Hypervisor Platform feature state.")
            }
        },
        CheckProbe::Unsupported => not_applicable(cmd, "Unsupported OS", os_name),
    }
}

/// The option holds exactly this text.
pub open spec fn opt_is(o: Option<String>, text: Seq<char>) -> bool {
    match o {
        Some(s) => s@ == text,
        None => false,
    }
}

/// Whether an optional string holds exactly `text`.
fn is_some_text(o: &Option<String>, text: &str) -> (r: bool)
    ensures
        r == opt_is(*o, text@),
{
    match o {
        Some(s) => str_eq(s.as_str(), text),
        None => false,
    }
}

/// A step of a mutating subcommand: report an outcome now, or run a system command first.
#[derive(Debug, Clone, PartialEq, Eq)]
pub enum HelperStep {
    /// Report this outcome.
    Report(Outcome),
    /// Run `program args…` and turn the result into an outcome with [`from_proc`].
    Run {
        /// The program.
        program: &'static str,
        /// Its arguments.
        args: Vec<String>,
        /// Whether success needs a reboot.
        ok_reboot: bool,
        /// The message on success.
        ok_msg: String,
        /// The prefix of the message on failure.
        fail_prefix: &'static str,
    },
}

/// The user to add to the `kvm` group: `$SUDO_USER`, else the name `$PKEXEC_UID` resolves to;
/// never empty and never `root` (the helper itself runs as root).
pub open spec fn kvm_user_of(sudo_user: Option<Seq<char>>, pkexec_user: Option<Seq<char>>) -> Option<Seq<char>> {
    let u = match sudo_user {
        Some(s) => Some(s),
        None => pkexec_user,
    };
    match u {
        Some(s) => if s.len() > 0 && s != "root"@ {
            Some(s)
        } else {
            None
        },
        None => None,
    }
}

/// `add-kvm-group`: on Linux, `usermod -aG kvm <user>` for the invoking user (failing when it
/// cannot be told); elsewhere not applicable.
pub fn add_kvm_group(cmd: Command, os: HostOs, os_name: &str, sudo_user: Option<String>, pkexec_user: Option<String>) -> (r: HelperStep)
    ensures
        os != HostOs::Linux ==> (r matches HelperStep::Report(o) && o.command@ == slug_of(cmd)
            && !o.needs_reboot && o.status@ == "notApplicable"@ && o.message@ == "The kvm group is a Linux concept"@ + " — nothing for this helper to do on "@
            + os_name@ + "."@),
        os == HostOs::Linux ==> match kvm_user_of(
            crate::android::avd_list::opt_view(sudo_user),
            crate::android::avd_list::opt_view(pkexec_user),
        ) {
            None => r matches HelperStep::Report(o) && o.command@ == slug_of(cmd) && !o.needs_reboot
                && o.status@ == "failed"@ && o.message@
                == "couldn't tell which user to add to the kvm group ($SUDO_USER is unset)."@,
            Some(u) => r matches HelperStep::Run { program, args, ok_reboot, ok_msg, fail_prefix }
                && program@ == "usermod"@ && crate::ports::string_views(args@) == seq![
                "-aG"@,
                "kvm"@,
                u,
            ] && !ok_reboot && ok_msg@ == "Added "@ + u
                + " to the kvm group. Log out and back in for it to take effect."@ && fail_prefix@
                == "usermod failed"@,
        },
{
    match os {
        HostOs::Linux => {},
        _ => {
            return HelperStep::Report(
                not_applicable(cmd, "The kvm group is a Linux concept", os_name),
            );
        },
    }
    let user = match sudo_user {
        Some(s) => Some(s),
        None => pkexec_user,
    };
    let user = match user {
        Some(u) => if !u.as_str().is_empty() && !str_eq(u.as_str(), "root") {
            Some(u)
        } else {
            None
        },
        None => None,
    };
    proof {
        reveal_strlit("failed");
        reveal_strlit("needsReboot");
        assert("failed"@ != "needsReboot"@) by {
            assert("failed"@.len() != "needsReboot"@.len());
        }
    }
    match user {
        None => HelperStep::Report(
            Outcome::new(
                cmd,
                "failed",
                "couldn't tell which user to add to the kvm group ($SUDO_USER is unset).",
            ),
        ),
        Some(u) => {
            let ok_msg = cat3(
                "Added ",
                u.as_str(),
                " to the kvm group. Log out and back in for it to take effect.",
            );
            let mut args: Vec<String> = Vec::new();
            args.push("-aG".to_owned());
            args.push("kvm".to_owned());
            let ghost uv = u@;
            args.push(u);
            assert(crate::ports::string_views(args@) =~= seq!["-aG"@, "kvm"@, uv]);
            HelperStep::Run {
                program: "usermod",
                args,
                ok_reboot: false,
                ok_msg,
                fail_prefix: "usermod failed",
            }
        },
    }
}

/// `enable-whpx`: on Windows, `dism /online /enable-feature /featurename:HypervisorPlatform /all
/// /norestart` (a reboot finishes it); elsewhere not applicable.
pub fn enable_whpx(cmd: Command, os: HostOs, os_name: &str) -> (r: HelperStep)
    ensures
        os != HostOs::Windows ==> (r matches HelperStep::Report(o) && o.command@ == slug_of(cmd)
            && !o.needs_reboot && o.status@ == "notApplicable"@ && o.message@
            == "The Windows Hypervisor Platform is a Windows feature"@
            + " — nothing for this helper to do on "@
            + os_name@ + "."@),
        os == HostOs::Windows ==> (r matches HelperStep::Run {
            program,
            args,
            ok_reboot,
            ok_msg,
            fail_prefix,
        } && program@ == "dism"@ && crate::ports::string_views(args@) == seq![
            "/online"@,
            "/enable-feature"@,
            "/featurename:HypervisorPlatform"@,
            "/all"@,
            "/norestart"@,
        ] && ok_reboot && ok_msg@ == "Enabled the Windows Hypervisor Platform. Reboot to finish."@
            && fail_prefix@ == "dism failed"@),
{
    match os {
        HostOs::Windows => {
            let mut args: Vec<String> = Vec::new();
            args.push("/online".to_owned());
            args.push("/enable-feature".to_owned());
            args.push("/featurename:HypervisorPlatform".to_owned());
            args.push("/all".to_owned());
            args.push("/norestart".to_owned());
            assert(crate::ports::string_views(args@) =~= seq![
                "/online"@,
                "/enable-feature"@,
                "/featurename:HypervisorPlatform"@,
                "/all"@,
                "/norestart"@,
            ]);
            HelperStep::Run {
                program: "dism",
                args,
                ok_reboot: true,
                ok_msg: "Enabled the Windows Hypervisor Platform. Reboot to finish.".to_owned(),
                fail_prefix: "dism failed",
            }
        },
        _ => HelperStep::Report(
            not_applicable(cmd, "The Windows Hypervisor Platform is a Windows feature", os_name),
        ),
    }
}

/// `enable-aehd`: not scriptable yet on Windows (it says how to install it by hand); elsewhere
/// not applicable.
pub fn enable_aehd(cmd: Command, os: HostOs, os_name: &str) -> (r: Outcome)
    ensures
        r.command@ == slug_of(cmd),
        !r.needs_reboot,
        os != HostOs::Windows ==> r.status@ == "notApplicable"@ && r.message@
            == "AEHD is a Windows driver"@ + " — nothing for this helper to do on "@ + os_name@ + "."@,
        os == HostOs::Windows ==> r.status@ == "failed"@ && r.message@
            == "AEHD can't be scripted yet — install it from the Android SDK's `extras` (`extras;google;Android_Emulator_Hypervisor_Driver`) and run its `silent_install.bat` as Administrator."@,
{
    proof {
        reveal_strlit("failed");
        reveal_strlit("needsReboot");
        assert("failed"@ != "needsReboot"@) by {
            assert("failed"@.len() != "needsReboot"@.len());
        }
    }
    match os {
        HostOs::Windows => Outcome::new(
            cmd,
            "failed",
            "AEHD can't be scripted yet — install it from the Android SDK's `extras` (`extras;google;Android_Emulator_Hypervisor_Driver`) and run its `silent_install.bat` as Administrator.",
        ),
        _ => not_applicable(cmd, "AEHD is a Windows driver", os_name),
    }
}

/// Every fix a host report marks scriptable is one the helper can apply: its id is the name of
/// a helper subcommand.
pub proof fn lemma_scriptable_fixes_have_helper_commands(s: crate::host::signals::HostSignalsView)
    ensures
        forall|i: int|
            0 <= i < crate::host::report::report_of(s).fixes.len() && (
            #[trigger] crate::host::report::report_of(s).fixes[i]).scriptable ==> exists|c: Command|
                slug_of(c) == crate::host::report::report_of(s).fixes[i].id,
{
    let fs = crate::host::report::report_of(s).fixes;
    assert forall|i: int| 0 <= i < fs.len() && (#[trigger] fs[i]).scriptable implies exists|
        c: Command,
    | slug_of(c) == fs[i].id by {
        if fs[i].id == "add-kvm-group"@ {
            assert(slug_of(Command::AddKvmGroup) == fs[i].id);
        } else if fs[i].id == "enable-whpx"@ {
            assert(slug_of(Command::EnableWhpx) == fs[i].id);
        } else {
            assert(slug_of(Command::EnableAehd) == fs[i].id);
        }
    }
}

} // verus!
