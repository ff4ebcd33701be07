//! Removing a managed SDK component: the inverse of bootstrapping.
//!
//! Only the app-managed `<data_dir>/sdk/` tree is ever touched. A component found in a system
//! SDK is never modified, and the command-line tools cannot be removed (they are the
//! `sdkmanager` doing the removing). Removal is `sdkmanager --uninstall <package>
//! --sdk_root=<path>`.

use vstd::prelude::*;

use crate::error::CoreError;
use crate::model::component::{repo_path_of, ComponentId, HostOs};
use crate::model::job::{Progress, ProgressView};
use crate::ports::{Command, CommandView, Output};
use crate::text::{cat, cat3};
use crate::toolchain::installed_state::{
    binary_path, join_path, location_in, marker_of, path_join, InstalledState, SdkSource,
    SdkSourceView,
};

verus! {

/// What removing a component comes down to.
#[derive(Debug, Clone, PartialEq, Eq)]
pub enum UninstallStep {
    /// The component is not installed anywhere: nothing to do but say so.
    AlreadyAbsent {
        /// The log line to report.
        log: Progress,
    },
    /// Run `sdkmanager --uninstall`.
    Run {
        /// The `sdkmanager` that runs the removal.
        sdkmanager: String,
        /// The command to run.
        command: Command,
        /// The log line to report before running it.
        log: Progress,
    },
}

/// The message refusing to remove the command-line tools.
pub open spec fn cmdline_tools_refusal() -> Seq<char> {
    "the SDK command-line tools can't be removed from here — they're the component that installs and removes every other one. Reset the app data directory to start clean."@
}

/// The message refusing to touch a system SDK.
pub open spec fn system_sdk_refusal(target: ComponentId, root: Seq<char>) -> Seq<char> {
    repo_path_of(target) + " comes from a system Android SDK at "@ + root
        + " — Emulator Studio won't modify an SDK it didn't install. Remove it with that SDK's own tools if you need to."@
}

/// `r` is the decision [`uninstall_step`] owes for removing `target` (see there).
pub open spec fn uninstall_decided(
    r: Result<UninstallStep, CoreError>,
    data_dir: Seq<char>,
    target: ComponentId,
    installed: Seq<crate::toolchain::installed_state::ComponentLocationView>,
    os: HostOs,
) -> bool {
    if target == ComponentId::CmdlineTools {
        match r {
            Err(CoreError::Unsupported(m)) => m@ == cmdline_tools_refusal(),
            _ => false,
        }
    } else {
        match location_in(installed, target) {
            None => match r {
                Ok(UninstallStep::AlreadyAbsent { log }) => log@ == (ProgressView {
                    phase: None,
                    bytes_done: None,
                    bytes_total: None,
                    pct: None,
                    log_line: Some(repo_path_of(target) + " isn't installed; nothing to remove"@),
                }),
                _ => false,
            },
            Some(l) => match l.source {
                SdkSourceView::System(root) => match r {
                    Err(CoreError::Unsupported(m)) => m@ == system_sdk_refusal(target, root),
                    _ => false,
                },
                SdkSourceView::AppManaged => match location_in(installed, ComponentId::CmdlineTools) {
                    None => match r {
                        Err(CoreError::NotFound { what, name }) => what@ == "cmdline-tools"@
                            && name@ == "sdkmanager (needed to uninstall anything)"@,
                        _ => false,
                    },
                    Some(c) => match r {
                        Ok(UninstallStep::Run { sdkmanager, command, log }) => {
                            &&& sdkmanager@ == path_join(
                                c.sdk_root,
                                marker_of(ComponentId::CmdlineTools, os),
                            )
                            &&& command@ == (CommandView {
                                program: sdkmanager@,
                                args: seq![
                                    "--uninstall"@,
                                    repo_path_of(target),
                                    "--sdk_root="@ + path_join(data_dir, "sdk"@),
                                ],
                                cwd: None,
                                env: seq![],
                                stdin: None,
                            })
                            &&& log@ == (ProgressView {
                                phase: None,
                                bytes_done: None,
                                bytes_total: None,
                                pct: None,
                                log_line: Some("removing "@ + repo_path_of(target)),
                            })
                        },
                        _ => false,
                    },
                },
            },
        }
    }
}

/// Decide how to remove `target` from the app-managed SDK under `data_dir`:
/// - the command-line tools are refused (`Unsupported`);
/// - a component installed nowhere is a no-op with a log line;
/// - a component found only in a system SDK is refused (`Unsupported`);
/// - without the command-line tools nothing can run `--uninstall` (`NotFound`);
/// - otherwise `sdkmanager --uninstall <package> --sdk_root=<data_dir>/sdk`.
pub fn uninstall_step(data_dir: &str, target: ComponentId, state: &InstalledState, os: HostOs) -> (r: Result<UninstallStep, CoreError>)
    ensures
        uninstall_decided(r, data_dir@, target, state@, os),
{
    if target == ComponentId::CmdlineTools {
        return Err(
            CoreError::Unsupported(
                "the SDK command-line tools can't be removed from here — they're the component that installs and removes every other one. Reset the app data directory to start clean.".to_owned(),
            ),
        );
    }
    let location = match state.location_of(target) {
        Some(l) => l,
        None => {
            let m = cat(target.repo_path(), " isn't installed; nothing to remove");
            return Ok(UninstallStep::AlreadyAbsent { log: Progress::log(m.as_str()) });
        },
    };
    match &location.source {
        SdkSource::System(root) => {
            let mut m = cat3(target.repo_path(), " comes from a system Android SDK at ", root.as_str());
            m.append(
                " — Emulator Studio won't modify an SDK it didn't install. Remove it with that SDK's own tools if you need to.",
            );
            return Err(CoreError::Unsupported(m));
        },
        SdkSource::AppManaged => {},
    }
    let cmdline = match state.location_of(ComponentId::CmdlineTools) {
        Some(c) => c,
        None => {
            return Err(
                CoreError::NotFound {
                    what: "cmdline-tools",
                    name: "sdkmanager (needed to uninstall anything)".to_owned(),
                },
            );
        },
    };
    let sdkmanager = binary_path(cmdline.sdk_root.as_str(), ComponentId::CmdlineTools, os);
    let app_sdk_dir = join_path(data_dir, "sdk");
    let root_arg = cat("--sdk_root=", app_sdk_dir.as_str());
    let command = Command::new(sdkmanager.as_str()).arg("--uninstall").arg(target.repo_path()).arg(
        root_arg.as_str(),
    );
    assert(command@.args =~= seq![
        "--uninstall"@,
        repo_path_of(target),
        "--sdk_root="@ + path_join(data_dir@, "sdk"@),
    ]);
    let m = cat("removing ", target.repo_path());
    Ok(UninstallStep::Run { sdkmanager, command, log: Progress::log(m.as_str()) })
}

/// The outcome of the `sdkmanager --uninstall` run: on exit `0` the "removed" log line, else the
/// process error.
pub fn uninstall_outcome(sdkmanager: &str, target: ComponentId, output: &Output) -> (r: Result<Progress, CoreError>)
    ensures
        output.status == 0 ==> (r matches Ok(p) && p@ == (ProgressView {
            phase: None,
            bytes_done: None,
            bytes_total: None,
            pct: None,
            log_line: Some(repo_path_of(target) + " removed"@),
        })),
        output.status != 0 ==> (r matches Err(CoreError::Process { program, code, stderr })
            && program@ == sdkmanager@ && code == output.status && stderr@ == output.stderr@),
{
    if output.success() {
        let m = cat(target.repo_path(), " removed");
        Ok(Progress::log(m.as_str()))
    } else {
        Err(crate::toolchain::bootstrap::process_err(sdkmanager, output))
    }
}

/// Removal only ever runs for an app-managed component other than the command-line tools,
/// and only against the app's own `<data_dir>/sdk`: a system SDK is never modified.
pub proof fn lemma_uninstall_touches_only_the_managed_sdk(
    r: Result<UninstallStep, CoreError>,
    data_dir: Seq<char>,
    target: ComponentId,
    installed: Seq<crate::toolchain::installed_state::ComponentLocationView>,
    os: HostOs,
)
    requires
        uninstall_decided(r, data_dir, target, installed, os),
    ensures
        r matches Ok(UninstallStep::Run { command, .. }) ==> {
            &&& target != ComponentId::CmdlineTools
            &&& location_in(installed, target) matches Some(l) && l.source == SdkSourceView::AppManaged
            &&& command@.args.len() == 3
            &&& command@.args[2] == "--sdk_root="@ + path_join(data_dir, "sdk"@)
        },
        (location_in(installed, target) matches Some(l) && l.source is System) ==> r is Err,
{
}

} // verus!
