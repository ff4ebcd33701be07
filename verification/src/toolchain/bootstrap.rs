//! The decisions behind bootstrapping the toolchain: what is missing, the JDK check, the SHA-1
//! check of the downloaded `cmdline-tools` archive, and the `sdkmanager` invocations that accept
//! the licenses and install the rest.
//!
//! Only `cmdline-tools;latest` is downloaded and unpacked directly; every other component is
//! installed by the real `sdkmanager`.

use vstd::prelude::*;

use crate::error::CoreError;
use crate::model::component::{repo_path_of, Component, ComponentId, ComponentView, HostOs};
use crate::model::job::{Progress, ProgressView};
use crate::ports::{Command, CommandView, Output};
use crate::text::{
    cat, cat3, chars_of, eq_ignore_ascii_case, eq_ignore_ascii_case_chars, find_char,
    parse_unsigned, parse_unsigned_chars, slice_to_vec, split_char, string_of, trim_end,
    trim_chars, u64_to_string, decimal, find_char_in,
};
use crate::toolchain::installed_state::{
    installed_in, join_path, location_in, marker_of, path_join, ComponentLocationView,
    InstalledState,
};

verus! {

/// More `y` answers than any real `sdkmanager --licenses` session has needed, but bounded.
pub const LICENSE_ACCEPT_COUNT: usize = 50;

/// The views of a sequence of components.
pub open spec fn component_views(v: Seq<Component>) -> Seq<ComponentView> {
    v.map_values(|c: Component| c@)
}

/// The wanted components not installed anywhere, in order.
pub open spec fn missing_components(
    wanted: Seq<ComponentView>,
    installed: Seq<ComponentLocationView>,
) -> Seq<ComponentView>
    decreases wanted.len(),
{
    if wanted.len() == 0 {
        seq![]
    } else {
        let rest = missing_components(wanted.drop_last(), installed);
        if installed_in(installed, wanted.last().id) {
            rest
        } else {
            rest.push(wanted.last())
        }
    }
}

/// The first missing component that is the command-line tools, if any.
pub open spec fn cmdline_tools_to_fetch(missing: Seq<ComponentView>) -> Option<ComponentView>
    decreases missing.len(),
{
    if missing.len() == 0 {
        None
    } else if missing[0].id == ComponentId::CmdlineTools {
        Some(missing[0])
    } else {
        cmdline_tools_to_fetch(missing.drop_first())
    }
}

/// The package paths `sdkmanager` must install: every missing component but the command-line
/// tools, in order.
pub open spec fn packages_to_install(missing: Seq<ComponentView>) -> Seq<Seq<char>>
    decreases missing.len(),
{
    if missing.len() == 0 {
        seq![]
    } else {
        let rest = packages_to_install(missing.drop_last());
        if missing.last().id == ComponentId::CmdlineTools {
            rest
        } else {
            rest.push(repo_path_of(missing.last().id))
        }
    }
}

/// The work a bootstrap has to do.
#[derive(Debug, Clone, PartialEq, Eq)]
pub struct BootstrapSteps {
    /// The `cmdline-tools` archive to download and unpack first, when it is missing.
    pub fetch: Option<Component>,
    /// The package paths to hand to `sdkmanager` after the licenses are accepted.
    pub packages: Vec<String>,
}

/// What needs doing to get every wanted component installed: `None` when nothing is missing
/// (a true no-op, checked before anything else, even the JDK).
pub fn bootstrap_steps(wanted: &[Component], state: &InstalledState) -> (r: Option<BootstrapSteps>)
    ensures
        match r {
            None => missing_components(component_views(wanted@), state@).len() == 0,
            Some(steps) => {
                let missing = missing_components(component_views(wanted@), state@);
                &&& missing.len() > 0
                &&& match steps.fetch {
                    Some(c) => cmdline_tools_to_fetch(missing) == Some(c@),
                    None => cmdline_tools_to_fetch(missing) is None,
                }
                &&& crate::ports::string_views(steps.packages@) == packages_to_install(missing)
            },
        },
{
    let ghost wv = component_views(wanted@);
    let mut missing: Vec<Component> = Vec::new();
    let n = wanted.len();
    let mut i: usize = 0;
    while i < n
        invariant
            i <= n,
            n == wanted@.len(),
            wv == component_views(wanted@),
            component_views(missing@) == missing_components(wv.take(i as int), state@),
        decreases n - i,
    {
        assert(wv.take(i + 1).drop_last() =~= wv.take(i as int));
        assert(wv[i as int] == wanted@[i as int]@);
        if !state.is_installed(wanted[i].id) {
            let c = Component {
                id: wanted[i].id,
                version: wanted[i].version.clone(),
                url: wanted[i].url.clone(),
                size_bytes: wanted[i].size_bytes,
                sha1: wanted[i].sha1.clone(),
            };
            let ghost before = component_views(missing@);
            missing.push(c);
            assert(component_views(missing@) =~= before.push(wv[i as int]));
        }
        i = i + 1;
    }
    assert(wv.take(n as int) =~= wv);
    let ghost mv = component_views(missing@);
    if missing.len() == 0 {
        return None;
    }
    let m = missing.len();
    assert(mv.skip(0) =~= mv);
    let mut fetch: Option<Component> = None;
    let mut k: usize = 0;
    while k < m
        invariant
            k <= m,
            m == missing@.len(),
            mv == component_views(missing@),
            mv == missing_components(component_views(wanted@), state@),
            mv.len() > 0,
            fetch is None,
            cmdline_tools_to_fetch(mv) == cmdline_tools_to_fetch(mv.skip(k as int)),
        decreases m - k,
    {
        assert(mv.skip(k as int)[0] == mv[k as int]);
        assert(mv.skip(k as int).drop_first() =~= mv.skip(k + 1));
        assert(mv[k as int] == missing@[k as int]@);
        if missing[k].id == ComponentId::CmdlineTools {
            let c = &missing[k];
            let found = Component {
                id: c.id,
                version: c.version.clone(),
                url: c.url.clone(),
                size_bytes: c.size_bytes,
                sha1: c.sha1.clone(),
            };
            assert(found@ == mv[k as int]);
            let packages = packages_of(&missing);
            return Some(BootstrapSteps { fetch: Some(found), packages });
        }
        k = k + 1;
    }
    assert(mv.skip(m as int).len() == 0);
    let packages = packages_of(&missing);
    Some(BootstrapSteps { fetch: None, packages })
}

/// The package paths of the missing components other than the command-line tools.
fn packages_of(missing: &Vec<Component>) -> (r: Vec<String>)
    ensures
        crate::ports::string_views(r@) == packages_to_install(component_views(missing@)),
{
    let ghost mv = component_views(missing@);
    let mut r: Vec<String> = Vec::new();
    let n = missing.len();
    let mut i: usize = 0;
    while i < n
        invariant
            i <= n,
            n == missing@.len(),
            mv == component_views(missing@),
            crate::ports::string_views(r@) == packages_to_install(mv.take(i as int)),
        decreases n - i,
    {
        assert(mv.take(i + 1).drop_last() =~= mv.take(i as int));
        assert(mv[i as int] == missing@[i as int]@);
        if missing[i].id != ComponentId::CmdlineTools {
            let p = missing[i].id.repo_path().to_owned();
            let ghost before = crate::ports::string_views(r@);
            r.push(p);
            assert(crate::ports::string_views(r@) =~= before.push(p@));
        }
        i = i + 1;
    }
    assert(mv.take(n as int) =~= mv);
    r
}

/// `steps` is the work a bootstrap owes for the `missing` components: the command-line tools to
/// fetch first when they are missing, then the package paths for `sdkmanager`.
pub open spec fn steps_for(steps: BootstrapSteps, missing: Seq<ComponentView>) -> bool {
    &&& match steps.fetch {
        Some(c) => cmdline_tools_to_fetch(missing) == Some(c@),
        None => cmdline_tools_to_fetch(missing) is None,
    }
    &&& crate::ports::string_views(steps.packages@) == packages_to_install(missing)
}

/// The log line of a bootstrap with nothing to do.
pub open spec fn nothing_to_do_text() -> Seq<char> {
    "everything requested is already installed; nothing to do"@
}

/// How a bootstrap begins.
#[derive(Debug, Clone, PartialEq, Eq)]
pub enum BootstrapStart {
    /// Everything asked for is installed: report this line and stop, running nothing.
    NothingToDo {
        /// The log line to report.
        log: Progress,
    },
    /// Check the JDK with `java -version` before anything is downloaded.
    CheckJdk {
        /// The work to do once the JDK passes.
        steps: BootstrapSteps,
        /// `java -version`.
        command: Command,
    },
}

/// Begin a bootstrap: with nothing missing, only the "nothing to do" line; otherwise the work
/// to do, gated on `java -version`.
pub fn bootstrap_start(wanted: &[Component], state: &InstalledState) -> (r: BootstrapStart)
    ensures
        match r {
            BootstrapStart::NothingToDo { log } => missing_components(component_views(wanted@), state@).len() == 0
                && log@.log_line == Some(nothing_to_do_text()) && log@.phase is None && log@.pct is None
                && log@.bytes_done is None && log@.bytes_total is None,
            BootstrapStart::CheckJdk { steps, command } => {
                &&& missing_components(component_views(wanted@), state@).len() > 0
                &&& steps_for(steps, missing_components(component_views(wanted@), state@))
                &&& command@ == (CommandView {
                    program: "java"@,
                    args: seq!["-version"@],
                    cwd: None,
                    env: seq![],
                    stdin: None,
                })
            },
        },
{
    match bootstrap_steps(wanted, state) {
        None => BootstrapStart::NothingToDo {
            log: Progress::log("everything requested is already installed; nothing to do"),
        },
        Some(steps) => BootstrapStart::CheckJdk { steps, command: Command::new("java").arg("-version") },
    }
}

/// The JDK gate: the bootstrap's work is released only when `java -version` ran (`Some`) and
/// reported a JDK 17 or newer; a run that could not start is the missing-JDK error.
pub fn after_jdk(steps: BootstrapSteps, java: Option<Output>) -> (r: Result<BootstrapSteps, CoreError>)
    ensures
        match java {
            None => r matches Err(CoreError::Unsupported(d)) && d@ == jdk_missing_text(),
            Some(o) => match jdk_verdict(o.stdout@, o.stderr@) {
                Ok(()) => r == Ok::<BootstrapSteps, CoreError>(steps),
                Err(m) => r matches Err(CoreError::Unsupported(d)) && d@ == m,
            },
        },
{
    match java {
        None => Err(jdk_missing_err()),
        Some(o) => match check_jdk(&o) {
            Ok(()) => Ok(steps),
            Err(e) => Err(e),
        },
    }
}

/// The `sdkmanager` to invoke: under the app-managed root when the command-line tools were just
/// installed there, else under the root they were found at (app-managed when not found).
pub open spec fn sdkmanager_at(
    installed: Seq<ComponentLocationView>,
    app_sdk_dir: Seq<char>,
    os: HostOs,
    just_installed: bool,
) -> Seq<char> {
    let root = if just_installed {
        app_sdk_dir
    } else {
        match location_in(installed, ComponentId::CmdlineTools) {
            Some(l) => l.sdk_root,
            None => app_sdk_dir,
        }
    };
    path_join(root, marker_of(ComponentId::CmdlineTools, os))
}

/// The `sdkmanager` entry point to invoke.
pub fn sdkmanager_path(
    state: &InstalledState,
    app_sdk_dir: &str,
    os: HostOs,
    just_installed_cmdline_tools: bool,
) -> (r: String)
    ensures
        r@ == sdkmanager_at(state@, app_sdk_dir@, os, just_installed_cmdline_tools),
{
    let root: String = if just_installed_cmdline_tools {
        app_sdk_dir.to_owned()
    } else {
        match state.location_of(ComponentId::CmdlineTools) {
            Some(l) => l.sdk_root.clone(),
            None => app_sdk_dir.to_owned(),
        }
    };
    crate::toolchain::installed_state::binary_path(root.as_str(), ComponentId::CmdlineTools, os)
}

/// The major Java version in `java -version` output: the first `"`-quoted version string,
/// split at `.` and `_`; a leading `1` means the pre-JDK 9 scheme (`1.8.0_372` is Java 8).
pub open spec fn java_major_of(text: Seq<char>) -> Option<u32> {
    match find_char(text, '"') {
        None => None,
        Some(s) => {
            let rest = text.skip(s + 1);
            match find_char(rest, '"') {
                None => None,
                Some(e) => {
                    let segs = version_segments(rest.take(e));
                    match parse_unsigned(segs[0], 10, u32::MAX as int) {
                        None => None,
                        Some(first) => if first == 1 {
                            if segs.len() < 2 {
                                None
                            } else {
                                match parse_unsigned(segs[1], 10, u32::MAX as int) {
                                    Some(v) => Some(v as u32),
                                    None => None,
                                }
                            }
                        } else {
                            Some(first as u32)
                        },
                    }
                },
            }
        },
    }
}

/// A version string split at every `.` and `_`.
pub open spec fn version_segments(v: Seq<char>) -> Seq<Seq<char>> {
    split_char(v.map_values(|c: char| if c == '_' { '.' } else { c }), '.')
}

/// The major version in `java -version` output (both the `1.8.0_372` and `17.0.9` schemes).
pub fn parse_java_major_version(text: &str) -> (r: Option<u32>)
    ensures
        r == java_major_of(text@),
{
    let cs = chars_of(text);
    let total = cs.len();
    let start = match find_char_in(cs.as_slice(), '"') {
        Some(i) => {
            assert(i < total);
            i + 1
        },
        None => {
            return None;
        },
    };
    let rest = slice_to_vec(cs.as_slice(), start, cs.len());
    assert(rest@ =~= text@.skip(start as int));
    let end = match find_char_in(rest.as_slice(), '"') {
        Some(e) => e,
        None => {
            return None;
        },
    };
    let ver = slice_to_vec(rest.as_slice(), 0, end);
    assert(ver@ =~= rest@.take(end as int));
    let mut dotted: Vec<char> = Vec::new();
    let n = ver.len();
    let mut i: usize = 0;
    while i < n
        invariant
            i <= n,
            n == ver@.len(),
            dotted@ == ver@.take(i as int).map_values(|c: char| if c == '_' { '.' } else { c }),
        decreases n - i,
    {
        dotted.push(
            if ver[i] == '_' {
                '.'
            } else {
                ver[i]
            },
        );
        assert(dotted@ =~= ver@.take(i + 1).map_values(
            |c: char| if c == '_' { '.' } else { c },
        ));
        i = i + 1;
    }
    assert(ver@.take(n as int) =~= ver@);
    let segs = crate::text::split_at_char(dotted.as_slice(), '.');
    proof {
        lemma_split_nonempty(dotted@, '.');
    }
    assert(segs@[0]@ == version_segments(ver@)[0]);
    let first = match parse_unsigned_chars(segs[0].as_slice(), 10, 0xffff_ffffu64) {
        Some(v) => v,
        None => {
            return None;
        },
    };
    if first == 1 {
        if segs.len() < 2 {
            return None;
        }
        assert(segs@[1]@ == version_segments(ver@)[1]);
        match parse_unsigned_chars(segs[1].as_slice(), 10, 0xffff_ffffu64) {
            Some(v) => Some(v as u32),
            None => None,
        }
    } else {
        Some(first as u32)
    }
}

/// Splitting at a character always yields at least one piece.
pub proof fn lemma_split_nonempty(s: Seq<char>, c: char)
    ensures
        split_char(s, c).len() >= 1,
{
}

/// The message of a missing (or unusable) JDK.
pub open spec fn jdk_missing_text() -> Seq<char> {
    "no JDK 17+ found on PATH or JAVA_HOME; install one (e.g. Eclipse Temurin 17+) and set JAVA_HOME, then retry — Emulator Studio does not bundle a JRE (docs/adr/0006-require-system-jdk.md)"@
}

/// The error for a missing JDK.
pub fn jdk_missing_err() -> (e: CoreError)
    ensures
        e matches CoreError::Unsupported(d) && d@ == jdk_missing_text(),
{
    CoreError::Unsupported(
        "no JDK 17+ found on PATH or JAVA_HOME; install one (e.g. Eclipse Temurin 17+) and set JAVA_HOME, then retry — Emulator Studio does not bundle a JRE (docs/adr/0006-require-system-jdk.md)".to_owned(),
    )
}

/// The text `java -version` printed: stderr, or stdout when stderr is empty.
pub open spec fn java_output_text(stdout: Seq<char>, stderr: Seq<char>) -> Seq<char> {
    if stderr.len() == 0 {
        stdout
    } else {
        stderr
    }
}

/// The verdict on the JDK `java -version` reported: 17 or newer passes; an older one, or output
/// without a version, is unsupported.
pub open spec fn jdk_verdict(stdout: Seq<char>, stderr: Seq<char>) -> Result<(), Seq<char>> {
    match java_major_of(java_output_text(stdout, stderr)) {
        Some(major) => if major >= 17 {
            Ok(())
        } else {
            Err(
                "found a JDK, but it's version "@ + decimal(major as nat)
                    + "; Emulator Studio needs JDK 17 or newer on PATH or JAVA_HOME (docs/adr/0006-require-system-jdk.md)"@,
            )
        },
        None => Err(jdk_missing_text()),
    }
}

/// The JDK gate passes exactly when `java -version` reports a major version of 17 or more; an
/// older JDK is refused with a message naming its version, and output without a version is
/// refused as a missing JDK.
pub proof fn lemma_jdk_gate_needs_17(stdout: Seq<char>, stderr: Seq<char>)
    ensures
        jdk_verdict(stdout, stderr) is Ok <==> match java_major_of(java_output_text(stdout, stderr)) {
            Some(m) => m >= 17,
            None => false,
        },
        java_major_of(java_output_text(stdout, stderr)) matches Some(m) ==> (m < 17 ==> (jdk_verdict(
            stdout,
            stderr,
        ) matches Err(msg) && msg.subrange(0, ("found a JDK, but it's version "@ + decimal(m as nat)).len() as int) == "found a JDK, but it's version "@ + decimal(m as nat))),
        java_major_of(java_output_text(stdout, stderr)) is None ==> jdk_verdict(stdout, stderr)
            == Err::<(), Seq<char>>(jdk_missing_text()),
{
    if let Some(m) = java_major_of(java_output_text(stdout, stderr)) {
        if m < 17 {
            let head = "found a JDK, but it's version "@ + decimal(m as nat);
            let tail = "; Emulator Studio needs JDK 17 or newer on PATH or JAVA_HOME (docs/adr/0006-require-system-jdk.md)"@;
            assert((head + tail).subrange(0, head.len() as int) =~= head);
        }
    }
}

/// Judge the output of `java -version` (a JDK 17+ is required).
pub fn check_jdk(output: &Output) -> (r: Result<(), CoreError>)
    ensures
        match (r, jdk_verdict(output.stdout@, output.stderr@)) {
            (Ok(()), Ok(())) => true,
            (Err(CoreError::Unsupported(d)), Err(m)) => d@ == m,
            _ => false,
        },
{
    let text: &str = if output.stderr.as_str().is_empty() {
        output.stdout.as_str()
    } else {
        output.stderr.as_str()
    };
    match parse_java_major_version(text) {
        Some(major) => if major >= 17 {
            Ok(())
        } else {
            let v = u64_to_string(major as u64);
            let d = cat3(
                "found a JDK, but it's version ",
                v.as_str(),
                "; Emulator Studio needs JDK 17 or newer on PATH or JAVA_HOME (docs/adr/0006-require-system-jdk.md)",
            );
            Err(CoreError::Unsupported(d))
        },
        None => Err(jdk_missing_err()),
    }
}

/// The SHA-1 digest of some bytes (the `sha1` crate), as 20 raw bytes.
pub uninterp spec fn sha1_digest_of(bytes: Seq<u8>) -> Seq<u8>;

/// `Sha1::digest`: the 20-byte SHA-1 digest of `bytes`.
#[verifier::external_body]
fn sha1_digest(bytes: &[u8]) -> (r: Vec<u8>)
    ensures
        r@ == sha1_digest_of(bytes@),
        r@.len() == 20,
{
    <sha1::Sha1 as sha1::Digest>::digest(bytes).to_vec()
}

/// The lower-case hex digit of a nibble.
pub open spec fn hex_digit(n: int) -> char {
    seq!['0', '1', '2', '3', '4', '5', '6', '7', '8', '9', 'a', 'b', 'c', 'd', 'e', 'f'][n]
}

/// Bytes in lower-case hex, two digits each (`{:02x}`).
pub open spec fn hex_of(bytes: Seq<u8>) -> Seq<char>
    decreases bytes.len(),
{
    if bytes.len() == 0 {
        seq![]
    } else {
        hex_of(bytes.drop_last()) + seq![
            hex_digit((bytes.last() / 16) as int),
            hex_digit((bytes.last() % 16) as int),
        ]
    }
}

/// The lower-case hex digit of a nibble.
fn hex_digit_exec(n: u8) -> (c: char)
    requires
        n < 16,
    ensures
        c == hex_digit(n as int),
{
    let digits: [char; 16] = [
        '0',
        '1',
        '2',
        '3',
        '4',
        '5',
        '6',
        '7',
        '8',
        '9',
        'a',
        'b',
        'c',
        'd',
        'e',
        'f',
    ];
    assert(digits@ =~= seq![
        '0',
        '1',
        '2',
        '3',
        '4',
        '5',
        '6',
        '7',
        '8',
        '9',
        'a',
        'b',
        'c',
        'd',
        'e',
        'f',
    ]);
    digits[n as usize]
}

/// Bytes in lower-case hex.
pub fn hex(bytes: &[u8]) -> (r: String)
    ensures
        r@ == hex_of(bytes@),
{
    let mut out: Vec<char> = Vec::new();
    let n = bytes.len();
    let mut i: usize = 0;
    while i < n
        invariant
            i <= n,
            n == bytes@.len(),
            out@ == hex_of(bytes@.take(i as int)),
        decreases n - i,
    {
        let b = bytes[i];
        assert(bytes@.take(i + 1).drop_last() =~= bytes@.take(i as int));
        out.push(hex_digit_exec(b / 16));
        out.push(hex_digit_exec(b % 16));
        assert(out@ =~= hex_of(bytes@.take(i + 1)));
        i = i + 1;
    }
    assert(bytes@.take(n as int) =~= bytes@);
    string_of(out.as_slice())
}

/// Lower-case hex SHA-1 of some bytes.
pub fn hex_sha1(bytes: &[u8]) -> (r: String)
    ensures
        r@ == hex_of(sha1_digest_of(bytes@)),
{
    let d = sha1_digest(bytes);
    hex(d.as_slice())
}

/// The check of a downloaded archive against the catalog's SHA-1 (case-insensitive): the
/// mismatch message names both digests.
pub open spec fn sha1_check(got: Seq<char>, expected: Seq<char>) -> Result<(), Seq<char>> {
    if eq_ignore_ascii_case(got, expected) {
        Ok(())
    } else {
        Err("sha1 mismatch: catalog says "@ + expected + ", downloaded file is "@ + got)
    }
}

/// Verify downloaded bytes against the catalog's SHA-1 for `url`.
pub fn verify_sha1(bytes: &[u8], expected: &str, url: &str) -> (r: Result<(), CoreError>)
    ensures
        match (r, sha1_check(hex_of(sha1_digest_of(bytes@)), expected@)) {
            (Ok(()), Ok(())) => true,
            (Err(CoreError::Download { url: u, detail }), Err(m)) => u@ == url@ && detail@ == m,
            _ => false,
        },
{
    let got = hex_sha1(bytes);
    let gc = chars_of(got.as_str());
    let ec = chars_of(expected);
    if eq_ignore_ascii_case_chars(gc.as_slice(), ec.as_slice()) {
        Ok(())
    } else {
        let mut d = cat3("sha1 mismatch: catalog says ", expected, ", downloaded file is ");
        d.append(got.as_str());
        Err(CoreError::Download { url: url.to_owned(), detail: d })
    }
}

/// The answers fed to `sdkmanager --licenses`: `y` and a newline, [`LICENSE_ACCEPT_COUNT`]
/// times.
pub open spec fn license_answers_of(count: nat) -> Seq<u8>
    decreases count,
{
    if count == 0 {
        seq![]
    } else {
        license_answers_of((count - 1) as nat) + seq![121u8, 10u8]
    }
}

/// `sdkmanager --licenses`, answering every prompt `y` (a bounded `yes |`).
pub fn licenses_command(sdkmanager: &str) -> (r: Command)
    ensures
        r@ == (CommandView {
            program: sdkmanager@,
            args: seq!["--licenses"@],
            cwd: None,
            env: seq![],
            stdin: Some(license_answers_of(LICENSE_ACCEPT_COUNT as nat)),
        }),
{
    let mut answers: Vec<u8> = Vec::new();
    let mut i: usize = 0;
    while i < LICENSE_ACCEPT_COUNT
        invariant
            i <= LICENSE_ACCEPT_COUNT,
            answers@ == license_answers_of(i as nat),
        decreases LICENSE_ACCEPT_COUNT - i,
    {
        answers.push(121u8);
        answers.push(10u8);
        assert(answers@ =~= license_answers_of((i + 1) as nat));
        i = i + 1;
    }
    Command::new(sdkmanager).arg("--licenses").with_stdin(answers)
}

/// The phase shown while licenses are accepted.
pub fn licenses_phase() -> (r: Progress)
    ensures
        r@ == (ProgressView {
            phase: Some("Accepting SDK licenses"@),
            bytes_done: None,
            bytes_total: None,
            pct: None,
            log_line: None,
        }),
{
    Progress::phase("Accepting SDK licenses")
}

/// The package paths joined with `", "`.
pub open spec fn joined_packages(pkgs: Seq<Seq<char>>) -> Seq<char>
    decreases pkgs.len(),
{
    if pkgs.len() == 0 {
        seq![]
    } else if pkgs.len() == 1 {
        pkgs[0]
    } else {
        joined_packages(pkgs.drop_last()) + ", "@ + pkgs.last()
    }
}

/// `sdkmanager <packages...>`, installing everything still missing in one call, and the phase
/// label shown meanwhile.
pub fn install_command(sdkmanager: &str, packages: &[String]) -> (r: (Command, Progress))
    ensures
        r.0@ == (CommandView {
            program: sdkmanager@,
            args: crate::ports::string_views(packages@),
            cwd: None,
            env: seq![],
            stdin: None,
        }),
        r.1@ == (ProgressView {
            phase: Some("Downloading & installing "@ + joined_packages(crate::ports::string_views(packages@))),
            bytes_done: None,
            bytes_total: None,
            pct: None,
            log_line: None,
        }),
{
    let ghost pv = crate::ports::string_views(packages@);
    let mut cmd = Command::new(sdkmanager);
    let mut label = "Downloading & installing ".to_owned();
    assert(pv.take(0) =~= Seq::<Seq<char>>::empty());
    assert(label@ =~= "Downloading & installing "@ + joined_packages(pv.take(0)));
    let n = packages.len();
    let mut i: usize = 0;
    while i < n
        invariant
            i <= n,
            n == packages@.len(),
            pv == crate::ports::string_views(packages@),
            cmd@ == (CommandView {
                program: sdkmanager@,
                args: pv.take(i as int),
                cwd: None,
                env: seq![],
                stdin: None,
            }),
            label@ == "Downloading & installing "@ + joined_packages(pv.take(i as int)),
        decreases n - i,
    {
        assert(pv.take(i + 1).drop_last() =~= pv.take(i as int));
        assert(pv[i as int] == packages@[i as int]@);
        if i > 0 {
            label.append(", ");
        }
        label.append(packages[i].as_str());
        cmd = cmd.arg(packages[i].as_str());
        assert(cmd@.args =~= pv.take(i + 1));
        proof {
            if i == 0 {
                assert(pv.take(1) =~= seq![pv[0]]);
            }
        }
        assert(label@ =~= "Downloading & installing "@ + joined_packages(pv.take(i + 1)));
        i = i + 1;
    }
    assert(pv.take(n as int) =~= pv);
    (cmd, Progress::phase(label.as_str()))
}

/// A failed run of `program`, with its exit code and stderr.
pub fn process_err(program: &str, output: &Output) -> (e: CoreError)
    ensures
        e matches CoreError::Process { program: p, code, stderr } && p@ == program@ && code
            == output.status && stderr@ == output.stderr@,
{
    CoreError::Process {
        program: program.to_owned(),
        code: output.status,
        stderr: output.stderr.clone(),
    }
}

/// The outcome of an `sdkmanager` run: success on exit `0`, else its process error.
pub fn sdkmanager_outcome(sdkmanager: &str, output: &Output) -> (r: Result<(), CoreError>)
    ensures
        (r is Ok) == (output.status == 0),
        r matches Err(CoreError::Process { program: p, code, stderr }) ==> p@ == sdkmanager@
            && code == output.status && stderr@ == output.stderr@,
{
    if output.success() {
        Ok(())
    } else {
        Err(process_err(sdkmanager, output))
    }
}

/// `chmod -R +x <dest_root>/bin`: the extracted files land without the executable bit.
pub fn chmod_command(dest_root: &str) -> (r: Command)
    ensures
        r@ == (CommandView {
            program: "chmod"@,
            args: seq!["-R"@, "+x"@, path_join(dest_root@, "bin"@)],
            cwd: None,
            env: seq![],
            stdin: None,
        }),
{
    let bin_dir = join_path(dest_root, "bin");
    let c = Command::new("chmod").arg("-R").arg("+x").arg(bin_dir.as_str());
    assert(c@.args =~= seq!["-R"@, "+x"@, path_join(dest_root@, "bin"@)]);
    c
}

/// The log update for one streamed output line: the line without trailing whitespace, or
/// nothing when that leaves it empty.
pub fn stream_line_progress(line: &str) -> (r: Option<Progress>)
    ensures
        match r {
            Some(p) => trim_end(line@).len() > 0 && p@ == (ProgressView {
                phase: None,
                bytes_done: None,
                bytes_total: None,
                pct: None,
                log_line: Some(trim_end(line@)),
            }),
            None => trim_end(line@).len() == 0,
        },
{
    let t = crate::text::trim_end_str(line);
    if t.as_str().is_empty() {
        None
    } else {
        Some(Progress::log(t.as_str()))
    }
}

} // verus!
