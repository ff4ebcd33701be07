//! The decisions of the Android emulator provider, which drives `sdkmanager`, `avdmanager`,
//! `emulator` and `adb`: where each tool and file lives, the exact commands, how their output is
//! read, and what each outcome means. Running the commands and waiting on them is the caller's
//! part; every choice in between is made here.

use vstd::prelude::*;

use crate::android::avd_list::{opt_view, AvdEntry, AvdEntryView};
use crate::error::CoreError;
use crate::android::avd_config::AdoptedConfig;
use crate::registry::row::{adopted_identity, EmulatorRow};
use crate::model::component::{ComponentId, HostOs};
use crate::model::emulator::{EmulatorId, Graphics, LiveState, RunState};
use crate::model::image::{coord_text, ImageCoord};
use crate::model::plan::CreateSpec;
use crate::ports::{string_views, Command, CommandView, Output};
use crate::text::{
    cat, cat3, chars_of, contains_chars, contains_str, lines, lines_of, starts_with,
    starts_with_chars, str_eq, string_of, tokens, tokens_of, trim, trim_str, u64_to_string,
    views, decimal, split_char, split_at_char,
};
use crate::toolchain::installed_state::{
    binary_path, installed_in, join_path, marker_of, path_join, InstalledState,
};

verus! {

/// Options for a launch that are not baked into the AVD. The default is windowed and warm.
#[derive(Debug, Clone, PartialEq, Eq)]
pub struct LaunchOpts {
    /// Run without a window.
    pub headless: bool,
    /// Wipe user data on this boot (`-wipe-data`).
    pub wipe_data: bool,
    /// Skip snapshots and boot cold (`-no-snapshot-load`).
    pub cold_boot: bool,
    /// Override the AVD's graphics mode for this launch only.
    pub graphics: Option<Graphics>,
    /// Extra raw flags passed through to the `emulator` binary.
    pub extra_args: Vec<String>,
    /// Device-frame skin to draw, when installed under `<sdk>/skins/<name>`.
    pub skin: Option<String>,
}

impl Default for LaunchOpts {
    fn default() -> (r: LaunchOpts)
        ensures
            !r.headless && !r.wipe_data && !r.cold_boot && r.graphics is None && r.extra_args@.len()
                == 0 && r.skin is None,
    {
        LaunchOpts {
            headless: false,
            wipe_data: false,
            cold_boot: false,
            graphics: None,
            extra_args: Vec::new(),
            skin: None,
        }
    }
}

/// A handle to a launched emulator process.
#[derive(Debug, Clone, PartialEq, Eq)]
pub struct RunningHandle {
    /// Which tracked emulator this is.
    pub id: EmulatorId,
    /// adb serial once the device appears (e.g. `emulator-5554`).
    pub adb_serial: Option<String>,
    /// The `emulator` process id.
    pub pid: Option<u32>,
    /// gRPC control port, when known.
    pub grpc_port: Option<u16>,
}

/// One registry-tracked emulator plus its live run state.
#[derive(Debug, Clone, PartialEq, Eq)]
pub struct TrackedEmulator {
    /// Our stable id.
    pub id: EmulatorId,
    /// The on-disk AVD name.
    pub avd_name: String,
    /// Human-friendly name.
    pub display_name: String,
    /// Current lifecycle state, derived from `adb`.
    pub state: RunState,
    /// `emulator-NNNN` serial when running or booting.
    pub adb_serial: Option<String>,
}

// ---------------------------------------------------------------------------
// Where things live
// ---------------------------------------------------------------------------

/// `avdmanager` sits next to `sdkmanager` (`.bat` on Windows).
pub open spec fn avdmanager_at(sdk_root: Seq<char>, os: HostOs) -> Seq<char> {
    path_join(
        sdk_root,
        if os == HostOs::Windows {
            "cmdline-tools/latest/bin/avdmanager.bat"@
        } else {
            "cmdline-tools/latest/bin/avdmanager"@
        },
    )
}

/// The `avdmanager` under an SDK root.
pub fn avdmanager_path(sdk_root: &str, os: HostOs) -> (r: String)
    ensures
        r@ == avdmanager_at(sdk_root@, os),
{
    let bin = match os {
        HostOs::Windows => "cmdline-tools/latest/bin/avdmanager.bat",
        _ => "cmdline-tools/latest/bin/avdmanager",
    };
    join_path(sdk_root, bin)
}

/// The `adb` under an SDK root.
pub fn adb_path(sdk_root: &str, os: HostOs) -> (r: String)
    ensures
        r@ == path_join(sdk_root@, marker_of(ComponentId::PlatformTools, os)),
{
    binary_path(sdk_root, ComponentId::PlatformTools, os)
}

/// The `emulator` under an SDK root.
pub fn emulator_path(sdk_root: &str, os: HostOs) -> (r: String)
    ensures
        r@ == path_join(sdk_root@, marker_of(ComponentId::Emulator, os)),
{
    binary_path(sdk_root, ComponentId::Emulator, os)
}

/// `base` joined with each segment in turn.
pub open spec fn join_all(base: Seq<char>, segs: Seq<Seq<char>>) -> Seq<char>
    decreases segs.len(),
{
    if segs.len() == 0 {
        base
    } else {
        path_join(join_all(base, segs.drop_last()), segs.last())
    }
}

/// Where `sdkmanager` unpacks a system image: the package path with `;` read as `/`, under the
/// SDK root.
pub open spec fn image_dir_of(sdk_root: Seq<char>, coord: ImageCoord) -> Seq<char> {
    join_all(sdk_root, split_char(coord_text(coord), ';'))
}

/// The install directory of a system image.
pub fn image_dir(sdk_root: &str, coord: ImageCoord) -> (r: String)
    ensures
        r@ == image_dir_of(sdk_root@, coord),
{
    let text = coord.to_string();
    let cs = chars_of(text.as_str());
    let segs = split_at_char(cs.as_slice(), ';');
    let ghost sv = views(segs@);
    let mut dir = sdk_root.to_owned();
    let n = segs.len();
    let mut i: usize = 0;
    while i < n
        invariant
            i <= n,
            n == segs@.len(),
            sv == views(segs@),
            dir@ == join_all(sdk_root@, sv.take(i as int)),
        decreases n - i,
    {
        assert(sv.take(i + 1).drop_last() =~= sv.take(i as int));
        assert(sv[i as int] == segs@[i as int]@);
        let seg = string_of(segs[i].as_slice());
        dir = join_path(dir.as_str(), seg.as_str());
        i = i + 1;
    }
    assert(sv.take(n as int) =~= sv);
    dir
}

/// The file every installed package carries at its root: `source.properties`.
pub fn image_marker_file(sdk_root: &str, coord: ImageCoord) -> (r: String)
    ensures
        r@ == path_join(image_dir_of(sdk_root@, coord), "source.properties"@),
{
    let dir = image_dir(sdk_root, coord);
    join_path(dir.as_str(), "source.properties")
}

/// The launch log of an AVD: `<data_dir>/logs/<avd_name>.log`.
pub fn log_path(data_dir: &str, avd_name: &str) -> (r: String)
    ensures
        r@ == path_join(path_join(data_dir@, "logs"@), avd_name@ + ".log"@),
{
    let logs = join_path(data_dir, "logs");
    let file = cat(avd_name, ".log");
    join_path(logs.as_str(), file.as_str())
}

// ---------------------------------------------------------------------------
// Small pieces of the commands
// ---------------------------------------------------------------------------

/// The `-gpu` value of a graphics choice.
pub open spec fn gpu_mode_of(g: Graphics) -> Seq<char> {
    match g {
        Graphics::Host => "host"@,
        Graphics::SwiftshaderIndirect => "swiftshader_indirect"@,
        Graphics::Auto => "auto"@,
    }
}

/// The `-gpu <mode>` value for a [`Graphics`] choice.
pub fn gpu_mode(graphics: Graphics) -> (r: &'static str)
    ensures
        r@ == gpu_mode_of(graphics),
{
    match graphics {
        Graphics::Host => "host",
        Graphics::SwiftshaderIndirect => "swiftshader_indirect",
        Graphics::Auto => "auto",
    }
}

/// Stdin for an `sdkmanager`/`avdmanager` run that might hit a prompt: `y` and a newline, 50
/// times (bounded, unlike `yes |`).
pub fn prompt_answer_stdin() -> (r: Vec<u8>)
    ensures
        r@ == crate::toolchain::bootstrap::license_answers_of(50),
{
    let mut answers: Vec<u8> = Vec::new();
    let mut i: usize = 0;
    while i < 50
        invariant
            i <= 50,
            answers@ == crate::toolchain::bootstrap::license_answers_of(i as nat),
        decreases 50 - i,
    {
        answers.push(121u8);
        answers.push(10u8);
        assert(answers@ =~= crate::toolchain::bootstrap::license_answers_of((i + 1) as nat));
        i = i + 1;
    }
    answers
}

/// `adb -s <serial> <args…>`.
pub fn adb_command(adb: &str, serial: &str, args: &[&str]) -> (r: Command)
    ensures
        r@ == (CommandView {
            program: adb@,
            args: seq!["-s"@, serial@] + args@.map_values(|s: &str| s@),
            cwd: None,
            env: seq![],
            stdin: None,
        }),
{
    let c = Command::new(adb).arg("-s").arg(serial).args(args);
    assert(c@.args =~= seq!["-s"@, serial@] + args@.map_values(|s: &str| s@));
    c
}

// ---------------------------------------------------------------------------
// Reading `adb` replies
// ---------------------------------------------------------------------------

/// The emulator serial a line of `adb devices` lists, if any: its first token, when it starts
/// with `emulator-`.
pub open spec fn serial_line(line: Seq<char>) -> Option<Seq<char>> {
    let toks = tokens_of(line);
    if toks.len() > 0 && starts_with(toks[0], "emulator-"@) {
        Some(toks[0])
    } else {
        None
    }
}

/// The emulator serials `adb devices` lists, after its header line.
pub open spec fn serials_of(stdout: Seq<char>) -> Seq<Seq<char>> {
    let ls = lines_of(stdout);
    if ls.len() == 0 {
        seq![]
    } else {
        crate::text::somes(ls.skip(1).map_values(|l: Seq<char>| serial_line(l)))
    }
}

/// Serials of every emulator `adb devices` lists (its state ignored).
pub fn parse_emulator_serials(stdout: &str) -> (r: Vec<String>)
    ensures
        string_views(r@) == serials_of(stdout@),
{
    let cs = chars_of(stdout);
    let ls = lines(cs.as_slice());
    let ghost lv = lines_of(stdout@);
    let mut r: Vec<String> = Vec::new();
    let n = ls.len();
    if n == 0 {
        return r;
    }
    let ghost opts = lv.skip(1).map_values(|l: Seq<char>| serial_line(l));
    let prefix = chars_of("emulator-");
    let mut i: usize = 1;
    assert(opts.take(0) =~= Seq::<Option<Seq<char>>>::empty());
    while i < n
        invariant
            1 <= i <= n,
            n == ls@.len(),
            views(ls@) == lv,
            prefix@ == "emulator-"@,
            opts == lv.skip(1).map_values(|l: Seq<char>| serial_line(l)),
            string_views(r@) == crate::text::somes(opts.take(i - 1)),
        decreases n - i,
    {
        proof {
            crate::text::lemma_somes_step(opts, i - 1);
        }
        assert(ls@[i as int]@ == lv[i as int]);
        assert(opts[i - 1] == serial_line(lv[i as int]));
        let toks = tokens(ls[i].as_slice());
        if toks.len() > 0 && starts_with_chars(toks[0].as_slice(), prefix.as_slice()) {
            assert(toks@[0]@ == tokens_of(lv[i as int])[0]);
            let s = string_of(toks[0].as_slice());
            let ghost before = string_views(r@);
            r.push(s);
            assert(string_views(r@) =~= before.push(s@));
        }
        i = i + 1;
    }
    assert(opts.take(n - 1) =~= opts);
    r
}

/// `getprop sys.boot_completed` printed `1`.
pub fn is_boot_completed(stdout: &str) -> (r: bool)
    ensures
        r == (trim(stdout@) == "1"@),
{
    let t = trim_str(stdout);
    str_eq(t.as_str(), "1")
}

/// The AVD name an `emu avd name` reply reports: its first line, trimmed (empty when there is
/// no line).
pub open spec fn reported_name_of(stdout: Seq<char>) -> Seq<char> {
    let ls = lines_of(stdout);
    if ls.len() == 0 {
        seq![]
    } else {
        trim(ls[0])
    }
}

/// The AVD name an `emu avd name` reply reports.
pub fn reported_avd_name(stdout: &str) -> (r: String)
    ensures
        r@ == reported_name_of(stdout@),
{
    let cs = chars_of(stdout);
    let ls = lines(cs.as_slice());
    if ls.len() == 0 {
        return String::new();
    }
    assert(ls@[0]@ == lines_of(stdout@)[0]);
    let t = crate::text::trim_chars(ls[0].as_slice());
    string_of(t.as_slice())
}

/// The SDK root the provider works in: where the command-line tools were found, else the
/// app-managed `sdk` directory.
pub open spec fn sdk_root_in(state: Seq<crate::toolchain::installed_state::ComponentLocationView>, app_sdk_dir: Seq<char>) -> Seq<char> {
    match crate::toolchain::installed_state::location_in(state, ComponentId::CmdlineTools) {
        Some(l) => l.sdk_root,
        None => app_sdk_dir,
    }
}

/// The SDK root the provider works in.
pub fn sdk_root(state: &InstalledState, app_sdk_dir: &str) -> (r: String)
    ensures
        r@ == sdk_root_in(state@, app_sdk_dir@),
{
    match state.location_of(ComponentId::CmdlineTools) {
        Some(l) => l.sdk_root.clone(),
        None => app_sdk_dir.to_owned(),
    }
}

/// The last `max_lines` lines of a log text, oldest first.
pub open spec fn tail_of(text: Seq<char>, max_lines: nat) -> Seq<Seq<char>> {
    let ls = lines_of(text);
    if ls.len() <= max_lines {
        ls
    } else {
        ls.skip(ls.len() - max_lines)
    }
}

/// The last `max_lines` lines of a launch log, oldest first.
pub fn tail_lines(text: &str, max_lines: usize) -> (r: Vec<String>)
    ensures
        string_views(r@) == tail_of(text@, max_lines as nat),
{
    let cs = chars_of(text);
    let ls = lines(cs.as_slice());
    let ghost lv = lines_of(text@);
    let n = ls.len();
    let start: usize = if n > max_lines {
        n - max_lines
    } else {
        0
    };
    let mut r: Vec<String> = Vec::new();
    let mut i: usize = start;
    while i < n
        invariant
            start <= i <= n,
            n == ls@.len(),
            views(ls@) == lv,
            string_views(r@) == lv.subrange(start as int, i as int),
        decreases n - i,
    {
        let s = string_of(ls[i].as_slice());
        let ghost before = string_views(r@);
        let ghost sv = s@;
        r.push(s);
        assert(ls@[i as int]@ == lv[i as int]);
        assert(string_views(r@) =~= before.push(sv));
        assert(string_views(r@) =~= lv.subrange(start as int, i + 1));
        i = i + 1;
    }
    assert(lv.subrange(start as int, n as int) =~= tail_of(text@, max_lines as nat));
    r
}

// ---------------------------------------------------------------------------
// Launch
// ---------------------------------------------------------------------------

/// The message when the `emulator` package is missing.
pub open spec fn no_emulator_text() -> Seq<char> {
    "the emulator package isn't installed — install it on the Dependencies screen."@
}

/// The message when `platform-tools` is missing.
pub open spec fn no_adb_text() -> Seq<char> {
    "platform-tools (adb) isn't installed — Emulator Studio needs it to launch and track emulators. Install it on the Dependencies screen, then try again."@
}

/// A launch needs the `emulator` package and `platform-tools` (adb detects the boot); it fails
/// fast, naming the first one missing.
pub fn launch_prerequisites(state: &InstalledState) -> (r: Result<(), CoreError>)
    ensures
        !installed_in(state@, ComponentId::Emulator) ==> (r matches Err(CoreError::Unsupported(m))
            && m@ == no_emulator_text()),
        installed_in(state@, ComponentId::Emulator) && !installed_in(
            state@,
            ComponentId::PlatformTools,
        ) ==> (r matches Err(CoreError::Unsupported(m)) && m@ == no_adb_text()),
        installed_in(state@, ComponentId::Emulator) && installed_in(
            state@,
            ComponentId::PlatformTools,
        ) ==> r is Ok,
{
    if !state.is_installed(ComponentId::Emulator) {
        return Err(
            CoreError::Unsupported(
                "the emulator package isn't installed — install it on the Dependencies screen.".to_owned(),
            ),
        );
    }
    if !state.is_installed(ComponentId::PlatformTools) {
        return Err(
            CoreError::Unsupported(
                "platform-tools (adb) isn't installed — Emulator Studio needs it to launch and track emulators. Install it on the Dependencies screen, then try again.".to_owned(),
            ),
        );
    }
    Ok(())
}

/// The launch flags for headless, data wipe, cold boot and graphics, in that order.
pub open spec fn option_flags(
    headless: bool,
    wipe_data: bool,
    cold_boot: bool,
    graphics: Option<Graphics>,
) -> Seq<Seq<char>> {
    (if headless {
        seq!["-no-window"@]
    } else {
        seq![]
    }) + (if wipe_data {
        seq!["-wipe-data"@]
    } else {
        seq![]
    }) + (if cold_boot {
        seq!["-no-snapshot-load"@]
    } else {
        seq![]
    }) + (match graphics {
        Some(g) => seq!["-gpu"@, gpu_mode_of(g)],
        None => seq![],
    })
}

/// Each launch option contributes exactly its own flag, in a fixed order: `-no-window` when
/// headless, then `-wipe-data` when wiping, then `-no-snapshot-load` when cold-booting (the
/// snapshot is not loaded), then `-gpu <mode>` when a graphics mode is chosen; nothing else.
/// In particular the flags carry `-no-snapshot-load` exactly when a cold boot is asked for.
pub proof fn lemma_launch_option_flags(
    headless: bool,
    wipe_data: bool,
    cold_boot: bool,
    graphics: Option<Graphics>,
)
    ensures
        ({
            let f = option_flags(headless, wipe_data, cold_boot, graphics);
            let k: int = (if headless { 1int } else { 0int }) + (if wipe_data { 1int } else { 0int });
            let c: int = if cold_boot { 1int } else { 0int };
            &&& f.len() == k + c + (if graphics is Some { 2int } else { 0int })
            &&& headless ==> f[0] == "-no-window"@
            &&& wipe_data ==> f[k - 1] == "-wipe-data"@
            &&& cold_boot ==> f[k] == "-no-snapshot-load"@
            &&& (graphics matches Some(g) ==> f[k + c] == "-gpu"@ && f[k + c + 1] == gpu_mode_of(g))
            &&& (f.contains("-no-snapshot-load"@) <==> cold_boot)
            &&& (f.contains("-no-window"@) <==> headless)
            &&& (f.contains("-wipe-data"@) <==> wipe_data)
        }),
{
    reveal_strlit("-no-window");
    reveal_strlit("-wipe-data");
    reveal_strlit("-no-snapshot-load");
    reveal_strlit("-gpu");
    reveal_strlit("host");
    reveal_strlit("swiftshader_indirect");
    reveal_strlit("auto");
    assert("-no-window"@ != "-wipe-data"@) by {
        assert("-no-window"@[1] != "-wipe-data"@[1]);
    }
    let f = option_flags(headless, wipe_data, cold_boot, graphics);
    let k: int = (if headless { 1int } else { 0int }) + (if wipe_data { 1int } else { 0int });
    let c: int = if cold_boot { 1int } else { 0int };
    let h: Seq<Seq<char>> = if headless { seq!["-no-window"@] } else { seq![] };
    let w: Seq<Seq<char>> = if wipe_data { seq!["-wipe-data"@] } else { seq![] };
    let b: Seq<Seq<char>> = if cold_boot { seq!["-no-snapshot-load"@] } else { seq![] };
    let g: Seq<Seq<char>> = match graphics {
        Some(m) => seq!["-gpu"@, gpu_mode_of(m)],
        None => seq![],
    };
    assert(f == h + w + b + g);
    lemma_concat_contains(h + w + b, g, "-no-snapshot-load"@);
    lemma_concat_contains(h + w, b, "-no-snapshot-load"@);
    lemma_concat_contains(h, w, "-no-snapshot-load"@);
    lemma_concat_contains(h + w + b, g, "-no-window"@);
    lemma_concat_contains(h + w, b, "-no-window"@);
    lemma_concat_contains(h, w, "-no-window"@);
    lemma_concat_contains(h + w + b, g, "-wipe-data"@);
    lemma_concat_contains(h + w, b, "-wipe-data"@);
    lemma_concat_contains(h, w, "-wipe-data"@);
    if let Some(m) = graphics {
        let mode = gpu_mode_of(m);
        assert(g =~= seq!["-gpu"@, mode]);
        assert(mode.len() == 4 || mode.len() == 20) by {
            match m {
                Graphics::Host => {},
                Graphics::SwiftshaderIndirect => {},
                Graphics::Auto => {},
            }
        }
        assert forall|i: int| 0 <= i < g.len() implies (#[trigger] g[i]).len() == 4 || g[i].len() == 20 by {
            if i == 0 {
                assert(g[0] == "-gpu"@);
            } else {
                assert(g[1] == mode);
            }
        }
    }
    assert(!g.contains("-no-snapshot-load"@));
    assert(!g.contains("-no-window"@));
    assert(!g.contains("-wipe-data"@));
    assert(h.contains("-no-window"@) == headless) by {
        if headless {
            assert(h[0] == "-no-window"@);
        }
    }
    assert(w.contains("-wipe-data"@) == wipe_data) by {
        if wipe_data {
            assert(w[0] == "-wipe-data"@);
        }
    }
    assert(b.contains("-no-snapshot-load"@) == cold_boot) by {
        if cold_boot {
            assert(b[0] == "-no-snapshot-load"@);
        }
    }
    assert(!h.contains("-no-snapshot-load"@) && !h.contains("-wipe-data"@)) by {
        if headless {
            assert(h.len() == 1 && h[0] == "-no-window"@);
            assert(forall|i: int| 0 <= i < h.len() ==> h[i] == "-no-window"@);
        }
    }
    assert(!w.contains("-no-snapshot-load"@) && !w.contains("-no-window"@)) by {
        if wipe_data {
            assert(w.len() == 1 && w[0] == "-wipe-data"@);
            assert(forall|i: int| 0 <= i < w.len() ==> w[i] == "-wipe-data"@);
        }
    }
    assert(!b.contains("-no-window"@) && !b.contains("-wipe-data"@)) by {
        if cold_boot {
            assert(b.len() == 1 && b[0] == "-no-snapshot-load"@);
            assert(forall|i: int| 0 <= i < b.len() ==> b[i] == "-no-snapshot-load"@);
        }
    }
    if headless {
        assert(f[0] == "-no-window"@);
    }
    if wipe_data {
        assert(f[k - 1] == "-wipe-data"@);
    }
    if cold_boot {
        assert(f[k] == "-no-snapshot-load"@);
    }
}

/// An item is in a concatenation exactly when it is in one of the two parts.
proof fn lemma_concat_contains<A>(a: Seq<A>, b: Seq<A>, x: A)
    ensures
        (a + b).contains(x) <==> a.contains(x) || b.contains(x),
{
    if a.contains(x) {
        let i = choose|i: int| 0 <= i < a.len() && a[i] == x;
        assert((a + b)[i] == x);
    }
    if b.contains(x) {
        let i = choose|i: int| 0 <= i < b.len() && b[i] == x;
        assert((a + b)[a.len() + i] == x);
    }
    if (a + b).contains(x) {
        let i = choose|i: int| 0 <= i < (a + b).len() && (a + b)[i] == x;
        if i < a.len() {
            assert(a[i] == x);
        } else {
            assert(b[i - a.len()] == x);
        }
    }
}

/// The skin flags: `-skin <name> -skindir <dir>`, only when the requested skin is installed.
pub open spec fn skin_flags(skin: Option<Seq<char>>, skins_dir: Seq<char>, installed: bool) -> Seq<Seq<char>> {
    match skin {
        Some(s) => if installed {
            seq!["-skin"@, s, "-skindir"@, skins_dir]
        } else {
            seq![]
        },
        None => seq![],
    }
}

/// The arguments of `emulator`: `@<avd>`, the option flags, the skin flags, then the extra
/// arguments.
pub open spec fn launch_args(
    avd_name: Seq<char>,
    opts_flags: Seq<Seq<char>>,
    skin: Seq<Seq<char>>,
    extra: Seq<Seq<char>>,
) -> Seq<Seq<char>> {
    seq!["@"@ + avd_name] + opts_flags + skin + extra
}

/// The launch command and the note to log about the skin.
#[derive(Debug, Clone, PartialEq, Eq)]
pub struct LaunchPlan {
    /// `emulator @<avd> …`.
    pub command: Command,
    /// Why the requested skin is not drawn, when it is not installed.
    pub skin_note: Option<String>,
}

/// Append owned strings to a list of arguments.
fn push_all(args: &mut Vec<String>, more: &[String])
    ensures
        string_views(final(args)@) == string_views(old(args)@) + string_views(more@),
{
    let n = more.len();
    let mut i: usize = 0;
    let ghost start = string_views(args@);
    while i < n
        invariant
            i <= n,
            n == more@.len(),
            string_views(args@) == start + string_views(more@).take(i as int),
        decreases n - i,
    {
        let ghost before = string_views(args@);
        let s = more[i].clone();
        args.push(s);
        assert(string_views(args@) =~= before.push(more@[i as int]@));
        assert(string_views(more@).take(i + 1) =~= string_views(more@).take(i as int).push(
            more@[i as int]@,
        ));
        i = i + 1;
    }
    assert(string_views(more@).take(n as int) =~= string_views(more@));
}

/// The option flags of a launch.
fn option_flag_list(opts: &LaunchOpts) -> (r: Vec<String>)
    ensures
        string_views(r@) == option_flags(opts.headless, opts.wipe_data, opts.cold_boot, opts.graphics),
{
    let mut r: Vec<String> = Vec::new();
    if opts.headless {
        r.push("-no-window".to_owned());
    }
    let ghost a = string_views(r@);
    if opts.wipe_data {
        r.push("-wipe-data".to_owned());
        assert(string_views(r@) =~= a.push("-wipe-data"@));
    }
    let ghost b = string_views(r@);
    if opts.cold_boot {
        r.push("-no-snapshot-load".to_owned());
        assert(string_views(r@) =~= b.push("-no-snapshot-load"@));
    }
    let ghost c = string_views(r@);
    match opts.graphics {
        Some(g) => {
            r.push("-gpu".to_owned());
            r.push(gpu_mode(g).to_owned());
            assert(string_views(r@) =~= c + seq!["-gpu"@, gpu_mode_of(g)]);
        },
        None => {},
    }
    assert(string_views(r@) =~= option_flags(
        opts.headless,
        opts.wipe_data,
        opts.cold_boot,
        opts.graphics,
    ));
    r
}

/// The command that launches `avd_name`, given whether the requested skin (if any) is installed
/// under `skins_dir`: `-skin <name> -skindir <dir>` only when it is, else a note saying the
/// emulator launches without a frame.
pub fn launch_plan(
    emulator: &str,
    avd_name: &str,
    opts: &LaunchOpts,
    skins_dir: &str,
    skin_installed: bool,
) -> (r: LaunchPlan)
    ensures
        r.command@ == (CommandView {
            program: emulator@,
            args: launch_args(
                avd_name@,
                option_flags(opts.headless, opts.wipe_data, opts.cold_boot, opts.graphics),
                skin_flags(opt_view(opts.skin), skins_dir@, skin_installed),
                string_views(opts.extra_args@),
            ),
            cwd: None,
            env: seq![],
            stdin: None,
        }),
        opt_view(r.skin_note) == match opts.skin {
            Some(s) => if skin_installed {
                None
            } else {
                Some(
                    "device-frame skin '"@ + s@ + "' isn't installed under "@ + skins_dir@
                        + " — launching without a frame"@,
                )
            },
            None => None,
        },
{
    let mut args: Vec<String> = Vec::new();
    let first = cat("@", avd_name);
    let ghost fv = first@;
    args.push(first);
    assert(string_views(args@) =~= seq![fv]);
    let flags = option_flag_list(opts);
    push_all(&mut args, flags.as_slice());
    let mut skin_args: Vec<String> = Vec::new();
    let mut skin_note: Option<String> = None;
    match &opts.skin {
        Some(skin) => {
            if skin_installed {
                skin_args.push("-skin".to_owned());
                skin_args.push(skin.clone());
                skin_args.push("-skindir".to_owned());
                skin_args.push(skins_dir.to_owned());
                assert(string_views(skin_args@) =~= seq!["-skin"@, skin@, "-skindir"@, skins_dir@]);
            } else {
                let mut m = cat3("device-frame skin '", skin.as_str(), "' isn't installed under ");
                m.append(skins_dir);
                m.append(" — launching without a frame");
                skin_note = Some(m);
            }
        },
        None => {},
    }
    assert(string_views(skin_args@) =~= skin_flags(opt_view(opts.skin), skins_dir@, skin_installed));
    push_all(&mut args, skin_args.as_slice());
    push_all(&mut args, opts.extra_args.as_slice());
    let mut cmd = Command::new(emulator);
    let n = args.len();
    let mut i: usize = 0;
    assert(string_views(args@).take(0) =~= Seq::<Seq<char>>::empty());
    while i < n
        invariant
            i <= n,
            n == args@.len(),
            cmd@ == (CommandView {
                program: emulator@,
                args: string_views(args@).take(i as int),
                cwd: None,
                env: seq![],
                stdin: None,
            }),
        decreases n - i,
    {
        cmd = cmd.arg(args[i].as_str());
        assert(string_views(args@).take(i + 1) =~= string_views(args@).take(i as int).push(
            args@[i as int]@,
        ));
        i = i + 1;
    }
    assert(string_views(args@).take(n as int) =~= string_views(args@));
    assert(string_views(args@) =~= launch_args(
        avd_name@,
        option_flags(opts.headless, opts.wipe_data, opts.cold_boot, opts.graphics),
        skin_flags(opt_view(opts.skin), skins_dir@, skin_installed),
        string_views(opts.extra_args@),
    ));
    LaunchPlan { command: cmd, skin_note }
}

/// The launch-log line about the hardware keyboard: written, or why not.
pub fn keyboard_note(write_error: Option<String>) -> (r: String)
    ensures
        r@ == match write_error {
            None => "enabled the hardware keyboard (hw.keyboard=yes) so your desktop keyboard types into the emulator"@,
            Some(e) => "could not enable the hardware keyboard in config.ini ("@ + e@
                + "); the on-screen keyboard still works"@,
        },
{
    match write_error {
        None => "enabled the hardware keyboard (hw.keyboard=yes) so your desktop keyboard types into the emulator".to_owned(),
        Some(e) => cat3(
            "could not enable the hardware keyboard in config.ini (",
            e.as_str(),
            "); the on-screen keyboard still works",
        ),
    }
}

/// Waiting for a launched emulator to boot: the serial it shows up on is the first one `adb
/// devices` lists once any appears; boot is done when that serial reports
/// `sys.boot_completed=1`.
#[derive(Debug, Clone, PartialEq, Eq)]
pub struct BootWait {
    /// The AVD being booted.
    pub avd_name: String,
    /// How long to wait, in seconds.
    pub timeout_secs: u64,
    /// The serial it showed up on, once known.
    pub serial: Option<String>,
}

impl BootWait {
    /// Start waiting for `avd_name`.
    pub fn new(avd_name: &str, timeout_secs: u64) -> (r: BootWait)
        ensures
            r.avd_name@ == avd_name@,
            r.timeout_secs == timeout_secs,
            r.serial is None,
    {
        BootWait { avd_name: avd_name.to_owned(), timeout_secs, serial: None }
    }

    /// A poll saw these serials in `adb devices`: adopt the first one if none is known yet, and
    /// return the serial whose boot state to check, if any.
    pub fn on_serials(&mut self, listed: &[String]) -> (r: Option<String>)
        ensures
            final(self).avd_name == old(self).avd_name,
            final(self).timeout_secs == old(self).timeout_secs,
            old(self).serial is Some ==> final(self).serial == old(self).serial,
            old(self).serial is None && listed@.len() > 0 ==> opt_view(final(self).serial) == Some(
                listed@[0]@,
            ),
            old(self).serial is None && listed@.len() == 0 ==> final(self).serial is None,
            opt_view(r) == opt_view(final(self).serial),
    {
        if self.serial.is_none() && listed.len() > 0 {
            self.serial = Some(listed[0].clone());
        }
        match &self.serial {
            Some(s) => Some(s.clone()),
            None => None,
        }
    }

    /// The error when the deadline passes before boot completes.
    pub fn timed_out(&self) -> (e: CoreError)
        ensures
            e matches CoreError::Process { program, code, stderr } && program@ == "emulator"@ && code
                == -1 && stderr@ == "'"@ + self.avd_name@
                + "' did not reach sys.boot_completed=1 within "@ + decimal(
                self.timeout_secs as nat,
            ) + "s"@,
    {
        let secs = u64_to_string(self.timeout_secs);
        let mut m = cat3("'", self.avd_name.as_str(), "' did not reach sys.boot_completed=1 within ");
        m.append(secs.as_str());
        m.append("s");
        CoreError::Process { program: "emulator".to_owned(), code: -1, stderr: m }
    }

    /// The emulator's output ended (it exited): booted after all if its serial's last check says
    /// so, else the exit is the error.
    pub fn on_exit(&self, booted: bool, status: i32) -> (r: Result<String, CoreError>)
        ensures
            self.serial is Some && booted ==> (r matches Ok(s) && s@ == self.serial->0@),
            !(self.serial is Some && booted) ==> (r matches Err(
                CoreError::Process { program, code, stderr },
            ) && program@ == "emulator"@ && code == status && stderr@ == "emulator exited (code "@
                + crate::text::signed_decimal(status as int) + ") before sys.boot_completed=1"@),
    {
        if booted {
            if let Some(s) = &self.serial {
                return Ok(s.clone());
            }
        }
        let code = crate::text::i32_to_string(status);
        let m = cat3("emulator exited (code ", code.as_str(), ") before sys.boot_completed=1");
        Err(CoreError::Process { program: "emulator".to_owned(), code: status, stderr: m })
    }
}

// ---------------------------------------------------------------------------
// Stop, delete, wipe
// ---------------------------------------------------------------------------

/// The graceful stop: `adb -s <serial> emu kill`.
pub fn stop_command(adb: &str, serial: &str) -> (r: Command)
    ensures
        r@.program == adb@,
        r@.args == seq!["-s"@, serial@, "emu"@, "kill"@],
{
    let c = Command::new(adb).arg("-s").arg(serial).arg("emu").arg("kill");
    assert(c@.args =~= seq!["-s"@, serial@, "emu"@, "kill"@]);
    c
}

/// The outcome of `adb emu kill`: a non-zero exit is a process error.
pub fn stop_kill_outcome(out: &Output) -> (r: Result<(), CoreError>)
    ensures
        (r is Ok) == (out.status == 0),
        out.status != 0 ==> (r matches Err(CoreError::Process { program, code, stderr })
            && program@ == "adb emu kill"@ && code == out.status && stderr@ == out.stderr@),
{
    if out.success() {
        Ok(())
    } else {
        Err(
            CoreError::Process {
                program: "adb emu kill".to_owned(),
                code: out.status,
                stderr: out.stderr.clone(),
            },
        )
    }
}

/// What to do when the emulator is still listed after the stop timeout.
#[derive(Debug, Clone, PartialEq, Eq)]
pub enum StopFallback {
    /// Kill the child process this app launched.
    ForceKill,
    /// Nothing left to try: the error to report.
    GiveUp(CoreError),
}

/// After the stop timeout: force-kill the child when this app holds it, else report that the
/// emulator must be killed by hand.
pub fn stop_timeout_fallback(holds_child: bool, avd_name: &str, serial: &str, timeout_secs: u64) -> (r: StopFallback)
    ensures
        holds_child ==> r == StopFallback::ForceKill,
        !holds_child ==> (r matches StopFallback::GiveUp(CoreError::Process { program, code, stderr })
            && program@ == "adb emu kill"@ && code == -1 && stderr@ == "emulator '"@ + avd_name@
            + "' ("@ + serial@ + ") did not exit within "@ + decimal(timeout_secs as nat)
            + "s and this process has no handle to it (started out-of-band, or the app was restarted) — kill it manually; pid-tracked force-stop lands with M3's registry"@),
{
    if holds_child {
        return StopFallback::ForceKill;
    }
    let secs = u64_to_string(timeout_secs);
    let mut m = cat3("emulator '", avd_name, "' (");
    m.append(serial);
    m.append(") did not exit within ");
    m.append(secs.as_str());
    m.append(
        "s and this process has no handle to it (started out-of-band, or the app was restarted) — kill it manually; pid-tracked force-stop lands with M3's registry",
    );
    StopFallback::GiveUp(CoreError::Process { program: "adb emu kill".to_owned(), code: -1, stderr: m })
}

/// The refusal to touch a running emulator: `'<name>' is running — stop it before <doing>`.
pub fn running_refusal(display_name: &str, doing: &str) -> (e: CoreError)
    ensures
        crate::error::is_invalid_error(
            e,
            "emulator"@,
            "'"@ + display_name@ + "' is running — stop it before "@ + doing@,
        ),
{
    let mut m = cat3("'", display_name, "' is running — stop it before ");
    m.append(doing);
    CoreError::invalid("emulator", m.as_str())
}

/// `avdmanager delete avd -n <name>`.
pub fn delete_command(avdmanager: &str, avd_name: &str) -> (r: Command)
    ensures
        r@.program == avdmanager@,
        r@.args == seq!["delete"@, "avd"@, "-n"@, avd_name@],
        r@.stdin is None,
{
    let c = Command::new(avdmanager).arg("delete").arg("avd").arg("-n").arg(avd_name);
    assert(c@.args =~= seq!["delete"@, "avd"@, "-n"@, avd_name@]);
    c
}

/// The outcome of `avdmanager delete avd`: success, or an AVD already gone out-of-band (the end
/// state wanted); anything else is a process error.
pub fn delete_outcome(out: &Output) -> (r: Result<(), CoreError>)
    ensures
        (r is Ok) == (out.status == 0 || contains_str(
            out.stderr@,
            "no Android Virtual Device named"@,
        )),
        r matches Err(CoreError::Process { program, code, stderr }) ==> program@
            == "avdmanager delete avd"@ && code == out.status && stderr@ == out.stderr@,
        r is Err ==> r matches Err(CoreError::Process { .. }),
{
    let sc = chars_of(out.stderr.as_str());
    let needle = chars_of("no Android Virtual Device named");
    if !out.success() && !contains_chars(sc.as_slice(), needle.as_slice()) {
        return Err(
            CoreError::Process {
                program: "avdmanager delete avd".to_owned(),
                code: out.status,
                stderr: out.stderr.clone(),
            },
        );
    }
    Ok(())
}

/// The files and directories in an AVD directory that hold its writable state: what wiping
/// data deletes.
pub open spec fn wipe_names() -> Seq<Seq<char>> {
    seq![
        "userdata-qemu.img"@,
        "userdata-qemu.img.qcow2"@,
        "userdata.img"@,
        "userdata.img.qcow2"@,
        "cache.img"@,
        "cache.img.qcow2"@,
        "snapshots"@,
    ]
}

/// The paths wiping an AVD's data removes (each only if it exists).
pub fn wipe_targets(avd_dir: &str) -> (r: Vec<String>)
    ensures
        string_views(r@) == wipe_names().map_values(|n: Seq<char>| path_join(avd_dir@, n)),
{
    let names: [&str; 7] = [
        "userdata-qemu.img",
        "userdata-qemu.img.qcow2",
        "userdata.img",
        "userdata.img.qcow2",
        "cache.img",
        "cache.img.qcow2",
        "snapshots",
    ];
    let mut r: Vec<String> = Vec::new();
    let mut i: usize = 0;
    assert(names@.map_values(|s: &str| s@) =~= wipe_names());
    while i < 7
        invariant
            i <= 7,
            names@.map_values(|s: &str| s@) == wipe_names(),
            string_views(r@) == wipe_names().take(i as int).map_values(
                |n: Seq<char>| path_join(avd_dir@, n),
            ),
        decreases 7 - i,
    {
        let p = join_path(avd_dir, names[i]);
        let ghost before = string_views(r@);
        let ghost pv = p@;
        r.push(p);
        assert(string_views(r@) =~= before.push(pv));
        assert(names@[i as int]@ == wipe_names()[i as int]);
        assert(string_views(r@) =~= wipe_names().take(i + 1).map_values(
            |n: Seq<char>| path_join(avd_dir@, n),
        ));
        i = i + 1;
    }
    assert(wipe_names().take(7) =~= wipe_names());
    r
}

/// The inspector's refusal for an emulator that is not running.
pub fn not_running_err(avd_name: &str) -> (e: CoreError)
    ensures
        e matches CoreError::Invalid { what, detail } && what@ == "device inspector"@ && detail@
            == "emulator '"@ + avd_name@ + "' isn't running"@,
{
    CoreError::Invalid {
        what: "device inspector",
        detail: cat3("emulator '", avd_name, "' isn't running"),
    }
}

/// The error for an id the registry does not know.
pub fn unknown_emulator(id: &EmulatorId) -> (e: CoreError)
    ensures
        e matches CoreError::NotFound { what, name } && what@ == "emulator"@ && name@ == id.0@,
{
    CoreError::NotFound { what: "emulator", name: id.0.clone() }
}

// ---------------------------------------------------------------------------
// Reconciliation
// ---------------------------------------------------------------------------

/// The live state of a tracked emulator, from ground truth: its AVD missing from or broken in
/// `avdmanager list avd` is an error; otherwise running on its serial when booted, booting when
/// it has a serial, else stopped.
pub open spec fn live_state_of(
    on_disk: Option<bool>,
    serial: Option<Seq<char>>,
    booted: bool,
) -> (RunState, Option<Seq<char>>) {
    match on_disk {
        None => (RunState::Error, None),
        Some(loadable) => if !loadable {
            (RunState::Error, None)
        } else {
            match serial {
                Some(s) => if booted {
                    (RunState::Running, Some(s))
                } else {
                    (RunState::Booting, Some(s))
                },
                None => (RunState::Stopped, None),
            }
        },
    }
}

/// A row's stored run fields.
#[derive(Debug, Clone, PartialEq, Eq)]
pub struct RunFields {
    /// Last known lifecycle state.
    pub state: RunState,
    /// adb serial, when running.
    pub adb_serial: Option<String>,
    /// gRPC control port, when known.
    pub grpc_port: Option<u16>,
    /// Process id, when this app launched it.
    pub pid: Option<u32>,
    /// Seconds since the Unix epoch of the last launch, when known.
    pub launched_at: Option<i64>,
}

/// What reconciliation does to one row.
#[derive(Debug, Clone, PartialEq, Eq)]
pub struct RowRefresh {
    /// The refreshed run fields.
    pub fields: RunFields,
    /// Whether they differ from what is stored (and so must be written).
    pub changed: bool,
}

/// Refresh one tracked row against ground truth: `on_disk` is whether its AVD is listed (and
/// loadable), `serial` the serial it runs on, `booted` whether that serial finished booting.
/// Kill-safety: a row that is not running or booting keeps no pid, port or launch time.
pub fn refresh_row(stored: &RunFields, on_disk: Option<bool>, serial: Option<String>, booted: bool) -> (r: RowRefresh)
    ensures
        (r.fields.state, opt_view(r.fields.adb_serial)) == live_state_of(
            on_disk,
            opt_view(serial),
            booted,
        ),
        (r.fields.state == RunState::Running || r.fields.state == RunState::Booting) ==> (
        r.fields.pid == stored.pid && r.fields.grpc_port == stored.grpc_port
            && r.fields.launched_at == stored.launched_at),
        !(r.fields.state == RunState::Running || r.fields.state == RunState::Booting) ==> (
        r.fields.pid is None && r.fields.grpc_port is None && r.fields.launched_at is None),
        r.changed == (stored.state != r.fields.state || opt_view(stored.adb_serial) != opt_view(
            r.fields.adb_serial,
        ) || (!(r.fields.state == RunState::Running || r.fields.state == RunState::Booting) && (
        stored.pid is Some || stored.grpc_port is Some))),
{
    let (state, new_serial): (RunState, Option<String>) = match on_disk {
        None => (RunState::Error, None),
        Some(loadable) => if !loadable {
            (RunState::Error, None)
        } else {
            match serial {
                Some(s) => if booted {
                    (RunState::Running, Some(s))
                } else {
                    (RunState::Booting, Some(s))
                },
                None => (RunState::Stopped, None),
            }
        },
    };
    let running = match state {
        RunState::Running | RunState::Booting => true,
        _ => false,
    };
    let pid = if running {
        stored.pid
    } else {
        None
    };
    let grpc_port = if running {
        stored.grpc_port
    } else {
        None
    };
    let launched_at = if running {
        stored.launched_at
    } else {
        None
    };
    let same_serial = match (&stored.adb_serial, &new_serial) {
        (Some(a), Some(b)) => str_eq(a.as_str(), b.as_str()),
        (None, None) => true,
        _ => false,
    };
    let changed = stored.state != state || !same_serial || (!running && (stored.pid.is_some()
        || stored.grpc_port.is_some()));
    RowRefresh {
        fields: RunFields { state, adb_serial: new_serial, grpc_port, pid, launched_at },
        changed,
    }
}

/// The loadable on-disk AVDs the registry does not know yet: what reconciliation adopts.
pub open spec fn to_adopt(avds: Seq<AvdEntryView>, known: Seq<Seq<char>>) -> Seq<AvdEntryView>
    decreases avds.len(),
{
    if avds.len() == 0 {
        seq![]
    } else {
        let rest = to_adopt(avds.drop_last(), known);
        if avds.last().loadable && !known.contains(avds.last().name) {
            rest.push(avds.last())
        } else {
            rest
        }
    }
}

/// The indices, in `avds`, of the entries reconciliation adopts.
pub fn adoption_candidates(avds: &[AvdEntry], known: &[String]) -> (r: Vec<usize>)
    ensures
        forall|k: int| 0 <= k < r@.len() ==> r@[k] < avds@.len(),
        r@.map_values(|i: usize| avds@[i as int]@) == to_adopt(
            crate::android::avd_list::entry_views(avds@),
            string_views(known@),
        ),
{
    let ghost av = crate::android::avd_list::entry_views(avds@);
    let ghost kv = string_views(known@);
    let mut r: Vec<usize> = Vec::new();
    let n = avds.len();
    let mut i: usize = 0;
    while i < n
        invariant
            i <= n,
            n == avds@.len(),
            av == crate::android::avd_list::entry_views(avds@),
            kv == string_views(known@),
            forall|k: int| 0 <= k < r@.len() ==> r@[k] < i,
            r@.map_values(|j: usize| avds@[j as int]@) == to_adopt(av.take(i as int), kv),
        decreases n - i,
    {
        assert(av.take(i + 1).drop_last() =~= av.take(i as int));
        assert(av[i as int] == avds@[i as int]@);
        let m = known.len();
        let mut j: usize = 0;
        let mut seen = false;
        while j < m
            invariant
                j <= m,
                m == known@.len(),
                i < n,
                n == avds@.len(),
                kv == string_views(known@),
                seen == (exists|k: int| 0 <= k < j && kv[k] == avds@[i as int].name@),
            decreases m - j,
        {
            assert(kv[j as int] == known@[j as int]@);
            if str_eq(known[j].as_str(), avds[i].name.as_str()) {
                seen = true;
            }
            j = j + 1;
        }
        assert(seen == kv.contains(avds@[i as int].name@));
        if avds[i].loadable && !seen {
            let ghost before = r@;
            r.push(i);
            assert(r@.map_values(|j: usize| avds@[j as int]@) =~= before.map_values(
                |j: usize| avds@[j as int]@,
            ).push(avds@[i as int]@));
        }
        assert(r@.map_values(|j: usize| avds@[j as int]@) =~= to_adopt(av.take(i + 1), kv));
        i = i + 1;
    }
    assert(av.take(n as int) =~= av);
    r
}

// ---------------------------------------------------------------------------
// Images and AVD creation
// ---------------------------------------------------------------------------

/// `sdkmanager <package path>`, answering any prompt `y`.
pub fn install_image_command(sdkmanager: &str, coord: ImageCoord) -> (r: Command)
    ensures
        r@ == (CommandView {
            program: sdkmanager@,
            args: seq![coord_text(coord)],
            cwd: None,
            env: seq![],
            stdin: Some(crate::toolchain::bootstrap::license_answers_of(50)),
        }),
{
    let path = coord.to_string();
    let c = Command::new(sdkmanager).arg(path.as_str()).with_stdin(prompt_answer_stdin());
    assert(c@.args =~= seq![coord_text(coord)]);
    c
}

/// The check after `sdkmanager` exits 0: the image must really be present.
pub fn image_install_check(present: bool, coord: ImageCoord, sdk_root: &str) -> (r: Result<(), CoreError>)
    ensures
        present ==> r is Ok,
        !present ==> (r matches Err(CoreError::Invalid { what, detail }) && what@
            == "system image install"@ && detail@ == "sdkmanager exited 0 but "@ + coord_text(coord)
            + " is not present under "@ + sdk_root@),
{
    if present {
        return Ok(());
    }
    let text = coord.to_string();
    let mut m = cat3("sdkmanager exited 0 but ", text.as_str(), " is not present under ");
    m.append(sdk_root);
    Err(CoreError::Invalid { what: "system image install", detail: m })
}

/// `avdmanager create avd -n <name> -k <package path> -d <device>`, answering any prompt `y`.
pub fn create_command(avdmanager: &str, avd_name: &str, coord: ImageCoord, device_profile_id: &str) -> (r: Command)
    ensures
        r@ == (CommandView {
            program: avdmanager@,
            args: seq![
                "create"@,
                "avd"@,
                "-n"@,
                avd_name@,
                "-k"@,
                coord_text(coord),
                "-d"@,
                device_profile_id@,
            ],
            cwd: None,
            env: seq![],
            stdin: Some(crate::toolchain::bootstrap::license_answers_of(50)),
        }),
{
    let path = coord.to_string();
    let c = Command::new(avdmanager).arg("create").arg("avd").arg("-n").arg(avd_name).arg("-k").arg(
        path.as_str(),
    ).arg("-d").arg(device_profile_id).with_stdin(prompt_answer_stdin());
    assert(c@.args =~= seq![
        "create"@,
        "avd"@,
        "-n"@,
        avd_name@,
        "-k"@,
        coord_text(coord),
        "-d"@,
        device_profile_id@,
    ]);
    c
}

/// A failed `avdmanager create avd`, made specific from its stderr: an existing name, an
/// unknown device, an unknown system image, else the process error.
pub fn classify_create_avd_error(spec: &CreateSpec, output: &Output) -> (e: CoreError)
    ensures
        contains_str(output.stderr@, "already exists"@) ==> crate::error::is_invalid_error(
            e,
            "avd name"@,
            "'"@ + spec.avd_name@
                + "' already exists locally; pick a different name or delete it first"@,
        ),
        !contains_str(output.stderr@, "already exists"@) && contains_str(
            output.stderr@,
            "No device found matching"@,
        ) ==> (e matches CoreError::NotFound { what, name } && what@ == "device profile"@
            && name@ == spec.device_profile_id@),
        !contains_str(output.stderr@, "already exists"@) && !contains_str(
            output.stderr@,
            "No device found matching"@,
        ) && contains_str(output.stderr@, "Package path is not valid"@) ==> (e matches CoreError::NotFound {
            what,
            name,
        } && what@ == "system image"@ && name@ == coord_text(spec.image_coord)),
        !contains_str(output.stderr@, "already exists"@) && !contains_str(
            output.stderr@,
            "No device found matching"@,
        ) && !contains_str(output.stderr@, "Package path is not valid"@) ==> (e matches CoreError::Process {
            program,
            code,
            stderr,
        } && program@ == "avdmanager"@ && code == output.status && stderr@ == output.stderr@),
{
    let sc = chars_of(output.stderr.as_str());
    if contains_chars(sc.as_slice(), chars_of("already exists").as_slice()) {
        let m = cat3(
            "'",
            spec.avd_name.as_str(),
            "' already exists locally; pick a different name or delete it first",
        );
        CoreError::invalid("avd name", m.as_str())
    } else if contains_chars(sc.as_slice(), chars_of("No device found matching").as_slice()) {
        CoreError::NotFound { what: "device profile", name: spec.device_profile_id.clone() }
    } else if contains_chars(sc.as_slice(), chars_of("Package path is not valid").as_slice()) {
        CoreError::NotFound { what: "system image", name: spec.image_coord.to_string() }
    } else {
        CoreError::Process {
            program: "avdmanager".to_owned(),
            code: output.status,
            stderr: output.stderr.clone(),
        }
    }
}

/// The run state the dashboard shows for a tracked emulator: stopped without a serial, running
/// once booted, booting in between.
pub fn tracked_state(serial: &Option<String>, booted: bool) -> (r: RunState)
    ensures
        r == match serial {
            None => RunState::Stopped,
            Some(_) => if booted {
                RunState::Running
            } else {
                RunState::Booting
            },
        },
{
    match serial {
        None => RunState::Stopped,
        Some(_) => if booted {
            RunState::Running
        } else {
            RunState::Booting
        },
    }
}


// ---------------------------------------------------------------------------
// The reconcile pass
// ---------------------------------------------------------------------------

/// One emulator `adb` shows live: the AVD name it reports, its serial, and whether it has
/// finished booting.
#[derive(Debug, Clone, PartialEq, Eq)]
pub struct LiveSerial {
    /// The AVD name `emu avd name` reported.
    pub avd_name: String,
    /// Its `emulator-NNNN` serial.
    pub serial: String,
    /// Whether `sys.boot_completed` is `1`.
    pub booted: bool,
}

/// The contents of live serials.
pub open spec fn live_views(v: Seq<LiveSerial>) -> Seq<(Seq<char>, Seq<char>, bool)> {
    v.map_values(|l: LiveSerial| (l.avd_name@, l.serial@, l.booted))
}

/// Whether `avdmanager list avd` lists `name`, and then whether it is loadable (the last entry
/// of that name counts).
pub open spec fn listed_state(avds: Seq<AvdEntryView>, name: Seq<char>) -> Option<bool>
    decreases avds.len(),
{
    if avds.len() == 0 {
        None
    } else if avds.last().name == name {
        Some(avds.last().loadable)
    } else {
        listed_state(avds.drop_last(), name)
    }
}

/// The serial `name` runs on and whether it booted (the last report for that name counts).
pub open spec fn live_serial_of(live: Seq<(Seq<char>, Seq<char>, bool)>, name: Seq<char>) -> Option<(Seq<char>, bool)>
    decreases live.len(),
{
    if live.len() == 0 {
        None
    } else if live.last().0 == name {
        Some((live.last().1, live.last().2))
    } else {
        live_serial_of(live.drop_last(), name)
    }
}

/// The run state and serial ground truth gives the AVD `name`.
pub open spec fn ground_truth(
    avds: Seq<AvdEntryView>,
    live: Seq<(Seq<char>, Seq<char>, bool)>,
    name: Seq<char>,
) -> (RunState, Option<Seq<char>>) {
    live_state_of(
        listed_state(avds, name),
        match live_serial_of(live, name) {
            Some((s, _)) => Some(s),
            None => None,
        },
        match live_serial_of(live, name) {
            Some((_, b)) => b,
            None => false,
        },
    )
}

/// A run state with a live process.
pub open spec fn is_live(s: RunState) -> bool {
    s == RunState::Running || s == RunState::Booting
}

/// `new` is `old` refreshed against ground truth at `now`: every stored field but the run
/// fields kept, the state and serial from ground truth, (kill-safety) the pid, port and launch
/// time kept only while live, and the update time moved to `now` exactly when the row changed.
pub open spec fn row_reconciled(
    old: EmulatorRow,
    new: EmulatorRow,
    avds: Seq<AvdEntryView>,
    live: Seq<(Seq<char>, Seq<char>, bool)>,
    now: time::OffsetDateTime,
) -> bool {
    let (state, serial) = ground_truth(avds, live, old.avd_name@);
    &&& new.id == old.id
    &&& new.avd_name == old.avd_name
    &&& new.display_name == old.display_name
    &&& new.device_profile_id == old.device_profile_id
    &&& new.image_coord == old.image_coord
    &&& new.hardware == old.hardware
    &&& new.source == old.source
    &&& new.tags == old.tags
    &&& new.notes == old.notes
    &&& new.created_at == old.created_at
    &&& new.updated_at == if row_changed(old, new) {
        now
    } else {
        old.updated_at
    }
    &&& new.last_state == state
    &&& opt_view(new.adb_serial) == serial
    &&& is_live(state) ==> new.pid == old.pid && new.grpc_port == old.grpc_port && new.launched_at
        == old.launched_at
    &&& !is_live(state) ==> new.pid is None && new.grpc_port is None && new.launched_at is None
}

/// Whether a refreshed row must be written back: its state or serial moved, or a stale pid or
/// port was cleared.
pub open spec fn row_changed(old: EmulatorRow, new: EmulatorRow) -> bool {
    old.last_state != new.last_state || opt_view(old.adb_serial) != opt_view(new.adb_serial) || (
    !is_live(new.last_state) && (old.pid is Some || old.grpc_port is Some))
}

/// The last listing entry named `name`: whether it is loadable.
fn listed_state_of(avds: &[AvdEntry], name: &str) -> (r: Option<bool>)
    ensures
        r == listed_state(crate::android::avd_list::entry_views(avds@), name@),
{
    let ghost av = crate::android::avd_list::entry_views(avds@);
    let mut r: Option<bool> = None;
    let n = avds.len();
    let mut i: usize = 0;
    assert(av.take(0) =~= Seq::<AvdEntryView>::empty());
    while i < n
        invariant
            i <= n,
            n == avds@.len(),
            av == crate::android::avd_list::entry_views(avds@),
            r == listed_state(av.take(i as int), name@),
        decreases n - i,
    {
        assert(av.take(i + 1).drop_last() =~= av.take(i as int));
        assert(av.take(i + 1).last() == avds@[i as int]@);
        if str_eq(avds[i].name.as_str(), name) {
            r = Some(avds[i].loadable);
        }
        i = i + 1;
    }
    assert(av.take(n as int) =~= av);
    r
}

/// The last live report for `name`: its serial and whether it booted.
fn live_serial_for(live: &[LiveSerial], name: &str) -> (r: Option<(String, bool)>)
    ensures
        match r {
            Some((s, b)) => live_serial_of(live_views(live@), name@) == Some((s@, b)),
            None => live_serial_of(live_views(live@), name@) is None,
        },
{
    let ghost lv = live_views(live@);
    let mut r: Option<(String, bool)> = None;
    let n = live.len();
    let mut i: usize = 0;
    assert(lv.take(0) =~= Seq::<(Seq<char>, Seq<char>, bool)>::empty());
    while i < n
        invariant
            i <= n,
            n == live@.len(),
            lv == live_views(live@),
            match r {
                Some((s, b)) => live_serial_of(lv.take(i as int), name@) == Some((s@, b)),
                None => live_serial_of(lv.take(i as int), name@) is None,
            },
        decreases n - i,
    {
        assert(lv.take(i + 1).drop_last() =~= lv.take(i as int));
        assert(lv.take(i + 1).last() == (live@[i as int].avd_name@, live@[i as int].serial@, live@[i as int].booted));
        if str_eq(live[i].avd_name.as_str(), name) {
            r = Some((live[i].serial.clone(), live[i].booted));
        }
        i = i + 1;
    }
    assert(lv.take(n as int) =~= lv);
    r
}

/// Refresh one stored row against ground truth (see [`row_reconciled`]).
fn reconcile_row(row: EmulatorRow, avds: &[AvdEntry], live: &[LiveSerial], now: time::OffsetDateTime) -> (r: (EmulatorRow, bool))
    ensures
        row_reconciled(row, r.0, crate::android::avd_list::entry_views(avds@), live_views(live@), now),
        r.1 == row_changed(row, r.0),
{
    let listed = listed_state_of(avds, row.avd_name.as_str());
    let on = live_serial_for(live, row.avd_name.as_str());
    let (state, serial): (RunState, Option<String>) = match listed {
        None => (RunState::Error, None),
        Some(loadable) => if !loadable {
            (RunState::Error, None)
        } else {
            match on {
                Some((s, booted)) => if booted {
                    (RunState::Running, Some(s))
                } else {
                    (RunState::Booting, Some(s))
                },
                None => (RunState::Stopped, None),
            }
        },
    };
    let live_now = match state {
        RunState::Running | RunState::Booting => true,
        _ => false,
    };
    let same_serial = match (&row.adb_serial, &serial) {
        (Some(a), Some(b)) => str_eq(a.as_str(), b.as_str()),
        (None, None) => true,
        _ => false,
    };
    let changed = row.last_state != state || !same_serial || (!live_now && (row.pid.is_some()
        || row.grpc_port.is_some()));
    let new = EmulatorRow {
        id: row.id,
        avd_name: row.avd_name,
        display_name: row.display_name,
        device_profile_id: row.device_profile_id,
        image_coord: row.image_coord,
        hardware: row.hardware,
        source: row.source,
        tags: row.tags,
        notes: row.notes,
        last_state: state,
        adb_serial: serial,
        grpc_port: if live_now {
            row.grpc_port
        } else {
            None
        },
        pid: if live_now {
            row.pid
        } else {
            None
        },
        created_at: row.created_at,
        updated_at: if changed {
            now
        } else {
            row.updated_at
        },
        launched_at: if live_now {
            row.launched_at
        } else {
            None
        },
    };
    (new, changed)
}

/// Refresh every stored row against ground truth: the `avdmanager list avd` entries and the
/// emulators `adb` shows live. Each row comes back as [`row_reconciled`] says, in the same
/// order, with whether it must be written back.
pub fn reconcile_rows(rows: Vec<EmulatorRow>, avds: &[AvdEntry], live: &[LiveSerial], now: time::OffsetDateTime) -> (r: (
    Vec<EmulatorRow>,
    Vec<bool>,
))
    ensures
        r.0@.len() == rows@.len(),
        r.1@.len() == rows@.len(),
        forall|i: int|
            0 <= i < rows@.len() ==> row_reconciled(
                #[trigger] rows@[i],
                r.0@[i],
                crate::android::avd_list::entry_views(avds@),
                live_views(live@),
                now,
            ) && r.1@[i] == row_changed(rows@[i], r.0@[i]),
{
    let ghost input = rows@;
    let ghost av = crate::android::avd_list::entry_views(avds@);
    let ghost lv = live_views(live@);
    let mut rest = rows;
    let mut out: Vec<EmulatorRow> = Vec::new();
    let mut changed: Vec<bool> = Vec::new();
    let total = rest.len();
    let mut taken: usize = 0;
    assert(rest@ =~= input.skip(0));
    while rest.len() > 0
        invariant
            total == input.len(),
            rest@.len() + taken == total,
            rest@ == input.skip(taken as int),
            out@.len() == taken,
            changed@.len() == taken,
            av == crate::android::avd_list::entry_views(avds@),
            lv == live_views(live@),
            forall|k: int|
                0 <= k < taken ==> row_reconciled(#[trigger] input[k], out@[k], av, lv, now)
                    && changed@[k] == row_changed(input[k], out@[k]),
        decreases rest@.len(),
    {
        let row = rest.remove(0);
        proof {
            assert(row == input[taken as int]);
            assert(rest@ =~= input.skip(taken + 1));
        }
        let (new, c) = reconcile_row(row, avds, live, now);
        out.push(new);
        changed.push(c);
        taken = taken + 1;
    }
    (out, changed)
}

/// Reconciliation converges to what the host shows: a row whose AVD is listed and loadable is
/// running when `adb` shows it booted, booting when shown but not booted, and stopped when not
/// shown; a row whose AVD is gone or broken is in error. Whatever is not live keeps no serial,
/// pid or port.
pub proof fn lemma_reconcile_converges(
    old: EmulatorRow,
    new: EmulatorRow,
    avds: Seq<AvdEntryView>,
    live: Seq<(Seq<char>, Seq<char>, bool)>,
    now: time::OffsetDateTime,
)
    requires
        row_reconciled(old, new, avds, live, now),
    ensures
        (new.last_state == RunState::Running) <==> (listed_state(avds, old.avd_name@) == Some(true)
            && (live_serial_of(live, old.avd_name@) matches Some((_, b)) && b)),
        (new.last_state == RunState::Booting) <==> (listed_state(avds, old.avd_name@) == Some(true)
            && (live_serial_of(live, old.avd_name@) matches Some((_, b)) && !b)),
        (new.last_state == RunState::Stopped) <==> (listed_state(avds, old.avd_name@) == Some(true)
            && live_serial_of(live, old.avd_name@) is None),
        (new.last_state == RunState::Error) <==> (listed_state(avds, old.avd_name@) != Some(true)),
        !is_live(new.last_state) ==> new.adb_serial is None && new.pid is None && new.grpc_port is None,
        new.id == old.id && new.avd_name == old.avd_name,
{
}

/// Adoption leaves no loadable AVD untracked and adopts no broken one: every loadable listed
/// AVD is already known or adopted, and everything adopted is loadable and was not known.
pub proof fn lemma_adoption_covers_loadable(avds: Seq<AvdEntryView>, known: Seq<Seq<char>>)
    ensures
        forall|i: int|
            0 <= i < avds.len() && (#[trigger] avds[i]).loadable ==> known.contains(avds[i].name)
                || to_adopt(avds, known).contains(avds[i]),
        forall|k: int|
            0 <= k < to_adopt(avds, known).len() ==> (#[trigger] to_adopt(avds, known)[k]).loadable
                && !known.contains(to_adopt(avds, known)[k].name),
    decreases avds.len(),
{
    if avds.len() > 0 {
        let front = avds.drop_last();
        lemma_adoption_covers_loadable(front, known);
        let rest = to_adopt(front, known);
        assert forall|i: int|
            0 <= i < avds.len() && (#[trigger] avds[i]).loadable implies known.contains(avds[i].name)
                || to_adopt(avds, known).contains(avds[i]) by {
            if i < avds.len() - 1 {
                assert(front[i] == avds[i]);
                if rest.contains(avds[i]) {
                    let j = choose|j: int| 0 <= j < rest.len() && rest[j] == avds[i];
                    if avds.last().loadable && !known.contains(avds.last().name) {
                        assert(to_adopt(avds, known)[j] == avds[i]);
                    }
                }
            } else {
                if !known.contains(avds[i].name) {
                    assert(to_adopt(avds, known)[rest.len() as int] == avds[i]);
                }
            }
        }
        assert forall|k: int|
            0 <= k < to_adopt(avds, known).len() implies (#[trigger] to_adopt(avds, known)[k]).loadable
                && !known.contains(to_adopt(avds, known)[k].name) by {
            if k < rest.len() {
                assert(to_adopt(avds, known)[k] == rest[k]);
            }
        }
    }
}


// ---------------------------------------------------------------------------
// The whole reconcile pass: adopt, then refresh
// ---------------------------------------------------------------------------

/// The AVD names of stored rows.
pub open spec fn row_names(rows: Seq<EmulatorRow>) -> Seq<Seq<char>> {
    rows.map_values(|r: EmulatorRow| r.avd_name@)
}

/// The ids handed in for the rows to adopt.
pub open spec fn fresh_ids(fresh: Seq<(EmulatorId, Option<AdoptedConfig>)>) -> Seq<EmulatorId> {
    fresh.map_values(|f: (EmulatorId, Option<AdoptedConfig>)| f.0)
}

/// The `config.ini` facts handed in for the rows to adopt.
pub open spec fn fresh_configs(fresh: Seq<(EmulatorId, Option<AdoptedConfig>)>) -> Seq<Option<AdoptedConfig>> {
    fresh.map_values(|f: (EmulatorId, Option<AdoptedConfig>)| f.1)
}

/// `new` and `write_back` are what a reconcile pass at `now` makes of the stored rows `old`:
/// every stored row refreshed in place (see [`row_reconciled`]), then one new row per AVD to
/// adopt (see [`to_adopt`]), in listing order, built under the id and from the `config.ini`
/// facts handed in for it (see [`adopted_identity`]), refreshed against ground truth, with no
/// pid, port or launch time, updated at `now`, and always written back.
pub open spec fn pass_result(
    old: Seq<EmulatorRow>,
    new: Seq<EmulatorRow>,
    write_back: Seq<bool>,
    avds: Seq<AvdEntryView>,
    live: Seq<(Seq<char>, Seq<char>, bool)>,
    ids: Seq<EmulatorId>,
    configs: Seq<Option<AdoptedConfig>>,
    now: time::OffsetDateTime,
) -> bool {
    let adopt = to_adopt(avds, row_names(old));
    &&& ids.len() == adopt.len()
    &&& configs.len() == adopt.len()
    &&& new.len() == old.len() + adopt.len()
    &&& write_back.len() == new.len()
    &&& forall|i: int|
        0 <= i < old.len() ==> row_reconciled(#[trigger] old[i], new[i], avds, live, now)
            && write_back[i] == row_changed(old[i], new[i])
    &&& forall|k: int|
        #![trigger new[old.len() + k]]
        0 <= k < adopt.len() ==> {
            let a = new[old.len() + k];
            &&& adopted_identity(a, ids[k], adopt[k].name, configs[k], now)
            &&& (a.last_state, opt_view(a.adb_serial)) == ground_truth(avds, live, adopt[k].name)
            &&& a.pid is None && a.grpc_port is None && a.launched_at is None
            &&& a.updated_at == now
            &&& write_back[old.len() + k]
        }
}

/// Every entry [`to_adopt`] gives comes from the listing.
proof fn lemma_adopted_are_listed(avds: Seq<AvdEntryView>, known: Seq<Seq<char>>, k: int)
    requires
        0 <= k < to_adopt(avds, known).len(),
    ensures
        exists|i: int| 0 <= i < avds.len() && avds[i] == to_adopt(avds, known)[k],
    decreases avds.len(),
{
    let front = avds.drop_last();
    let rest = to_adopt(front, known);
    if k < rest.len() {
        lemma_adopted_are_listed(front, known, k);
        let i = choose|i: int| 0 <= i < front.len() && front[i] == rest[k];
        assert(avds[i] == front[i]);
        assert(to_adopt(avds, known)[k] == rest[k]);
    } else {
        assert(to_adopt(avds, known)[k] == avds.last());
        assert(avds[avds.len() - 1] == avds.last());
    }
}

/// Adopt every loadable AVD the registry does not know, under the ids and `config.ini` facts
/// handed in (one per AVD to adopt, in listing order), then refresh every row against ground
/// truth; see [`pass_result`].
pub fn reconcile_pass(
    rows: Vec<EmulatorRow>,
    avds: &[AvdEntry],
    live: &[LiveSerial],
    fresh: Vec<(EmulatorId, Option<AdoptedConfig>)>,
    now: time::OffsetDateTime,
) -> (r: (Vec<EmulatorRow>, Vec<bool>))
    requires
        fresh@.len() == to_adopt(crate::android::avd_list::entry_views(avds@), row_names(rows@)).len(),
    ensures
        pass_result(
            rows@,
            r.0@,
            r.1@,
            crate::android::avd_list::entry_views(avds@),
            live_views(live@),
            fresh_ids(fresh@),
            fresh_configs(fresh@),
            now,
        ),
{
    let ghost old = rows@;
    let ghost av = crate::android::avd_list::entry_views(avds@);
    let ghost lv = live_views(live@);
    let ghost adopt = to_adopt(av, row_names(old));
    let n = rows.len();
    let mut known: Vec<String> = Vec::new();
    let mut i: usize = 0;
    while i < n
        invariant
            i <= n,
            n == rows@.len(),
            string_views(known@) == row_names(rows@).take(i as int),
        decreases n - i,
    {
        let ghost before = string_views(known@);
        let nm = rows[i].avd_name.clone();
        assert(nm@ == rows@[i as int].avd_name@);
        known.push(nm);
        assert(string_views(known@) =~= before.push(rows@[i as int].avd_name@));
        assert(row_names(rows@)[i as int] == rows@[i as int].avd_name@);
        assert(string_views(known@) =~= row_names(rows@).take(i + 1));
        i = i + 1;
    }
    assert(row_names(rows@).take(n as int) =~= row_names(rows@));
    let cands = adoption_candidates(avds, &known);
    assert(cands@.len() == adopt.len()) by {
        assert(cands@.map_values(|j: usize| avds@[j as int]@).len() == cands@.len());
    }
    let mut all = rows;
    let mut rest = fresh;
    let ghost fr = rest@;
    let m = cands.len();
    let mut k: usize = 0;
    assert(rest@ =~= fr.skip(0));
    while k < m
        invariant
            k <= m,
            m == cands@.len(),
            m == adopt.len(),
            fr.len() == m,
            n == old.len(),
            all@.len() == n + k,
            all@.take(n as int) == old,
            rest@ == fr.skip(k as int),
            forall|q: int| 0 <= q < m ==> cands@[q] < avds@.len(),
            cands@.map_values(|j: usize| avds@[j as int]@) == adopt,
            av == crate::android::avd_list::entry_views(avds@),
            forall|j: int|
                #![trigger all@[n + j]]
                0 <= j < k ==> crate::registry::row::is_adopted(
                    all@[n + j],
                    fr[j].0,
                    adopt[j].name,
                    fr[j].1,
                    now,
                ),
        decreases m - k,
    {
        let (id, cfg) = rest.remove(0);
        assert(rest@ =~= fr.skip(k + 1));
        let idx = cands[k];
        assert(adopt[k as int] == avds@[idx as int]@);
        let ghost prev = all@;
        let row = EmulatorRow::adopted(id, avds[idx].name.as_str(), cfg, now);
        all.push(row);
        assert(all@.take(n as int) =~= prev.take(n as int));
        assert forall|j: int| #![trigger all@[n + j]] 0 <= j < k implies all@[n + j] == prev[n + j] by {}
        k = k + 1;
    }
    let ghost mid = all@;
    let (out, mut wb) = reconcile_rows(all, avds, live, now);
    let total = out.len();
    let mut j: usize = n;
    while j < total
        invariant
            n <= j <= total,
            total == out@.len(),
            wb@.len() == total,
            mid.len() == total,
            forall|q: int|
                0 <= q < total ==> row_reconciled(#[trigger] mid[q], out@[q], av, lv, now),
            forall|q: int| 0 <= q < n ==> wb@[q] == row_changed(#[trigger] mid[q], out@[q]),
            forall|q: int| n <= q < j ==> #[trigger] wb@[q],
        decreases total - j,
    {
        wb.set(j, true);
        j = j + 1;
    }
    proof {
        assert forall|q: int| 0 <= q < old.len() implies row_reconciled(#[trigger] old[q], out@[q], av, lv, now)
            && wb@[q] == row_changed(old[q], out@[q]) by {
            assert(mid.take(n as int)[q] == mid[q]);
        }
        assert forall|q: int|
            #![trigger out@[old.len() + q]]
            0 <= q < adopt.len() implies {
                let a = out@[old.len() + q];
                &&& crate::registry::row::adopted_identity(a, fresh_ids(fr)[q], adopt[q].name, fresh_configs(fr)[q], now)
                &&& (a.last_state, opt_view(a.adb_serial)) == ground_truth(av, lv, adopt[q].name)
                &&& a.pid is None && a.grpc_port is None && a.launched_at is None
                &&& a.updated_at == now
                &&& wb@[old.len() + q]
            } by {
            assert(crate::registry::row::is_adopted(mid[n + q], fr[q].0, adopt[q].name, fr[q].1, now));
            assert(row_reconciled(mid[n + q], out@[n + q], av, lv, now));
        }
    }
    (out, wb)
}

/// A reconcile pass converges to what the host shows: no stored row is dropped or renamed;
/// every row's state and serial are ground truth's for its AVD, and a row that is not live
/// keeps no serial, pid or port; every loadable listed AVD has a row afterwards; and every
/// adopted row is a discovered one for a loadable listed AVD the registry did not know.
pub proof fn lemma_reconcile_pass_converges(
    old: Seq<EmulatorRow>,
    new: Seq<EmulatorRow>,
    write_back: Seq<bool>,
    avds: Seq<AvdEntryView>,
    live: Seq<(Seq<char>, Seq<char>, bool)>,
    ids: Seq<EmulatorId>,
    configs: Seq<Option<AdoptedConfig>>,
    now: time::OffsetDateTime,
)
    requires
        pass_result(old, new, write_back, avds, live, ids, configs, now),
    ensures
        forall|i: int|
            0 <= i < old.len() ==> (#[trigger] new[i]).id == old[i].id && new[i].avd_name == old[i].avd_name,
        forall|j: int|
            0 <= j < new.len() ==> ((#[trigger] new[j]).last_state, opt_view(new[j].adb_serial))
                == ground_truth(avds, live, new[j].avd_name@),
        forall|j: int|
            0 <= j < new.len() && !is_live((#[trigger] new[j]).last_state) ==> new[j].adb_serial is None
                && new[j].pid is None && new[j].grpc_port is None,
        forall|i: int|
            0 <= i < avds.len() && (#[trigger] avds[i]).loadable ==> exists|j: int|
                0 <= j < new.len() && new[j].avd_name@ == avds[i].name,
        forall|j: int|
            old.len() <= j < new.len() ==> (#[trigger] new[j]).source == (
            crate::model::emulator::EmulatorSource::Manual { discovered: true }) && !row_names(
                old,
            ).contains(new[j].avd_name@) && exists|i: int|
                0 <= i < avds.len() && avds[i].loadable && avds[i].name == new[j].avd_name@,
{
    let known = row_names(old);
    let adopt = to_adopt(avds, known);
    let n = old.len();
    lemma_adoption_covers_loadable(avds, known);
    assert forall|j: int| 0 <= j < new.len() implies ((#[trigger] new[j]).last_state, opt_view(
        new[j].adb_serial,
    )) == ground_truth(avds, live, new[j].avd_name@) && (!is_live(new[j].last_state)
        ==> new[j].adb_serial is None && new[j].pid is None && new[j].grpc_port is None) by {
        if j >= n {
            let k = j - n;
            assert(new[old.len() + k] == new[j]);
            assert(0 <= k < adopt.len());
        } else {
            assert(row_reconciled(old[j], new[j], avds, live, now));
        }
    }
    assert forall|i: int| 0 <= i < avds.len() && (#[trigger] avds[i]).loadable implies exists|j: int|
        0 <= j < new.len() && new[j].avd_name@ == avds[i].name by {
        if known.contains(avds[i].name) {
            let q = choose|q: int| 0 <= q < known.len() && known[q] == avds[i].name;
            assert(new[q].avd_name == old[q].avd_name);
        } else {
            let q = choose|q: int| 0 <= q < adopt.len() && adopt[q] == avds[i];
            assert(new[n + q].avd_name@ == adopt[q].name);
        }
    }
    assert forall|j: int| n <= j < new.len() implies (#[trigger] new[j]).source == (
    crate::model::emulator::EmulatorSource::Manual { discovered: true }) && !row_names(old).contains(
        new[j].avd_name@,
    ) && exists|i: int| 0 <= i < avds.len() && avds[i].loadable && avds[i].name == new[j].avd_name@ by {
        let q = j - n;
        assert(new[n + q] == new[j]);
        assert(adopt[q].loadable && !known.contains(adopt[q].name));
        lemma_adopted_are_listed(avds, known, q);
    }
}

// ---------------------------------------------------------------------------
// Stopping
// ---------------------------------------------------------------------------

/// The first stored row with `id`.
pub open spec fn first_row_with(rows: Seq<EmulatorRow>, id: EmulatorId) -> Option<int>
    decreases rows.len(),
{
    if rows.len() == 0 {
        None
    } else {
        match first_row_with(rows.drop_last(), id) {
            Some(i) => Some(i),
            None => if rows.last().id.0@ == id.0@ {
                Some(rows.len() - 1)
            } else {
                None
            },
        }
    }
}

/// The AVD a `stop` of `id` is about: the first stored row with that id, or `not_found` before
/// any process is asked anything.
pub fn stop_target(rows: &[EmulatorRow], id: &EmulatorId) -> (r: Result<String, CoreError>)
    ensures
        match first_row_with(rows@, *id) {
            Some(i) => r matches Ok(name) && 0 <= i < rows@.len() && name@ == rows@[i].avd_name@,
            None => r matches Err(CoreError::NotFound { what, name }) && what@ == "emulator"@ && name@
                == id.0@,
        },
{
    let n = rows.len();
    let mut i: usize = 0;
    assert(rows@.take(0) =~= Seq::<EmulatorRow>::empty());
    while i < n
        invariant
            i <= n,
            n == rows@.len(),
            first_row_with(rows@.take(i as int), *id) is None,
        decreases n - i,
    {
        assert(rows@.take(i + 1).drop_last() =~= rows@.take(i as int));
        if str_eq(rows[i].id.0.as_str(), id.0.as_str()) {
            proof {
                assert(rows@.take(i + 1).last() == rows@[i as int]);
                lemma_first_row_prefix(rows@, *id, (i + 1) as int);
            }
            return Ok(rows[i].avd_name.clone());
        }
        assert(rows@[i as int].id.0@ != id.0@);
        i = i + 1;
    }
    assert(rows@.take(n as int) =~= rows@);
    Err(unknown_emulator(id))
}

/// A row found in a prefix is the first one in the whole list too.
proof fn lemma_first_row_prefix(rows: Seq<EmulatorRow>, id: EmulatorId, m: int)
    requires
        0 <= m <= rows.len(),
        first_row_with(rows.take(m), id) is Some,
    ensures
        first_row_with(rows, id) == first_row_with(rows.take(m), id),
        first_row_with(rows, id)->0 < m,
    decreases rows.len() - m,
{
    if m < rows.len() {
        assert(rows.drop_last().take(m) =~= rows.take(m));
        lemma_first_row_prefix(rows.drop_last(), id, m);
    } else {
        assert(rows.take(m) =~= rows);
    }
    lemma_first_row_bound(rows.take(m), id);
}

/// The first row found lies within the list.
proof fn lemma_first_row_bound(rows: Seq<EmulatorRow>, id: EmulatorId)
    ensures
        first_row_with(rows, id) matches Some(i) ==> 0 <= i < rows.len() && rows[i].id.0@ == id.0@,
    decreases rows.len(),
{
    if rows.len() > 0 {
        lemma_first_row_bound(rows.drop_last(), id);
    }
}

/// The first serial whose emulator reports `name` (`(serial, reported AVD name)` pairs, in
/// `adb devices` order).
pub open spec fn first_serial_for(reports: Seq<(Seq<char>, Seq<char>)>, name: Seq<char>) -> Option<Seq<char>>
    decreases reports.len(),
{
    if reports.len() == 0 {
        None
    } else if reports[0].1 == name {
        Some(reports[0].0)
    } else {
        first_serial_for(reports.drop_first(), name)
    }
}

/// The contents of `(serial, reported name)` pairs.
pub open spec fn report_views(v: Seq<(String, String)>) -> Seq<(Seq<char>, Seq<char>)> {
    v.map_values(|p: (String, String)| (p.0@, p.1@))
}

/// What stopping an AVD comes down to.
#[derive(Debug, Clone, PartialEq, Eq)]
pub enum StopStep {
    /// No emulator reports the AVD: nothing to kill, and the stop succeeds.
    NothingRunning,
    /// Send `adb -s <serial> emu kill`.
    Kill {
        /// The serial it runs on.
        serial: String,
        /// The command to send.
        command: Command,
    },
}

/// Decide the stop of `avd_name` from what each listed emulator reports: the first serial
/// reporting it gets `emu kill`; when none does, nothing is sent.
pub fn stop_step(adb: &str, avd_name: &str, reports: &[(String, String)]) -> (r: StopStep)
    ensures
        match first_serial_for(report_views(reports@), avd_name@) {
            None => r == StopStep::NothingRunning,
            Some(s) => r matches StopStep::Kill { serial, command } && serial@ == s && command@.program
                == adb@ && command@.args == seq!["-s"@, s, "emu"@, "kill"@],
        },
{
    let ghost rv = report_views(reports@);
    let n = reports.len();
    let mut i: usize = 0;
    assert(rv.skip(0) =~= rv);
    while i < n
        invariant
            i <= n,
            n == reports@.len(),
            rv == report_views(reports@),
            first_serial_for(rv, avd_name@) == first_serial_for(rv.skip(i as int), avd_name@),
        decreases n - i,
    {
        assert(rv.skip(i as int)[0] == rv[i as int]);
        assert(rv.skip(i as int).drop_first() =~= rv.skip(i + 1));
        if str_eq(reports[i].1.as_str(), avd_name) {
            let serial = reports[i].0.clone();
            let command = stop_command(adb, serial.as_str());
            return StopStep::Kill { serial, command };
        }
        i = i + 1;
    }
    StopStep::NothingRunning
}

/// The stop of `id` given what the listed emulators report: `Err` when the registry does not
/// hold `id`; otherwise the serial to kill, if any emulator reports the row's AVD.
pub open spec fn stop_plan(
    rows: Seq<EmulatorRow>,
    id: EmulatorId,
    reports: Seq<(Seq<char>, Seq<char>)>,
) -> Result<Option<Seq<char>>, ()> {
    match first_row_with(rows, id) {
        None => Err(()),
        Some(i) => Ok(first_serial_for(reports, rows[i].avd_name@)),
    }
}

/// No report naming `name` means no serial for it.
proof fn lemma_no_report_no_serial(reports: Seq<(Seq<char>, Seq<char>)>, name: Seq<char>)
    requires
        forall|k: int| 0 <= k < reports.len() ==> (#[trigger] reports[k]).1 != name,
    ensures
        first_serial_for(reports, name) is None,
    decreases reports.len(),
{
    if reports.len() > 0 {
        assert forall|k: int| 0 <= k < reports.drop_first().len() implies (
        #[trigger] reports.drop_first()[k]).1 != name by {
            assert(reports.drop_first()[k] == reports[k + 1]);
        }
        lemma_no_report_no_serial(reports.drop_first(), name);
    }
}

/// An id the registry does not hold is found by no row.
proof fn lemma_unknown_id(rows: Seq<EmulatorRow>, id: EmulatorId)
    requires
        forall|k: int| 0 <= k < rows.len() ==> (#[trigger] rows[k]).id.0@ != id.0@,
    ensures
        first_row_with(rows, id) is None,
    decreases rows.len(),
{
    if rows.len() > 0 {
        assert forall|k: int| 0 <= k < rows.drop_last().len() implies (#[trigger] rows.drop_last()[k]).id.0@
            != id.0@ by {
            assert(rows.drop_last()[k] == rows[k]);
        }
        lemma_unknown_id(rows.drop_last(), id);
    }
}

/// Stopping is idempotent: for a tracked id, once no listed emulator reports its AVD (as after
/// a stop that went through) a stop sends no kill and succeeds; and stopping an id the
/// registry does not hold is `not_found`, whatever the emulators report.
pub proof fn lemma_stop_is_idempotent(
    rows: Seq<EmulatorRow>,
    id: EmulatorId,
    reports: Seq<(Seq<char>, Seq<char>)>,
)
    ensures
        (forall|k: int| 0 <= k < rows.len() ==> (#[trigger] rows[k]).id.0@ != id.0@) ==> stop_plan(
            rows,
            id,
            reports,
        ) == Err::<Option<Seq<char>>, ()>(()),
        (first_row_with(rows, id) matches Some(i) && forall|k: int|
            0 <= k < reports.len() ==> (#[trigger] reports[k]).1 != rows[i].avd_name@) ==> stop_plan(
            rows,
            id,
            reports,
        ) == Ok::<Option<Seq<char>>, ()>(None),
{
    if forall|k: int| 0 <= k < rows.len() ==> (#[trigger] rows[k]).id.0@ != id.0@ {
        lemma_unknown_id(rows, id);
    }
    if let Some(i) = first_row_with(rows, id) {
        if forall|k: int| 0 <= k < reports.len() ==> (#[trigger] reports[k]).1 != rows[i].avd_name@ {
            lemma_no_report_no_serial(reports, rows[i].avd_name@);
        }
    }
}

} // verus!
