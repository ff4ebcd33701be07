//! Running a host fix through the elevated helper: which fixes can be scripted, how the
//! elevation prompt is wrapped per OS, and how the helper's reply becomes an outcome.

use vstd::prelude::*;

use crate::android::avd_list::opt_view;
use crate::ipc::dto::HelperOutcomeDto;
use crate::ipc::error::IpcError;
use crate::text::{
    cat, cat3, chars_of, contains_chars, is_ws, is_ws_char, lines, lines_of, str_eq, trim,
    trim_start, trim_str, contains_str, views,
};

verus! {

// ---------------------------------------------------------------------------
// Elevation
// ---------------------------------------------------------------------------

/// The `(program, args)` that runs `helper <sub>` behind the OS's elevation prompt.
pub open spec fn elevated_argv_of(helper: Seq<char>, sub: Seq<char>, os: Seq<char>) -> (
    Seq<char>,
    Seq<Seq<char>>,
) {
    if os == "macos"@ {
        (
            "osascript"@,
            seq![
                "-e"@,
                "do shell script \"'"@ + helper + "' "@ + sub + "\" with administrator privileges"@,
            ],
        )
    } else if os == "linux"@ {
        ("pkexec"@, seq![helper, sub])
    } else if os == "windows"@ {
        (
            "powershell"@,
            seq![
                "-NoProfile"@,
                "-Command"@,
                "Start-Process -FilePath '"@ + helper + "' -ArgumentList '"@ + sub
                    + "' -Verb RunAs -Wait"@,
            ],
        )
    } else {
        (helper, seq![sub])
    }
}

/// Build the `(program, args)` that runs `helper <sub>` with an elevation prompt, per OS
/// (`osascript` on macOS, `pkexec` on Linux, `powershell … -Verb RunAs` on Windows; elsewhere
/// the helper itself, unelevated).
pub fn elevated_argv(helper: &str, sub: &str, os: &str) -> (r: (String, Vec<String>))
    ensures
        r.0@ == elevated_argv_of(helper@, sub@, os@).0,
        crate::ports::string_views(r.1@) == elevated_argv_of(helper@, sub@, os@).1,
{
    if str_eq(os, "macos") {
        let mut script = cat3("do shell script \"'", helper, "' ");
        script.append(sub);
        script.append("\" with administrator privileges");
        let args = vec!["-e".to_owned(), script];
        assert(crate::ports::string_views(args@) =~= elevated_argv_of(helper@, sub@, os@).1);
        ("osascript".to_owned(), args)
    } else if str_eq(os, "linux") {
        let args = vec![helper.to_owned(), sub.to_owned()];
        assert(crate::ports::string_views(args@) =~= elevated_argv_of(helper@, sub@, os@).1);
        ("pkexec".to_owned(), args)
    } else if str_eq(os, "windows") {
        let mut cmd = cat3("Start-Process -FilePath '", helper, "' -ArgumentList '");
        cmd.append(sub);
        cmd.append("' -Verb RunAs -Wait");
        let args = vec!["-NoProfile".to_owned(), "-Command".to_owned(), cmd];
        assert(crate::ports::string_views(args@) =~= elevated_argv_of(helper@, sub@, os@).1);
        ("powershell".to_owned(), args)
    } else {
        let args = vec![sub.to_owned()];
        assert(crate::ports::string_views(args@) =~= elevated_argv_of(helper@, sub@, os@).1);
        (helper.to_owned(), args)
    }
}

// ---------------------------------------------------------------------------
// Which fixes are scriptable
// ---------------------------------------------------------------------------

/// The fix ids the helper can perform; each runs the helper subcommand of the same name.
pub open spec fn is_scriptable_fix(fix_id: Seq<char>) -> bool {
    fix_id == "enable-whpx"@ || fix_id == "enable-aehd"@ || fix_id == "add-kvm-group"@
}

/// The refusal for a fix that has to be done by hand.
pub open spec fn manual_fix_text(fix_id: Seq<char>) -> Seq<char> {
    "'"@ + fix_id + "' has to be done manually — see the fix description"@
}

/// The helper subcommand that performs `fix_id`, or an `invalid` error for a manual fix.
pub fn helper_subcommand(fix_id: &str) -> (r: Result<&'static str, IpcError>)
    ensures
        is_scriptable_fix(fix_id@) <==> r is Ok,
        r matches Ok(sub) ==> sub@ == fix_id@,
        r matches Err(e) ==> e.code@ == "invalid"@ && e.message@ == manual_fix_text(fix_id@)
            && e.details is None,
{
    if str_eq(fix_id, "enable-whpx") {
        Ok("enable-whpx")
    } else if str_eq(fix_id, "enable-aehd") {
        Ok("enable-aehd")
    } else if str_eq(fix_id, "add-kvm-group") {
        Ok("add-kvm-group")
    } else {
        let m = cat3("'", fix_id, "' has to be done manually — see the fix description");
        Err(IpcError::new("invalid", m.as_str()))
    }
}

// ---------------------------------------------------------------------------
// Reading the helper's reply
// ---------------------------------------------------------------------------

/// The elevation prompt was dismissed: a failed run whose stderr says so (`osascript`: "User
/// canceled"), or whose exit code is 126 (`pkexec`).
pub open spec fn prompt_dismissed(success: bool, exit_code: Option<i32>, stderr: Seq<char>) -> bool {
    !success && (contains_str(stderr, "User canceled"@) || contains_str(stderr, "cancelled"@)
        || exit_code == Some(126i32))
}

/// The first non-whitespace character of `s` is `c`.
pub open spec fn opens_with(s: Seq<char>, c: char) -> bool {
    trim_start(s).len() > 0 && trim_start(s)[0] == c
}

/// The last line of `ls` whose first non-whitespace character is `{`.
pub open spec fn last_object_line(ls: Seq<Seq<char>>) -> Option<Seq<char>>
    decreases ls.len(),
{
    if ls.len() == 0 {
        None
    } else if opens_with(ls.last(), '{') {
        Some(ls.last())
    } else {
        last_object_line(ls.drop_last())
    }
}

/// The fields the outcome reads from the helper's JSON object: `command`, `status`, `message`
/// when they are strings, and `needsReboot` when it is a boolean.
pub struct HelperReply {
    /// `command`.
    pub command: Option<String>,
    /// `status`.
    pub status: Option<String>,
    /// `message`.
    pub message: Option<String>,
    /// `needsReboot`.
    pub needs_reboot: Option<bool>,
}

/// The contents of a [`HelperReply`].
pub open spec fn reply_view(r: HelperReply) -> (
    Option<Seq<char>>,
    Option<Seq<char>>,
    Option<Seq<char>>,
    Option<bool>,
) {
    (opt_view(r.command), opt_view(r.status), opt_view(r.message), r.needs_reboot)
}

/// What `serde_json` reads from one line: its string fields `command`, `status`, `message` and
/// boolean field `needsReboot`, or the parse error's message.
pub uninterp spec fn helper_json_of(line: Seq<char>) -> Result<
    (Option<Seq<char>>, Option<Seq<char>>, Option<Seq<char>>, Option<bool>),
    Seq<char>,
>;

/// `serde_json::from_str::<serde_json::Value>` on the helper's JSON line, picking out the
/// fields the outcome reads.
#[verifier::external_body]
fn parse_helper_json(line: &str) -> (r: Result<HelperReply, String>)
    ensures
        match r {
            Ok(v) => helper_json_of(line@) == Ok::<
                (Option<Seq<char>>, Option<Seq<char>>, Option<Seq<char>>, Option<bool>),
                Seq<char>,
            >(reply_view(v)),
            Err(e) => helper_json_of(line@) == Err::<
                (Option<Seq<char>>, Option<Seq<char>>, Option<Seq<char>>, Option<bool>),
                Seq<char>,
            >(e@),
        },
{
    let v: serde_json::Value = serde_json::from_str(line).map_err(|e| e.to_string())?;
    Ok(HelperReply {
        command: v["command"].as_str().map(str::to_string),
        status: v["status"].as_str().map(str::to_string),
        message: v["message"].as_str().map(str::to_string),
        needs_reboot: v["needsReboot"].as_bool(),
    })
}

/// The outcome a JSON reply gives: each missing field defaults (`command` to the subcommand,
/// `status` to `failed`, `message` to empty, `needsReboot` to false); unparseable JSON is a
/// `process_failed` error.
pub open spec fn reply_outcome(
    sub: Seq<char>,
    parsed: Result<(Option<Seq<char>>, Option<Seq<char>>, Option<Seq<char>>, Option<bool>), Seq<char>>,
) -> Result<(Seq<char>, Seq<char>, Seq<char>, bool), (Seq<char>, Seq<char>)> {
    match parsed {
        Err(e) => Err(("process_failed"@, "emu-helper output wasn't JSON: "@ + e)),
        Ok(f) => Ok(
            (
                match f.0 {
                    Some(c) => c,
                    None => sub,
                },
                match f.1 {
                    Some(s) => s,
                    None => "failed"@,
                },
                match f.2 {
                    Some(m) => m,
                    None => seq![],
                },
                match f.3 {
                    Some(b) => b,
                    None => false,
                },
            ),
        ),
    }
}

/// An outcome record is the tuple of its fields.
pub open spec fn outcome_is(
    r: Result<HelperOutcomeDto, IpcError>,
    o: Result<(Seq<char>, Seq<char>, Seq<char>, bool), (Seq<char>, Seq<char>)>,
) -> bool {
    match (r, o) {
        (Ok(d), Ok(t)) => d.command@ == t.0 && d.status@ == t.1 && d.message@ == t.2
            && d.needs_reboot == t.3,
        (Err(e), Err(t)) => e.code@ == t.0 && e.message@ == t.1 && e.details is None,
        _ => false,
    }
}

/// The outcome of the helper's JSON reply, with the defaults for missing fields.
pub fn outcome_from_reply(sub: &str, parsed: Result<HelperReply, String>) -> (r: Result<
    HelperOutcomeDto,
    IpcError,
>)
    ensures
        outcome_is(
            r,
            reply_outcome(
                sub@,
                match parsed {
                    Ok(v) => Ok(reply_view(v)),
                    Err(e) => Err(e@),
                },
            ),
        ),
{
    match parsed {
        Err(e) => {
            let m = cat("emu-helper output wasn't JSON: ", e.as_str());
            Err(IpcError::new("process_failed", m.as_str()))
        },
        Ok(v) => Ok(
            HelperOutcomeDto {
                command: match v.command {
                    Some(c) => c,
                    None => sub.to_owned(),
                },
                status: match v.status {
                    Some(s) => s,
                    None => "failed".to_owned(),
                },
                message: match v.message {
                    Some(m) => m,
                    None => String::new(),
                },
                needs_reboot: match v.needs_reboot {
                    Some(b) => b,
                    None => false,
                },
            },
        ),
    }
}

/// Whether the first non-whitespace character of `s` is `c`.
fn opens_with_exec(s: &[char], c: char) -> (r: bool)
    ensures
        r == opens_with(s@, c),
{
    let n = s.len();
    let mut i: usize = 0;
    assert(s@.skip(0) =~= s@);
    while i < n
        invariant
            i <= n,
            n == s@.len(),
            trim_start(s@) == trim_start(s@.skip(i as int)),
        decreases n - i,
    {
        assert(s@.skip(i as int)[0] == s@[i as int]);
        if !is_ws_char(s[i]) {
            return s[i] == c;
        }
        assert(s@.skip(i as int).drop_first() =~= s@.skip(i + 1));
        i = i + 1;
    }
    assert(s@.skip(n as int) =~= Seq::<char>::empty());
    false
}

/// The last line of `stdout` that opens a JSON object.
pub fn last_json_line(stdout: &str) -> (r: Option<Vec<char>>)
    ensures
        match r {
            Some(l) => last_object_line(lines_of(stdout@)) == Some(l@),
            None => last_object_line(lines_of(stdout@)) is None,
        },
{
    let cs = chars_of(stdout);
    let ls = lines(cs.as_slice());
    let ghost lv = lines_of(stdout@);
    let mut i: usize = ls.len();
    assert(lv.take(i as int) =~= lv);
    while i > 0
        invariant
            i <= ls@.len(),
            views(ls@) == lv,
            lv == lines_of(stdout@),
            last_object_line(lv) == last_object_line(lv.take(i as int)),
        decreases i,
    {
        assert(lv.take(i as int).last() == ls@[i - 1]@);
        assert(lv.take(i as int).drop_last() =~= lv.take(i - 1));
        if opens_with_exec(ls[i - 1].as_slice(), '{') {
            let m = ls[i - 1].len();
            let found = crate::text::slice_to_vec(ls[i - 1].as_slice(), 0, m);
            assert(found@ =~= ls@[i - 1]@);
            return Some(found);
        }
        i = i - 1;
    }
    None
}

/// The whole outcome of one elevated run, from its exit status and output. A dismissed prompt
/// is `cancelled`; on Windows (whose `Start-Process` does not forward the helper's output) the
/// outcome is made up from the exit status; elsewhere it is read from the last JSON line of
/// stdout (none there is `process_failed`, naming the trimmed stderr).
pub fn helper_outcome(
    sub: &str,
    os: &str,
    success: bool,
    exit_code: Option<i32>,
    stdout: &str,
    stderr: &str,
) -> (r: Result<HelperOutcomeDto, IpcError>)
    ensures
        prompt_dismissed(success, exit_code, stderr@) ==> outcome_is(
            r,
            Err(("cancelled"@, "the administrator prompt was dismissed"@)),
        ),
        !prompt_dismissed(success, exit_code, stderr@) && os@ == "windows"@ ==> outcome_is(
            r,
            Ok(
                (
                    sub@,
                    if success {
                        "ok"@
                    } else {
                        "failed"@
                    },
                    "Ran the fix with elevation. Re-probe the host to see the new state."@,
                    sub@ == "enable-whpx"@ || sub@ == "enable-aehd"@,
                ),
            ),
        ),
        !prompt_dismissed(success, exit_code, stderr@) && os@ != "windows"@ ==> match last_object_line(
            lines_of(stdout@),
        ) {
            None => outcome_is(
                r,
                Err(("process_failed"@, "emu-helper produced no JSON (stderr: "@ + trim(stderr@) + ")"@)),
            ),
            Some(line) => outcome_is(r, reply_outcome(sub@, helper_json_of(line))),
        },
{
    let err_cs = chars_of(stderr);
    let dismissed = !success && (contains_chars(err_cs.as_slice(), chars_of("User canceled").as_slice())
        || contains_chars(err_cs.as_slice(), chars_of("cancelled").as_slice()) || match exit_code {
        Some(c) => c == 126,
        None => false,
    });
    if dismissed {
        return Err(IpcError::new("cancelled", "the administrator prompt was dismissed"));
    }
    if str_eq(os, "windows") {
        return Ok(
            HelperOutcomeDto {
                command: sub.to_owned(),
                status: if success {
                    "ok".to_owned()
                } else {
                    "failed".to_owned()
                },
                message: "Ran the fix with elevation. Re-probe the host to see the new state.".to_owned(),
                needs_reboot: str_eq(sub, "enable-whpx") || str_eq(sub, "enable-aehd"),
            },
        );
    }
    match last_json_line(stdout) {
        None => {
            let t = trim_str(stderr);
            let m = cat3("emu-helper produced no JSON (stderr: ", t.as_str(), ")");
            Err(IpcError::new("process_failed", m.as_str()))
        },
        Some(line) => {
            let text = crate::text::string_of(line.as_slice());
            let parsed = parse_helper_json(text.as_str());
            outcome_from_reply(sub, parsed)
        },
    }
}

/// Every fix a host report marks scriptable is one `run_helper` accepts (and the ones it
/// accepts are never `check`): scriptable fixes run, the others are refused as manual.
pub proof fn lemma_report_fixes_run_iff_scriptable(s: crate::host::signals::HostSignalsView)
    ensures
        forall|i: int|
            0 <= i < crate::host::report::report_of(s).fixes.len() ==> (
            #[trigger] crate::host::report::report_of(s).fixes[i]).scriptable == is_scriptable_fix(
                crate::host::report::report_of(s).fixes[i].id,
            ),
{
    let fs = crate::host::report::report_of(s).fixes;
    assert forall|i: int| 0 <= i < fs.len() implies (#[trigger] fs[i]).scriptable
        == is_scriptable_fix(fs[i].id) by {
        reveal_strlit("enable-whpx");
        reveal_strlit("enable-aehd");
        reveal_strlit("add-kvm-group");
        reveal_strlit("enable-virtualization");
        reveal_strlit("install-kvm");
        assert("enable-virtualization"@[0] == 'e' && "enable-virtualization"@.len() != 11);
        assert("install-kvm"@[0] == 'i');
    }
}

} // verus!
