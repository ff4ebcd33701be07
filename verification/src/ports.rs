//! The values that cross the boundary to the outside world: commands to run and their output,
//! verified downloads, and download-style progress.

use vstd::prelude::*;

use crate::error::CoreError;
use crate::model::job::{Progress, ProgressView};
use crate::text::{cat, cat3, chars_of, eq_ignore_ascii_case, eq_ignore_ascii_case_chars};
use crate::toolchain::bootstrap::{hex, hex_of};

verus! {

/// A command to run: program plus arguments and environment. No shell is involved.
#[derive(Debug, Clone, PartialEq, Eq)]
pub struct Command {
    /// Executable name or path (e.g. `avdmanager`).
    pub program: String,
    /// Arguments, already split.
    pub args: Vec<String>,
    /// Working directory; `None` inherits the parent's.
    pub cwd: Option<String>,
    /// Extra environment entries layered on top of the parent environment.
    pub env: Vec<(String, String)>,
    /// Bytes to write to the child's stdin before closing it.
    pub stdin: Option<Vec<u8>>,
}

/// The contents of a [`Command`].
pub struct CommandView {
    pub program: Seq<char>,
    pub args: Seq<Seq<char>>,
    pub cwd: Option<Seq<char>>,
    pub env: Seq<(Seq<char>, Seq<char>)>,
    pub stdin: Option<Seq<u8>>,
}

/// The views of a sequence of strings.
pub open spec fn string_views(v: Seq<String>) -> Seq<Seq<char>> {
    v.map_values(|s: String| s@)
}

/// The views of a sequence of string pairs.
pub open spec fn pair_views(v: Seq<(String, String)>) -> Seq<(Seq<char>, Seq<char>)> {
    v.map_values(|p: (String, String)| (p.0@, p.1@))
}

impl View for Command {
    type V = CommandView;

    open spec fn view(&self) -> CommandView {
        CommandView {
            program: self.program@,
            args: string_views(self.args@),
            cwd: crate::android::avd_list::opt_view(self.cwd),
            env: pair_views(self.env@),
            stdin: match self.stdin {
                Some(b) => Some(b@),
                None => None,
            },
        }
    }
}

/// The log rendering of a program and its arguments: each argument after a space.
pub open spec fn display_text(program: Seq<char>, args: Seq<Seq<char>>) -> Seq<char>
    decreases args.len(),
{
    if args.len() == 0 {
        program
    } else {
        display_text(program, args.drop_last()) + seq![' '] + args.last()
    }
}

impl Command {
    /// Start building a command from its program name.
    pub fn new(program: &str) -> (r: Command)
        ensures
            r@ == (CommandView {
                program: program@,
                args: seq![],
                cwd: None,
                env: seq![],
                stdin: None,
            }),
    {
        let r = Command {
            program: program.to_owned(),
            args: Vec::new(),
            cwd: None,
            env: Vec::new(),
            stdin: None,
        };
        assert(string_views(r.args@) =~= seq![]);
        assert(pair_views(r.env@) =~= seq![]);
        r
    }

    /// Append one argument.
    pub fn arg(self, a: &str) -> (r: Command)
        ensures
            r@ == (CommandView { args: self@.args.push(a@), ..self@ }),
    {
        let mut c = self;
        c.args.push(a.to_owned());
        assert(string_views(c.args@) =~= string_views(self.args@).push(a@));
        c
    }

    /// Append several arguments.
    pub fn args(self, items: &[&str]) -> (r: Command)
        ensures
            r@ == (CommandView {
                args: self@.args + items@.map_values(|s: &str| s@),
                ..self@
            }),
    {
        let mut c = self;
        let n = items.len();
        let mut i: usize = 0;
        while i < n
            invariant
                i <= n,
                n == items@.len(),
                c@ == (CommandView {
                    args: self@.args + items@.take(i as int).map_values(|s: &str| s@),
                    ..self@
                }),
            decreases n - i,
        {
            c = c.arg(items[i]);
            assert(items@.take(i + 1).map_values(|s: &str| s@) =~= items@.take(i as int).map_values(
                |s: &str| s@,
            ).push(items@[i as int]@));
            i = i + 1;
        }
        assert(items@.take(n as int) =~= items@);
        c
    }

    /// Set the working directory.
    pub fn current_dir(self, dir: &str) -> (r: Command)
        ensures
            r@ == (CommandView { cwd: Some(dir@), ..self@ }),
    {
        let mut c = self;
        c.cwd = Some(dir.to_owned());
        c
    }

    /// Add an environment variable.
    pub fn env(self, k: &str, v: &str) -> (r: Command)
        ensures
            r@ == (CommandView { env: self@.env.push((k@, v@)), ..self@ }),
    {
        let mut c = self;
        c.env.push((k.to_owned(), v.to_owned()));
        assert(pair_views(c.env@) =~= pair_views(self.env@).push((k@, v@)));
        c
    }

    /// Set the bytes fed to the child's stdin.
    pub fn with_stdin(self, bytes: Vec<u8>) -> (r: Command)
        ensures
            r@ == (CommandView { stdin: Some(bytes@), ..self@ }),
    {
        let mut c = self;
        c.stdin = Some(bytes);
        c
    }

    /// Render as a display string for logs. Not shell-safe; never execute it.
    pub fn display(&self) -> (r: String)
        ensures
            r@ == display_text(self@.program, self@.args),
    {
        let mut s = self.program.clone();
        let n = self.args.len();
        let ghost args = self@.args;
        let mut i: usize = 0;
        while i < n
            invariant
                i <= n,
                n == args.len(),
                args == string_views(self.args@),
                s@ == display_text(self@.program, args.take(i as int)),
            decreases n - i,
        {
            assert(args.take(i + 1).drop_last() =~= args.take(i as int));
            assert(args.take(i + 1).last() == self.args@[i as int]@);
            let ghost before = s@;
            s.append(" ");
            s.append(self.args[i].as_str());
            proof {
                reveal_strlit(" ");
                assert(s@ =~= before + seq![' '] + self.args@[i as int]@);
            }
            i = i + 1;
        }
        assert(args.take(n as int) =~= args);
        s
    }
}

/// The result of a finished process.
#[derive(Debug, Clone, PartialEq, Eq)]
pub struct Output {
    /// Exit code (`-1` if the process was killed by a signal).
    pub status: i32,
    /// Captured standard output.
    pub stdout: String,
    /// Captured standard error.
    pub stderr: String,
}

impl Output {
    /// `true` when the process exited `0`.
    pub fn success(&self) -> (r: bool)
        ensures
            r == (self.status == 0),
    {
        self.status == 0
    }
}

/// A completed, checksum-verified download.
#[derive(Debug, Clone, PartialEq, Eq)]
pub struct Verified {
    /// Where the file landed.
    pub path: String,
    /// Lower-case hex SHA-256 of the file.
    pub sha256: String,
    /// Size in bytes.
    pub bytes: u64,
}

/// The percentage a download-style update reports: `done * 100` (saturating) divided by
/// `total`, capped at 100; none for a zero total.
pub open spec fn pct_of(done: u64, total: u64) -> Option<u8> {
    if total == 0 {
        None
    } else {
        let scaled = if done * 100 > u64::MAX {
            u64::MAX as int
        } else {
            done * 100
        };
        let p = scaled / (total as int);
        if p > 100 {
            Some(100u8)
        } else {
            Some(p as u8)
        }
    }
}

/// A download-style [`Progress`] with a percentage.
pub fn pct_progress(done: u64, total: u64) -> (r: Progress)
    ensures
        r@ == (ProgressView {
            phase: None,
            bytes_done: Some(done),
            bytes_total: Some(total),
            pct: pct_of(done, total),
            log_line: None,
        }),
{
    let pct: Option<u8> = if total == 0 {
        None
    } else {
        let wide: u128 = (done as u128) * 100;
        let scaled: u64 = if wide > 0xffff_ffff_ffff_ffffu128 {
            0xffff_ffff_ffff_ffffu64
        } else {
            wide as u64
        };
        let p = scaled / total;
        if p > 100 {
            Some(100u8)
        } else {
            Some(p as u8)
        }
    };
    Progress { phase: None, bytes_done: Some(done), bytes_total: Some(total), pct, log_line: None }
}


// ---------------------------------------------------------------------------
// Verifying a download
// ---------------------------------------------------------------------------

/// The SHA-256 digest of some bytes (the `sha2` crate), as 32 raw bytes.
pub uninterp spec fn sha256_of(bytes: Seq<u8>) -> Seq<u8>;

/// `sha2::Sha256::digest`: the 32-byte SHA-256 digest.
#[verifier::external_body]
fn sha256_digest(bytes: &[u8]) -> (r: Vec<u8>)
    ensures
        r@ == sha256_of(bytes@),
        r@.len() == 32,
{
    <sha2::Sha256 as sha2::Digest>::digest(bytes).to_vec()
}

/// The check of a downloaded file against the SHA-256 asked for (case-insensitive): its hex
/// when it matches or none was asked for, else the mismatch message naming both.
pub open spec fn sha256_check(expected: Option<Seq<char>>, got: Seq<char>) -> Result<Seq<char>, Seq<char>> {
    match expected {
        None => Ok(got),
        Some(e) => if eq_ignore_ascii_case(e, got) {
            Ok(got)
        } else {
            Err("sha256 mismatch: expected "@ + e + ", got "@ + got)
        },
    }
}

/// Judge a download of `url` by its SHA-256 `digest`: the digest's lower-case hex, or a
/// download error when it differs from the hash asked for.
pub fn verify_download(url: &str, expected_sha256: Option<&str>, digest: &[u8]) -> (r: Result<String, CoreError>)
    ensures
        match (r, sha256_check(
            match expected_sha256 {
                Some(e) => Some(e@),
                None => None,
            },
            hex_of(digest@),
        )) {
            (Ok(h), Ok(g)) => h@ == g,
            (Err(CoreError::Download { url: u, detail }), Err(m)) => u@ == url@ && detail@ == m,
            _ => false,
        },
{
    let got = hex(digest);
    match expected_sha256 {
        None => Ok(got),
        Some(e) => {
            let ec = chars_of(e);
            let gc = chars_of(got.as_str());
            if eq_ignore_ascii_case_chars(ec.as_slice(), gc.as_slice()) {
                Ok(got)
            } else {
                let mut d = cat3("sha256 mismatch: expected ", e, ", got ");
                d.append(got.as_str());
                Err(CoreError::Download { url: url.to_owned(), detail: d })
            }
        },
    }
}

/// Judge the downloaded `bytes` of `url` against the SHA-256 asked for: hash them, then as
/// [`verify_download`].
pub fn verify_downloaded_bytes(url: &str, expected_sha256: Option<&str>, bytes: &[u8]) -> (r: Result<String, CoreError>)
    ensures
        match (r, sha256_check(
            match expected_sha256 {
                Some(e) => Some(e@),
                None => None,
            },
            hex_of(sha256_of(bytes@)),
        )) {
            (Ok(h), Ok(g)) => h@ == g,
            (Err(CoreError::Download { url: u, detail }), Err(m)) => u@ == url@ && detail@ == m,
            _ => false,
        },
{
    let digest = sha256_digest(bytes);
    verify_download(url, expected_sha256, digest.as_slice())
}

/// The progress update to report after `done` bytes: only when the total is known and the
/// percentage differs from the last one reported.
pub fn next_progress(last_pct: Option<u8>, done: u64, total: Option<u64>) -> (r: Option<Progress>)
    ensures
        match total {
            None => r is None,
            Some(t) => if pct_of(done, t) == last_pct {
                r is None
            } else {
                r matches Some(p) && p@ == (ProgressView {
                    phase: None,
                    bytes_done: Some(done),
                    bytes_total: Some(t),
                    pct: pct_of(done, t),
                    log_line: None,
                })
            },
        },
{
    match total {
        None => None,
        Some(t) => {
            let p = pct_progress(done, t);
            let same = match (p.pct, last_pct) {
                (Some(a), Some(b)) => a == b,
                (None, None) => true,
                _ => false,
            };
            if same {
                None
            } else {
                Some(p)
            }
        },
    }
}

} // verus!
