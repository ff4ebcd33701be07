//! Reading the `cmdline-tools` archive into memory: every entry under the archive's own
//! top-level folder, with that folder stripped (it becomes `cmdline-tools/latest/` on disk).

use vstd::prelude::*;

use crate::error::CoreError;
use crate::model::component::HostOs;
use crate::ports::string_views;

verus! {

/// One entry of a zip archive as `zip` reads it.
pub struct ZipItem {
    /// The entry's name as stored in the archive.
    pub name: String,
    /// Whether the entry is a directory (its name ends in `/` or a backslash).
    pub is_dir: bool,
    /// The entry's bytes.
    pub contents: Vec<u8>,
}

/// Why an entry could not be read.
pub enum ZipReadFailure {
    /// The archive (or the entry's header) is malformed: `zip`'s message.
    Archive(String),
    /// The entry's bytes could not be read: its name, whether it is a directory, and the I/O
    /// error's message.
    Read(String, bool, String),
}

/// The contents of a [`ZipItem`].
pub struct ZipItemView {
    pub name: Seq<char>,
    pub is_dir: bool,
    pub contents: Seq<u8>,
}

/// The contents of a [`ZipReadFailure`].
pub enum ZipFailureView {
    Archive(Seq<char>),
    Read(Seq<char>, bool, Seq<char>),
}

/// The view of a read entry.
pub open spec fn item_view(i: ZipItem) -> ZipItemView {
    ZipItemView { name: i.name@, is_dir: i.is_dir, contents: i.contents@ }
}

/// The view of a read failure.
pub open spec fn failure_view(f: ZipReadFailure) -> ZipFailureView {
    match f {
        ZipReadFailure::Archive(e) => ZipFailureView::Archive(e@),
        ZipReadFailure::Read(n, d, e) => ZipFailureView::Read(n@, d, e@),
    }
}

/// The number of entries `zip` lists in an archive, or its error message.
pub uninterp spec fn zip_count_of(bytes: Seq<u8>) -> Result<nat, Seq<char>>;

/// Entry `i` of an archive as `zip` reads it.
pub uninterp spec fn zip_entry_of(bytes: Seq<u8>, i: nat) -> Result<ZipItemView, ZipFailureView>;

/// `zip::ZipArchive::new` then `len`: the number of entries, or the error's message.
#[verifier::external_body]
fn zip_entry_count(bytes: &[u8]) -> (r: Result<usize, String>)
    ensures
        match r {
            Ok(n) => zip_count_of(bytes@) == Ok::<nat, Seq<char>>(n as nat),
            Err(e) => zip_count_of(bytes@) == Err::<nat, Seq<char>>(e@),
        },
{
    zip::ZipArchive::new(std::io::Cursor::new(bytes)).map(|a| a.len()).map_err(|e| e.to_string())
}

/// `zip::ZipArchive::by_index(i)`: the entry's stored `name`, whether it is a directory
/// (`is_dir`), and its bytes (`read_to_end`).
#[verifier::external_body]
fn zip_entry(bytes: &[u8], i: usize) -> (r: Result<ZipItem, ZipReadFailure>)
    ensures
        match r {
            Ok(item) => zip_entry_of(bytes@, i as nat) == Ok::<ZipItemView, ZipFailureView>(
                item_view(item),
            ),
            Err(f) => zip_entry_of(bytes@, i as nat) == Err::<ZipItemView, ZipFailureView>(
                failure_view(f),
            ),
        },
{
    let mut archive = zip::ZipArchive::new(std::io::Cursor::new(bytes))
        .map_err(|e| ZipReadFailure::Archive(e.to_string()))?;
    let mut file = archive.by_index(i).map_err(|e| ZipReadFailure::Archive(e.to_string()))?;
    let name = file.name().to_owned();
    let is_dir = file.is_dir();
    let mut contents = Vec::new();
    std::io::Read::read_to_end(&mut file, &mut contents)
        .map_err(|e| ZipReadFailure::Read(name.clone(), is_dir, e.to_string()))?;
    Ok(ZipItem { name, is_dir, contents })
}

// ---------------------------------------------------------------------------
// Entry names as paths
// ---------------------------------------------------------------------------

/// Piece `i` of a `/`-split name is a path component: empty pieces are not, and `.` is only
/// at the very start.
pub open spec fn kept_piece(pieces: Seq<Seq<char>>, i: int) -> bool {
    pieces[i].len() > 0 && (pieces[i] != seq!['.'] || i == 0)
}

/// The path components of the first `n` pieces of a `/`-split name.
pub open spec fn components_upto(pieces: Seq<Seq<char>>, n: nat) -> Seq<Seq<char>>
    decreases n,
{
    if n == 0 {
        seq![]
    } else {
        let rest = components_upto(pieces, (n - 1) as nat);
        if n <= pieces.len() && kept_piece(pieces, n - 1) {
            rest.push(pieces[n - 1])
        } else {
            rest
        }
    }
}

/// How deep a list of components goes below its start, or none when a `..` climbs above it.
pub open spec fn depth_of(comps: Seq<Seq<char>>) -> Option<nat>
    decreases comps.len(),
{
    if comps.len() == 0 {
        Some(0)
    } else {
        match depth_of(comps.drop_last()) {
            None => None,
            Some(d) => if comps.last() == seq!['.', '.'] {
                if d == 0 {
                    None
                } else {
                    Some((d - 1) as nat)
                }
            } else if comps.last() == seq!['.'] {
                Some(d)
            } else {
                Some(d + 1)
            },
        }
    }
}

/// The entry name with its path separators written as `/`: on Windows a backslash separates
/// components too.
pub open spec fn slashed(name: Seq<char>, os: HostOs) -> Seq<char> {
    if os == HostOs::Windows {
        name.map_values(|c: char| if c == '\\' { '/' } else { c })
    } else {
        name
    }
}

/// On Windows, a name starting with a drive (`C:`) is not relative.
pub open spec fn drive_prefixed(name: Seq<char>, os: HostOs) -> bool {
    os == HostOs::Windows && name.len() >= 2 && name[1] == ':' && (('a' <= name[0] && name[0] <= 'z')
        || ('A' <= name[0] && name[0] <= 'Z'))
}

/// The components of an entry name read as a relative path on `os`, when it is safe to use: no
/// NUL character, not absolute (a leading separator, or on Windows a drive), and never climbing
/// above the archive's root. Components are separated by `/`, and on Windows by a backslash
/// too; empty components and `.` after the start are dropped; a leading `.` and any `..` are
/// kept.
pub open spec fn enclosed_parts_of(name: Seq<char>, os: HostOs) -> Option<Seq<Seq<char>>> {
    let norm = slashed(name, os);
    let pieces = crate::text::split_char(norm, '/');
    let comps = components_upto(pieces, pieces.len());
    if crate::text::find_char(name, '\0') is Some || (norm.len() > 0 && norm[0] == '/')
        || drive_prefixed(name, os) {
        None
    } else if depth_of(comps) is None {
        None
    } else {
        Some(comps)
    }
}

/// An entry name as safe path components (see [`enclosed_parts_of`]).
pub fn enclosed_parts(name: &str, os: HostOs) -> (r: Option<Vec<String>>)
    ensures
        match r {
            Some(v) => enclosed_parts_of(name@, os) == Some(string_views(v@)),
            None => enclosed_parts_of(name@, os) is None,
        },
{
    let raw = crate::text::chars_of(name);
    if crate::text::find_char_in(raw.as_slice(), '\0').is_some() {
        return None;
    }
    let windows = match os {
        HostOs::Windows => true,
        _ => false,
    };
    if windows && raw.len() >= 2 && raw[1] == ':' && (('a' <= raw[0] && raw[0] <= 'z') || ('A'
        <= raw[0] && raw[0] <= 'Z')) {
        return None;
    }
    let mut cs: Vec<char> = Vec::new();
    let mut j: usize = 0;
    while j < raw.len()
        invariant
            j <= raw@.len(),
            raw@ == name@,
            windows == (os == HostOs::Windows),
            cs@ == slashed(name@, os).take(j as int),
        decreases raw@.len() - j,
    {
        let c = if windows && raw[j] == '\\' {
            '/'
        } else {
            raw[j]
        };
        cs.push(c);
        assert(cs@ =~= slashed(name@, os).take(j + 1));
        j = j + 1;
    }
    assert(cs@ =~= slashed(name@, os));
    if cs.len() > 0 && cs[0] == '/' {
        return None;
    }
    let pieces = crate::text::split_at_char(cs.as_slice(), '/');
    let ghost pv = crate::text::views(pieces@);
    let n = pieces.len();
    let mut comps: Vec<String> = Vec::new();
    let mut ok = true;
    let mut depth: usize = 0;
    let mut i: usize = 0;
    while i < n
        invariant
            i <= n,
            n == pieces@.len(),
            pv == crate::text::views(pieces@),
            pv == crate::text::split_char(slashed(name@, os), '/'),
            string_views(comps@) == components_upto(pv, i as nat),
            depth <= i,
            depth_of(string_views(comps@)) == if ok {
                Some(depth as nat)
            } else {
                None::<nat>
            },
        decreases n - i,
    {
        let piece = &pieces[i];
        assert(piece@ == pv[i as int]);
        let is_dot = piece.len() == 1 && piece[0] == '.';
        let is_dotdot = piece.len() == 2 && piece[0] == '.' && piece[1] == '.';
        assert(is_dot == (piece@ == seq!['.'])) by {
            if piece@.len() == 1 && piece@[0] == '.' {
                assert(piece@ =~= seq!['.']);
            }
        }
        assert(is_dotdot == (piece@ == seq!['.', '.'])) by {
            if piece@.len() == 2 && piece@[0] == '.' && piece@[1] == '.' {
                assert(piece@ =~= seq!['.', '.']);
            }
        }
        if piece.len() > 0 && (!is_dot || i == 0) {
            let ghost before = string_views(comps@);
            let text = crate::text::string_of(piece.as_slice());
            comps.push(text);
            assert(string_views(comps@) =~= before.push(pv[i as int]));
            assert(string_views(comps@).drop_last() =~= before);
            if ok {
                if is_dotdot {
                    if depth == 0 {
                        ok = false;
                    } else {
                        depth = depth - 1;
                    }
                } else if !is_dot {
                    depth = depth + 1;
                }
            }
        }
        i = i + 1;
    }
    if ok {
        Some(comps)
    } else {
        None
    }
}

/// One file or directory read out of the archive.
#[derive(Debug, Clone, PartialEq, Eq)]
pub struct ExtractedEntry {
    /// Path relative to `cmdline-tools/latest/`, `/`-separated.
    pub relative: String,
    /// Whether it is a directory.
    pub is_dir: bool,
    /// The file's bytes (empty for a directory).
    pub contents: Vec<u8>,
}

/// Path components joined with `/`.
pub open spec fn slash_joined(parts: Seq<Seq<char>>) -> Seq<char>
    decreases parts.len(),
{
    if parts.len() == 0 {
        seq![]
    } else if parts.len() == 1 {
        parts[0]
    } else {
        slash_joined(parts.drop_last()) + seq!['/'] + parts.last()
    }
}

/// What one entry contributes: nothing (an unsafe name, or the top-level folder itself), an
/// extracted `(relative path, is directory, bytes)`, or an error as `(is a file-system error,
/// path, message)`. Directories are not read, so a read failure on one does not count.
pub open spec fn entry_outcome(r: Result<ZipItemView, ZipFailureView>, os: HostOs) -> Option<
    Result<(Seq<char>, bool, Seq<u8>), (bool, Seq<char>, Seq<char>)>,
> {
    match r {
        Err(ZipFailureView::Archive(e)) => Some(Err((false, seq![], e))),
        Err(ZipFailureView::Read(name, is_dir, e)) => match enclosed_parts_of(name, os) {
            None => None,
            Some(p) => if p.len() <= 1 {
                None
            } else if is_dir {
                Some(Ok((slash_joined(p.drop_first()), true, seq![])))
            } else {
                Some(Err((true, slash_joined(p.drop_first()), e)))
            },
        },
        Ok(item) => match enclosed_parts_of(item.name, os) {
            None => None,
            Some(p) => if p.len() <= 1 {
                None
            } else if item.is_dir {
                Some(Ok((slash_joined(p.drop_first()), true, seq![])))
            } else {
                Some(Ok((slash_joined(p.drop_first()), false, item.contents)))
            },
        },
    }
}

/// The entries `0 .. n` read in order, stopping at the first error.
pub open spec fn extracted_upto(bytes: Seq<u8>, n: nat, os: HostOs) -> Result<
    Seq<(Seq<char>, bool, Seq<u8>)>,
    (bool, Seq<char>, Seq<char>),
>
    decreases n,
{
    if n == 0 {
        Ok(seq![])
    } else {
        match extracted_upto(bytes, (n - 1) as nat, os) {
            Err(e) => Err(e),
            Ok(done) => match entry_outcome(zip_entry_of(bytes, (n - 1) as nat), os) {
                None => Ok(done),
                Some(Err(e)) => Err(e),
                Some(Ok(x)) => Ok(done.push(x)),
            },
        }
    }
}

/// The whole archive read: every entry, or the first error (an unreadable archive is an
/// error about the archive).
pub open spec fn archive_contents(bytes: Seq<u8>, os: HostOs) -> Result<
    Seq<(Seq<char>, bool, Seq<u8>)>,
    (bool, Seq<char>, Seq<char>),
> {
    match zip_count_of(bytes) {
        Err(e) => Err((false, seq![], e)),
        Ok(n) => extracted_upto(bytes, n, os),
    }
}

/// The view of an extracted entry.
pub open spec fn extracted_view(e: ExtractedEntry) -> (Seq<char>, bool, Seq<u8>) {
    (e.relative@, e.is_dir, e.contents@)
}

/// The error an archive failure becomes: an invalid archive, or a file-system error at the
/// entry's path.
pub open spec fn archive_error_is(e: CoreError, f: (bool, Seq<char>, Seq<char>)) -> bool {
    if f.0 {
        e matches CoreError::Fs { path, detail } && path@ == f.1 && detail@ == f.2
    } else {
        crate::error::is_invalid_error(e, "cmdline-tools archive"@, f.2)
    }
}

/// Once reading has failed, it stays failed with the same error.
proof fn lemma_failure_sticks(bytes: Seq<u8>, i: nat, n: nat, os: HostOs)
    requires
        i <= n,
        extracted_upto(bytes, i, os) is Err,
    ensures
        extracted_upto(bytes, n, os) == extracted_upto(bytes, i, os),
    decreases n - i,
{
    if i < n {
        lemma_failure_sticks(bytes, i, (n - 1) as nat, os);
    }
}

/// Components `1 ..` of `parts`, joined with `/`.
fn strip_and_join(parts: &Vec<String>) -> (r: String)
    requires
        parts@.len() > 1,
    ensures
        r@ == slash_joined(string_views(parts@).drop_first()),
{
    let ghost pv = string_views(parts@).drop_first();
    let n = parts.len();
    let mut out = parts[1].clone();
    let mut i: usize = 2;
    assert(pv.take(1) =~= seq![pv[0]]);
    while i < n
        invariant
            2 <= i <= n,
            n == parts@.len(),
            pv == string_views(parts@).drop_first(),
            out@ == slash_joined(pv.take(i - 1)),
        decreases n - i,
    {
        let ghost before = out@;
        out.append("/");
        out.append(parts[i].as_str());
        proof {
            reveal_strlit("/");
        }
        assert(pv.take(i as int).drop_last() =~= pv.take(i - 1));
        assert(pv.take(i as int).last() == parts@[i as int]@);
        assert(out@ =~= before + seq!['/'] + parts@[i as int]@);
        i = i + 1;
    }
    assert(pv.take(n - 1) =~= pv);
    out
}

/// The view of a read result.
pub open spec fn result_view(r: Result<ZipItem, ZipReadFailure>) -> Result<ZipItemView, ZipFailureView> {
    match r {
        Ok(i) => Ok(item_view(i)),
        Err(f) => Err(failure_view(f)),
    }
}

/// What one read entry contributes on `os` (see [`entry_outcome`]): nothing, an extracted
/// entry, or the error it stops the extraction with.
pub fn entry_step(r: Result<ZipItem, ZipReadFailure>, os: HostOs) -> (o: Option<Result<ExtractedEntry, CoreError>>)
    ensures
        match (o, entry_outcome(result_view(r), os)) {
            (None, None) => true,
            (Some(Ok(e)), Some(Ok(x))) => extracted_view(e) == x,
            (Some(Err(e)), Some(Err(f))) => archive_error_is(e, f),
            _ => false,
        },
{
    match r {
        Err(ZipReadFailure::Archive(e)) => Some(Err(CoreError::invalid("cmdline-tools archive", e.as_str()))),
        Err(ZipReadFailure::Read(name, is_dir, e)) => match enclosed_parts(name.as_str(), os) {
            None => None,
            Some(p) => {
                if p.len() > 1 {
                    let relative = strip_and_join(&p);
                    if is_dir {
                        Some(Ok(ExtractedEntry { relative, is_dir: true, contents: Vec::new() }))
                    } else {
                        Some(Err(CoreError::Fs { path: relative, detail: e }))
                    }
                } else {
                    None
                }
            },
        },
        Ok(item) => match enclosed_parts(item.name.as_str(), os) {
            None => None,
            Some(p) => {
                if p.len() > 1 {
                    let relative = strip_and_join(&p);
                    if item.is_dir {
                        Some(Ok(ExtractedEntry { relative, is_dir: true, contents: Vec::new() }))
                    } else {
                        Some(Ok(ExtractedEntry { relative, is_dir: false, contents: item.contents }))
                    }
                } else {
                    None
                }
            },
        },
    }
}

/// Read every entry of the `cmdline-tools` archive, with the archive's own top-level folder
/// stripped from each path. Entries whose name is unsafe as a path on `os` (absolute, holding
/// a NUL, or escaping the archive) and the top-level folder itself are skipped.
pub fn read_cmdline_tools_zip(zip_bytes: &[u8], os: HostOs) -> (r: Result<Vec<ExtractedEntry>, CoreError>)
    ensures
        match (r, archive_contents(zip_bytes@, os)) {
            (Ok(v), Ok(w)) => v@.map_values(|e: ExtractedEntry| extracted_view(e)) == w,
            (Err(e), Err(f)) => archive_error_is(e, f),
            _ => false,
        },
{
    let n = match zip_entry_count(zip_bytes) {
        Ok(n) => n,
        Err(e) => {
            return Err(CoreError::invalid("cmdline-tools archive", e.as_str()));
        },
    };
    let mut entries: Vec<ExtractedEntry> = Vec::new();
    let mut i: usize = 0;
    assert(entries@.map_values(|e: ExtractedEntry| extracted_view(e)) =~= Seq::<
        (Seq<char>, bool, Seq<u8>),
    >::empty());
    while i < n
        invariant
            i <= n,
            zip_count_of(zip_bytes@) == Ok::<nat, Seq<char>>(n as nat),
            extracted_upto(zip_bytes@, i as nat, os) == Ok::<
                Seq<(Seq<char>, bool, Seq<u8>)>,
                (bool, Seq<char>, Seq<char>),
            >(entries@.map_values(|e: ExtractedEntry| extracted_view(e))),
        decreases n - i,
    {
        let ghost before = entries@.map_values(|e: ExtractedEntry| extracted_view(e));
        let read = zip_entry(zip_bytes, i);
        assert(result_view(read) == zip_entry_of(zip_bytes@, i as nat));
        match entry_step(read, os) {
            None => {},
            Some(Ok(x)) => {
                let ghost xv = extracted_view(x);
                entries.push(x);
                assert(entries@.map_values(|e: ExtractedEntry| extracted_view(e)) =~= before.push(xv));
            },
            Some(Err(e)) => {
                proof {
                    lemma_failure_sticks(zip_bytes@, (i + 1) as nat, n as nat, os);
                }
                return Err(e);
            },
        }
        i = i + 1;
    }
    Ok(entries)
}

} // verus!
