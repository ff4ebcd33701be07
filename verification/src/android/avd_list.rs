//! Parsing of `avdmanager list avd` (the verbose form) into [`AvdEntry`]s: the on-disk AVD
//! inventory that reconciliation compares the registry against.
//!
//! A loadable entry is a block of `Name:` / `Device:` / `Path:` / `Target:` /
//! `Based on: … Tag/ABI:` / `Sdcard:` lines; blocks are separated by a line of dashes. Broken
//! AVDs follow a `The following Android Virtual Devices could not be loaded:` header and carry
//! only `Name:` / `Path:` / `Error:`.

use vstd::prelude::*;

use crate::text::{
    chars_eq, chars_of, lines, lines_of, split_once_at, split_once_char, split_once_str,
    split_once_str_at, string_of, trim, trim_chars, views,
};

verus! {

/// One entry of `avdmanager list avd`.
#[derive(Debug, Clone, PartialEq, Eq)]
pub struct AvdEntry {
    /// The AVD name: the `-n` value and the stem of the on-disk `<name>.avd` directory.
    pub name: String,
    /// The `Device:` line verbatim, e.g. `pixel_6 (Google)`; `None` for a broken entry.
    pub device: Option<String>,
    /// The `Path:` line: the AVD's `.avd` directory.
    pub path: Option<String>,
    /// `<tag>/<abi>` from the `Based on: … Tag/ABI: <tag>/<abi>` line, e.g. `default/x86_64`.
    pub tag_abi: Option<String>,
    /// The `Based on:` android-version text, e.g. `Android 7.0 ("Nougat")`.
    pub based_on: Option<String>,
    /// `false` when the entry was listed under "could not be loaded".
    pub loadable: bool,
    /// The `Error:` text of a non-loadable entry.
    pub error: Option<String>,
}

/// The contents of an [`AvdEntry`].
pub struct AvdEntryView {
    pub name: Seq<char>,
    pub device: Option<Seq<char>>,
    pub path: Option<Seq<char>>,
    pub tag_abi: Option<Seq<char>>,
    pub based_on: Option<Seq<char>>,
    pub loadable: bool,
    pub error: Option<Seq<char>>,
}

/// The view of an optional string.
pub open spec fn opt_view(o: Option<String>) -> Option<Seq<char>> {
    match o {
        Some(s) => Some(s@),
        None => None,
    }
}

impl View for AvdEntry {
    type V = AvdEntryView;

    open spec fn view(&self) -> AvdEntryView {
        AvdEntryView {
            name: self.name@,
            device: opt_view(self.device),
            path: opt_view(self.path),
            tag_abi: opt_view(self.tag_abi),
            based_on: opt_view(self.based_on),
            loadable: self.loadable,
            error: opt_view(self.error),
        }
    }
}

/// The views of a sequence of entries.
pub open spec fn entry_views(v: Seq<AvdEntry>) -> Seq<AvdEntryView> {
    v.map_values(|e: AvdEntry| e@)
}

/// The header that starts the list of AVDs that could not be loaded.
pub open spec fn could_not_load_header() -> Seq<char> {
    "The following Android Virtual Devices could not be loaded:"@
}

/// A non-empty line made only of dashes: the block separator.
pub open spec fn is_separator(line: Seq<char>) -> bool {
    line.len() > 0 && forall|i: int| 0 <= i < line.len() ==> line[i] == '-'
}

/// Close the current block: keep it if it has a name.
pub open spec fn close(entries: Seq<AvdEntryView>, cur: Option<AvdEntryView>) -> Seq<AvdEntryView> {
    match cur {
        Some(e) => if e.name.len() > 0 {
            entries.push(e)
        } else {
            entries
        },
        None => entries,
    }
}

/// The parser's state between lines: the finished entries, the open block, and whether the
/// lines read so far are still in the loadable part of the listing.
pub type ListState = (Seq<AvdEntryView>, Option<AvdEntryView>, bool);

/// Apply `f` to the open block, if there is one.
pub open spec fn with_cur(cur: Option<AvdEntryView>, f: spec_fn(AvdEntryView) -> AvdEntryView) -> Option<AvdEntryView> {
    match cur {
        Some(e) => Some(f(e)),
        None => None,
    }
}

/// How one `key: value` line changes the state.
pub open spec fn field_step(st: ListState, key: Seq<char>, value: Seq<char>) -> ListState {
    let (entries, cur, loadable) = st;
    if key == "Name"@ {
        (
            close(entries, cur),
            Some(
                AvdEntryView {
                    name: value,
                    device: None,
                    path: None,
                    tag_abi: None,
                    based_on: None,
                    loadable,
                    error: None,
                },
            ),
            loadable,
        )
    } else if key == "Device"@ {
        (entries, with_cur(cur, |e: AvdEntryView| AvdEntryView { device: Some(value), ..e }), loadable)
    } else if key == "Path"@ {
        (entries, with_cur(cur, |e: AvdEntryView| AvdEntryView { path: Some(value), ..e }), loadable)
    } else if key == "Error"@ {
        (entries, with_cur(cur, |e: AvdEntryView| AvdEntryView { error: Some(value), ..e }), loadable)
    } else if key == "Based on"@ {
        match split_once_str(value, "Tag/ABI:"@) {
            Some((b, t)) => (
                entries,
                with_cur(
                    cur,
                    |e: AvdEntryView|
                        AvdEntryView { based_on: Some(trim(b)), tag_abi: Some(trim(t)), ..e },
                ),
                loadable,
            ),
            None => (
                entries,
                with_cur(cur, |e: AvdEntryView| AvdEntryView { based_on: Some(value), ..e }),
                loadable,
            ),
        }
    } else {
        st
    }
}

/// How one raw line of output changes the state.
pub open spec fn line_step(st: ListState, raw: Seq<char>) -> ListState {
    let (entries, cur, loadable) = st;
    let line = trim(raw);
    if line == could_not_load_header() {
        (close(entries, cur), None, false)
    } else if line.len() == 0 || is_separator(line) {
        (close(entries, cur), None, loadable)
    } else {
        match split_once_char(line, ':') {
            None => st,
            Some((k, v)) => field_step(st, trim(k), trim(v)),
        }
    }
}

/// The state after the given lines, starting with no entries, no open block, loadable.
pub open spec fn list_fold(ls: Seq<Seq<char>>) -> ListState
    decreases ls.len(),
{
    if ls.len() == 0 {
        (seq![], None, true)
    } else {
        line_step(list_fold(ls.drop_last()), ls.last())
    }
}

/// The entries of a full `avdmanager list avd` output.
pub open spec fn avd_list(output: Seq<char>) -> Seq<AvdEntryView> {
    let (entries, cur, _) = list_fold(lines_of(output));
    close(entries, cur)
}

/// The view of an optional entry.
pub open spec fn opt_entry_view(o: Option<AvdEntry>) -> Option<AvdEntryView> {
    match o {
        Some(e) => Some(e@),
        None => None,
    }
}

/// Add `entry` to `entries` when it is present and has a name.
pub fn push(entries: &mut Vec<AvdEntry>, entry: Option<AvdEntry>)
    ensures
        entry_views(final(entries)@) == close(entry_views(old(entries)@), opt_entry_view(entry)),
{
    if let Some(e) = entry {
        if !e.name.as_str().is_empty() {
            entries.push(e);
            assert(entry_views(entries@) =~= entry_views(old(entries)@).push(e@));
        }
    }
}

/// Apply one `key: value` line to the exec state.
fn apply_field(
    entries: &mut Vec<AvdEntry>,
    current: &mut Option<AvdEntry>,
    loadable: bool,
    key: &[char],
    value: &[char],
)
    ensures
        (entry_views(final(entries)@), opt_entry_view(*final(current)), loadable) == field_step(
            (entry_views(old(entries)@), opt_entry_view(*old(current)), loadable),
            key@,
            value@,
        ),
{
    let ghost st = (entry_views(old(entries)@), opt_entry_view(*old(current)), loadable);
    if chars_eq(key, chars_of("Name").as_slice()) {
        let prev = current.take();
        push(entries, prev);
        *current = Some(
            AvdEntry {
                name: string_of(value),
                device: None,
                path: None,
                tag_abi: None,
                based_on: None,
                loadable,
                error: None,
            },
        );
    } else if chars_eq(key, chars_of("Device").as_slice()) {
        if let Some(e) = current {
            e.device = Some(string_of(value));
        }
    } else if chars_eq(key, chars_of("Path").as_slice()) {
        if let Some(e) = current {
            e.path = Some(string_of(value));
        }
    } else if chars_eq(key, chars_of("Error").as_slice()) {
        if let Some(e) = current {
            e.error = Some(string_of(value));
        }
    } else if chars_eq(key, chars_of("Based on").as_slice()) {
        match split_once_str_at(value, chars_of("Tag/ABI:").as_slice()) {
            Some((b, t)) => {
                if let Some(e) = current {
                    e.based_on = Some(string_of(trim_chars(b.as_slice()).as_slice()));
                    e.tag_abi = Some(string_of(trim_chars(t.as_slice()).as_slice()));
                }
            },
            None => {
                if let Some(e) = current {
                    e.based_on = Some(string_of(value));
                }
            },
        }
    }
}

/// Apply one raw line to the exec state.
fn apply_line(entries: &mut Vec<AvdEntry>, current: &mut Option<AvdEntry>, loadable: &mut bool, raw: &[char])
    ensures
        (entry_views(final(entries)@), opt_entry_view(*final(current)), *final(loadable)) == line_step(
            (entry_views(old(entries)@), opt_entry_view(*old(current)), *old(loadable)),
            raw@,
        ),
{
    let line = trim_chars(raw);
    let header = chars_of("The following Android Virtual Devices could not be loaded:");
    if chars_eq(line.as_slice(), header.as_slice()) {
        let prev = current.take();
        push(entries, prev);
        *loadable = false;
        return;
    }
    let n = line.len();
    let mut all_dashes = true;
    let mut i: usize = 0;
    while i < n
        invariant
            i <= n,
            n == line@.len(),
            all_dashes == (forall|k: int| 0 <= k < i ==> line@[k] == '-'),
        decreases n - i,
    {
        if line[i] != '-' {
            all_dashes = false;
        }
        i = i + 1;
    }
    if n == 0 || all_dashes {
        proof {
            assert((n == 0 || all_dashes) == (line@.len() == 0 || is_separator(line@)));
        }
        let prev = current.take();
        push(entries, prev);
        return;
    }
    match split_once_at(line.as_slice(), ':') {
        None => {},
        Some((k, v)) => {
            let key = trim_chars(k.as_slice());
            let value = trim_chars(v.as_slice());
            apply_field(entries, current, *loadable, key.as_slice(), value.as_slice());
        },
    }
}

/// Parse the full output of `avdmanager list avd` (not `-c`). Never fails: unrecognized lines
/// are ignored, so every `Name:` block that can be seen is returned.
pub fn parse_avdmanager_list_avd(output: &str) -> (r: Vec<AvdEntry>)
    ensures
        entry_views(r@) == avd_list(output@),
{
    let cs = chars_of(output);
    let ls = lines(cs.as_slice());
    let ghost lv = lines_of(output@);
    let mut entries: Vec<AvdEntry> = Vec::new();
    let mut current: Option<AvdEntry> = None;
    let mut loadable = true;
    let n = ls.len();
    let mut i: usize = 0;
    assert(entry_views(entries@) =~= Seq::<AvdEntryView>::empty());
    assert(lv.take(0) =~= Seq::<Seq<char>>::empty());
    while i < n
        invariant
            i <= n,
            n == ls@.len(),
            views(ls@) == lv,
            (entry_views(entries@), opt_entry_view(current), loadable) == list_fold(
                lv.take(i as int),
            ),
        decreases n - i,
    {
        assert(lv.take(i + 1).drop_last() =~= lv.take(i as int));
        assert(ls@[i as int]@ == lv[i as int]);
        apply_line(&mut entries, &mut current, &mut loadable, ls[i].as_slice());
        i = i + 1;
    }
    assert(lv.take(n as int) =~= lv);
    push(&mut entries, current);
    entries
}


// ---------------------------------------------------------------------------
// One entry per `Name:` line
// ---------------------------------------------------------------------------

/// The name a raw line gives, when it is a `Name:` line with a non-empty value (the header,
/// blank lines and separators never are).
pub open spec fn name_line(raw: Seq<char>) -> Option<Seq<char>> {
    let line = trim(raw);
    if line == could_not_load_header() || line.len() == 0 || is_separator(line) {
        None
    } else {
        match split_once_char(line, ':') {
            Some((k, v)) => if trim(k) == "Name"@ && trim(v).len() > 0 {
                Some(trim(v))
            } else {
                None
            },
            None => None,
        }
    }
}

/// Whether the "could not be loaded" header is among the lines.
pub open spec fn header_seen(ls: Seq<Seq<char>>) -> bool
    decreases ls.len(),
{
    if ls.len() == 0 {
        false
    } else {
        header_seen(ls.drop_last()) || trim(ls.last()) == could_not_load_header()
    }
}

/// Each `Name:` line's name, in order, with whether it comes before the header (loadable).
pub open spec fn named_lines(ls: Seq<Seq<char>>) -> Seq<(Seq<char>, bool)>
    decreases ls.len(),
{
    if ls.len() == 0 {
        seq![]
    } else {
        let rest = named_lines(ls.drop_last());
        match name_line(ls.last()) {
            Some(v) => rest.push((v, !header_seen(ls.drop_last()))),
            None => rest,
        }
    }
}

/// The name and loadability of each entry.
pub open spec fn name_pairs(v: Seq<AvdEntryView>) -> Seq<(Seq<char>, bool)> {
    v.map_values(|e: AvdEntryView| (e.name, e.loadable))
}

/// Updating the open block without touching its name or loadability keeps the names closed.
proof fn lemma_close_same_name(entries: Seq<AvdEntryView>, cur: Option<AvdEntryView>, new: Option<AvdEntryView>)
    requires
        cur is Some <==> new is Some,
        cur is Some ==> new->0.name == cur->0.name && new->0.loadable == cur->0.loadable,
    ensures
        name_pairs(close(entries, new)) == name_pairs(close(entries, cur)),
{
    if cur is Some && cur->0.name.len() > 0 {
        assert(name_pairs(close(entries, new)) =~= name_pairs(close(entries, cur)));
    }
}

/// The fold keeps one entry per `Name:` line so far, loadable exactly before the header.
proof fn lemma_fold_names(ls: Seq<Seq<char>>)
    ensures
        list_fold(ls).2 == !header_seen(ls),
        name_pairs(close(list_fold(ls).0, list_fold(ls).1)) == named_lines(ls),
    decreases ls.len(),
{
    if ls.len() > 0 {
        let pre = ls.drop_last();
        lemma_fold_names(pre);
        let st = list_fold(pre);
        let (entries, cur, loadable) = st;
        let line = trim(ls.last());
        let closed = close(entries, cur);
        assert(close(closed, None) == closed);
        if line == could_not_load_header() {
        } else if line.len() == 0 || is_separator(line) {
        } else {
            match split_once_char(line, ':') {
                None => {},
                Some((k, v)) => {
                    let key = trim(k);
                    let value = trim(v);
                    if key == "Name"@ {
                        if value.len() > 0 {
                            assert(name_pairs(close(list_fold(ls).0, list_fold(ls).1)) =~= name_pairs(
                                closed,
                            ).push((value, loadable)));
                        }
                    } else {
                        let next = line_step(st, ls.last());
                        assert(next == field_step(st, key, value));
                        lemma_close_same_name(entries, cur, next.1);
                    }
                },
            }
        }
    }
}

/// `avdmanager list avd` gives one entry per `Name:` line with a non-empty value, in order and
/// named by it; an entry is loadable exactly when its `Name:` line comes before the
/// "could not be loaded" header.
pub proof fn lemma_one_entry_per_name_line(output: Seq<char>)
    ensures
        name_pairs(avd_list(output)) == named_lines(lines_of(output)),
{
    lemma_fold_names(lines_of(output));
}

} // verus!
