//! An AVD's `config.ini`: reading its `key=value` pairs, turning the hardware keyboard on, and
//! the facts an adopted AVD's row is enriched with.

use vstd::prelude::*;

use crate::android::avd_list::opt_view;
use crate::model::image::{coord_parse, ImageCoord};
use crate::text::{
    chars_eq, chars_of, eq_ignore_ascii_case, eq_ignore_ascii_case_chars, lemma_somes_step, lines,
    lines_of, parse_unsigned, parse_unsigned_chars, somes, split_once_at, split_once_char,
    string_of, trim, trim_chars, views,
};

verus! {

/// The `(key, value)` of one `config.ini` line: blank lines, `#` comments and `[section]`
/// headers give nothing; otherwise the text around the first `=`, both trimmed.
pub open spec fn ini_line(line: Seq<char>) -> Option<(Seq<char>, Seq<char>)> {
    let t = trim(line);
    if t.len() == 0 || t[0] == '#' || t[0] == '[' {
        None
    } else {
        match split_once_char(t, '=') {
            Some((k, v)) => Some((trim(k), trim(v))),
            None => None,
        }
    }
}

/// The `key=value` pairs of an ini text, in order.
pub open spec fn ini_pairs(text: Seq<char>) -> Seq<(Seq<char>, Seq<char>)> {
    somes(lines_of(text).map_values(|l: Seq<char>| ini_line(l)))
}

/// The value of `key` in a list of pairs: the last one wins, as in a map built from them.
pub open spec fn ini_get(pairs: Seq<(Seq<char>, Seq<char>)>, key: Seq<char>) -> Option<Seq<char>>
    decreases pairs.len(),
{
    if pairs.len() == 0 {
        None
    } else if pairs.last().0 == key {
        Some(pairs.last().1)
    } else {
        ini_get(pairs.drop_last(), key)
    }
}

/// The views of a sequence of string pairs.
pub open spec fn kv_views(v: Seq<(String, String)>) -> Seq<(Seq<char>, Seq<char>)> {
    crate::ports::pair_views(v)
}

/// One `config.ini` line as a pair.
fn ini_line_exec(line: &[char]) -> (r: Option<(String, String)>)
    ensures
        match r {
            Some(p) => ini_line(line@) == Some((p.0@, p.1@)),
            None => ini_line(line@) is None,
        },
{
    let t = trim_chars(line);
    if t.len() == 0 || t[0] == '#' || t[0] == '[' {
        return None;
    }
    match split_once_at(t.as_slice(), '=') {
        Some((k, v)) => {
            let kt = trim_chars(k.as_slice());
            let vt = trim_chars(v.as_slice());
            Some((string_of(kt.as_slice()), string_of(vt.as_slice())))
        },
        None => None,
    }
}

/// An AVD `config.ini` (or other `.ini`) as its `key=value` pairs, in order. Blank lines, `#`
/// comments and `[section]` headers are skipped; keys and values are trimmed.
pub fn parse_ini(text: &str) -> (r: Vec<(String, String)>)
    ensures
        kv_views(r@) == ini_pairs(text@),
{
    let cs = chars_of(text);
    let ls = lines(cs.as_slice());
    let ghost lv = lines_of(text@);
    let ghost opts = lv.map_values(|l: Seq<char>| ini_line(l));
    let mut r: Vec<(String, String)> = Vec::new();
    let n = ls.len();
    let mut i: usize = 0;
    while i < n
        invariant
            i <= n,
            n == ls@.len(),
            views(ls@) == lv,
            lv == lines_of(text@),
            opts == lv.map_values(|l: Seq<char>| ini_line(l)),
            kv_views(r@) == somes(opts.take(i as int)),
        decreases n - i,
    {
        proof {
            lemma_somes_step(opts, i as int);
        }
        assert(ls@[i as int]@ == lv[i as int]);
        match ini_line_exec(ls[i].as_slice()) {
            Some(p) => {
                let ghost before = kv_views(r@);
                let ghost pv = (p.0@, p.1@);
                r.push(p);
                assert(kv_views(r@) =~= before.push(pv));
            },
            None => {},
        }
        i = i + 1;
    }
    assert(opts.take(n as int) =~= opts);
    r
}

/// The value of `key` among parsed pairs (the last one wins).
pub fn ini_value(pairs: &[(String, String)], key: &str) -> (r: Option<String>)
    ensures
        opt_view(r) == ini_get(kv_views(pairs@), key@),
{
    let ghost pv = kv_views(pairs@);
    let mut i: usize = pairs.len();
    assert(pv.take(i as int) =~= pv);
    while i > 0
        invariant
            i <= pairs@.len(),
            pv == kv_views(pairs@),
            ini_get(pv, key@) == ini_get(pv.take(i as int), key@),
        decreases i,
    {
        assert(pv.take(i as int).last() == pv[i - 1]);
        assert(pv.take(i as int).drop_last() =~= pv.take(i - 1));
        if crate::text::str_eq(pairs[i - 1].0.as_str(), key) {
            return Some(pairs[i - 1].1.clone());
        }
        i = i - 1;
    }
    None
}

/// The line is a `hw.keyboard=…` setting.
pub open spec fn is_keyboard_line(line: Seq<char>) -> bool {
    match split_once_char(line, '=') {
        Some((k, _)) => trim(k) == "hw.keyboard"@,
        None => false,
    }
}

/// The lines that are not `hw.keyboard` settings, each followed by a newline.
pub open spec fn kept_text(ls: Seq<Seq<char>>) -> Seq<char>
    decreases ls.len(),
{
    if ls.len() == 0 {
        seq![]
    } else if is_keyboard_line(ls.last()) {
        kept_text(ls.drop_last())
    } else {
        kept_text(ls.drop_last()) + ls.last() + seq!['\n']
    }
}

/// What `config.ini` should be rewritten to so the desktop keyboard reaches Android text
/// fields: nothing when `hw.keyboard` already reads `yes` (any case); otherwise every other
/// line kept in order, then `hw.keyboard=yes`.
pub open spec fn keyboard_fixed(config: Seq<char>) -> Option<Seq<char>> {
    let already = match ini_get(ini_pairs(config), "hw.keyboard"@) {
        Some(v) => eq_ignore_ascii_case(v, "yes"@),
        None => false,
    };
    if already {
        None
    } else {
        Some(kept_text(lines_of(config)) + "hw.keyboard=yes\n"@)
    }
}

/// The text `config.ini` should be rewritten to so the desktop keyboard works
/// (`hw.keyboard=yes`), or `None` when it already says `yes`. Any existing `hw.keyboard=...`
/// line is replaced; every other line (comments, blanks, order) is kept.
pub fn hw_keyboard_fix(config_ini: &str) -> (r: Option<String>)
    ensures
        opt_view(r) == keyboard_fixed(config_ini@),
{
    let pairs = parse_ini(config_ini);
    let already = match ini_value(pairs.as_slice(), "hw.keyboard") {
        Some(v) => {
            let vc = chars_of(v.as_str());
            let yes = chars_of("yes");
            eq_ignore_ascii_case_chars(vc.as_slice(), yes.as_slice())
        },
        None => false,
    };
    if already {
        return None;
    }
    let cs = chars_of(config_ini);
    let ls = lines(cs.as_slice());
    let ghost lv = lines_of(config_ini@);
    let key = chars_of("hw.keyboard");
    let mut out: Vec<char> = Vec::new();
    let n = ls.len();
    let mut i: usize = 0;
    while i < n
        invariant
            i <= n,
            n == ls@.len(),
            views(ls@) == lv,
            key@ == "hw.keyboard"@,
            out@ == kept_text(lv.take(i as int)),
        decreases n - i,
    {
        assert(lv.take(i + 1).drop_last() =~= lv.take(i as int));
        assert(ls@[i as int]@ == lv[i as int]);
        let keyboard = match split_once_at(ls[i].as_slice(), '=') {
            Some((k, _)) => {
                let kt = trim_chars(k.as_slice());
                chars_eq(kt.as_slice(), key.as_slice())
            },
            None => false,
        };
        if !keyboard {
            let line = &ls[i];
            let m = line.len();
            let mut j: usize = 0;
            let ghost before = out@;
            while j < m
                invariant
                    j <= m,
                    m == line@.len(),
                    out@ == before + line@.take(j as int),
                decreases m - j,
            {
                out.push(line[j]);
                assert(out@ =~= before + line@.take(j + 1));
                j = j + 1;
            }
            out.push('\n');
            assert(line@.take(m as int) =~= line@);
        }
        assert(out@ =~= kept_text(lv.take(i + 1)));
        i = i + 1;
    }
    assert(lv.take(n as int) =~= lv);
    let mut s = string_of(out.as_slice());
    s.append("hw.keyboard=yes\n");
    Some(s)
}

/// `s` with every `from` replaced by `to`.
pub open spec fn replace_char(s: Seq<char>, from: char, to: char) -> Seq<char> {
    s.map_values(|c: char| if c == from { to } else { c })
}

/// The image coordinate an `image.sysdir.1` value names: `system-images/android-24/default/x86_64/`
/// read as `system-images;android-24;default;x86_64`.
pub open spec fn sysdir_coord(v: Seq<char>) -> Option<ImageCoord> {
    match coord_parse(replace_char(crate::android::inspect::trim_end_char(v, '/'), '/', ';')) {
        Ok(c) => Some(c),
        Err(_) => None,
    }
}

/// What an adopted AVD's `config.ini` says about it: display name (`avd.ini.displayname`),
/// device profile (`hw.device.name`), image (`image.sysdir.1`) and RAM (`hw.ramSize`).
#[derive(Debug, Clone, PartialEq, Eq)]
pub struct AdoptedConfig {
    /// `avd.ini.displayname`.
    pub display_name: Option<String>,
    /// `hw.device.name`.
    pub device_profile_id: Option<String>,
    /// `image.sysdir.1`, when it names a coordinate.
    pub image_coord: Option<ImageCoord>,
    /// `hw.ramSize`, when it is a `u32`.
    pub ram_mb: Option<u32>,
}

/// The RAM a `hw.ramSize` value gives.
pub open spec fn ram_of(v: Option<Seq<char>>) -> Option<u32> {
    match v {
        Some(s) => match parse_unsigned(trim(s), 10, u32::MAX as int) {
            Some(n) => Some(n as u32),
            None => None,
        },
        None => None,
    }
}

/// Read the facts an adopted AVD's `config.ini` gives.
pub fn adopted_config(config_ini: &str) -> (r: AdoptedConfig)
    ensures
        opt_view(r.display_name) == ini_get(ini_pairs(config_ini@), "avd.ini.displayname"@),
        opt_view(r.device_profile_id) == ini_get(ini_pairs(config_ini@), "hw.device.name"@),
        r.image_coord == match ini_get(ini_pairs(config_ini@), "image.sysdir.1"@) {
            Some(v) => sysdir_coord(v),
            None => None,
        },
        r.ram_mb == ram_of(ini_get(ini_pairs(config_ini@), "hw.ramSize"@)),
{
    let kv = parse_ini(config_ini);
    let display_name = ini_value(kv.as_slice(), "avd.ini.displayname");
    let device_profile_id = ini_value(kv.as_slice(), "hw.device.name");
    let image_coord = match ini_value(kv.as_slice(), "image.sysdir.1") {
        Some(v) => {
            let vc = chars_of(v.as_str());
            let trimmed = crate::android::inspect::trim_end_char_exec(vc.as_slice(), '/');
            let mut replaced: Vec<char> = Vec::new();
            let n = trimmed.len();
            let mut i: usize = 0;
            while i < n
                invariant
                    i <= n,
                    n == trimmed@.len(),
                    replaced@ == replace_char(trimmed@.take(i as int), '/', ';'),
                decreases n - i,
            {
                replaced.push(
                    if trimmed[i] == '/' {
                        ';'
                    } else {
                        trimmed[i]
                    },
                );
                assert(replaced@ =~= replace_char(trimmed@.take(i + 1), '/', ';'));
                i = i + 1;
            }
            assert(trimmed@.take(n as int) =~= trimmed@);
            let text = string_of(replaced.as_slice());
            match ImageCoord::from_str(text.as_str()) {
                Ok(c) => Some(c),
                Err(_) => None,
            }
        },
        None => None,
    };
    let ram_mb = match ini_value(kv.as_slice(), "hw.ramSize") {
        Some(v) => {
            let t = crate::text::trim_str(v.as_str());
            let tc = chars_of(t.as_str());
            match parse_unsigned_chars(tc.as_slice(), 10, 0xffff_ffffu64) {
                Some(n) => Some(n as u32),
                None => None,
            }
        },
        None => None,
    };
    AdoptedConfig { display_name, device_profile_id, image_coord, ram_mb }
}

// ---------------------------------------------------------------------------
// The keyboard fix is applied once
// ---------------------------------------------------------------------------

/// The unfinished line after appending text without line endings is the old one extended.
proof fn lemma_fold_extends_current(a: Seq<char>, b: Seq<char>)
    requires
        forall|i: int| 0 <= i < b.len() ==> b[i] != '\n',
    ensures
        crate::text::lines_fold(a + b).1 == crate::text::lines_fold(a).1 + b,
    decreases b.len(),
{
    if b.len() == 0 {
        assert(a + b =~= a);
    } else {
        lemma_fold_extends_current(a, b.drop_last());
        assert((a + b).drop_last() =~= a + b.drop_last());
        assert((a + b).last() == b.last());
        assert(crate::text::lines_fold(a).1 + b =~= (crate::text::lines_fold(a).1 + b.drop_last()).push(
            b.last(),
        ));
    }
}

/// The kept lines are empty or end with a line break.
proof fn lemma_kept_text_ends_a_line(ls: Seq<Seq<char>>)
    ensures
        kept_text(ls).len() == 0 || kept_text(ls).last() == '\n',
    decreases ls.len(),
{
    if ls.len() > 0 {
        lemma_kept_text_ends_a_line(ls.drop_last());
    }
}

/// After a line break (or at the start) there is no unfinished line.
proof fn lemma_fold_after_break(a: Seq<char>)
    requires
        a.len() == 0 || a.last() == '\n',
    ensures
        crate::text::lines_fold(a).1 == Seq::<char>::empty(),
{
}

/// Text ending in `hw.keyboard=yes\n` ends with the setting `hw.keyboard = yes`.
proof fn lemma_last_pair_is_keyboard_yes(a: Seq<char>)
    requires
        a.len() == 0 || a.last() == '\n',
    ensures
        ini_get(ini_pairs(a + "hw.keyboard=yes\n"@), "hw.keyboard"@) == Some("yes"@),
{
    reveal_strlit("hw.keyboard=yes\n");
    reveal_strlit("hw.keyboard");
    reveal_strlit("yes");
    let line: Seq<char> = "hw.keyboard"@ + seq!['='] + "yes"@;
    let y = a + "hw.keyboard=yes\n"@;
    assert(line.len() == 15);
    assert(forall|i: int| 0 <= i < line.len() ==> line[i] != '\n');
    assert(y.drop_last() =~= a + line);
    lemma_fold_after_break(a);
    lemma_fold_extends_current(a, line);
    assert(crate::text::lines_fold(a).1 + line =~= line);
    assert(y.last() == '\n');
    assert(crate::text::strip_cr(line) == line);
    let lv = lines_of(y);
    assert(lv.len() > 0 && lv.last() == line);
    // The line reads as the pair `(hw.keyboard, yes)`.
    assert(!crate::text::is_ws(line[0]));
    assert(crate::text::trim_start(line) == line);
    assert(!crate::text::is_ws(line.last()));
    assert(trim(line) == line);
    assert(crate::text::is_first_char(line, '=', 11));
    assert(crate::text::find_char(line, '=') == Some(11int));
    assert(line.take(11) =~= "hw.keyboard"@);
    assert(line.skip(12) =~= "yes"@);
    assert(!crate::text::is_ws(line.take(11)[0]));
    assert(crate::text::trim_start(line.take(11)) == line.take(11));
    assert(!crate::text::is_ws(line.take(11).last()));
    assert(!crate::text::is_ws(line.skip(12)[0]));
    assert(crate::text::trim_start(line.skip(12)) == line.skip(12));
    assert(!crate::text::is_ws(line.skip(12).last()));
    assert(ini_line(line) == Some(("hw.keyboard"@, "yes"@)));
    let opts = lv.map_values(|l: Seq<char>| ini_line(l));
    assert(opts.last() == Some(("hw.keyboard"@, "yes"@)));
    assert(somes(opts).last() == ("hw.keyboard"@, "yes"@));
}

/// The keyboard fix is applied at most once: the text it produces needs no further fix.
pub proof fn lemma_keyboard_fix_is_idempotent(config: Seq<char>)
    requires
        keyboard_fixed(config) is Some,
    ensures
        keyboard_fixed(keyboard_fixed(config)->0) is None,
{
    let kept = kept_text(lines_of(config));
    lemma_kept_text_ends_a_line(lines_of(config));
    lemma_last_pair_is_keyboard_yes(kept);
    reveal_strlit("yes");
    assert(eq_ignore_ascii_case("yes"@, "yes"@));
}

} // verus!
