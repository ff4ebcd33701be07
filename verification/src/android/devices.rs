//! Android's own device hardware-profile XML files (the ones `avdmanager` reads from
//! `cmdline-tools`' `sdklib` jar) read into [`DeviceProfile`]s.
//!
//! The handset files (`devices.xml`, `nexus.xml`) carry no form-factor tag, so phone, tablet or
//! foldable is inferred from the id and name; every other file maps to one form factor.

use vstd::prelude::*;

use crate::android::avd_list::opt_view;
use crate::error::CoreError;
use crate::model::device::{DeviceProfile, DeviceProfileView, FormFactor, Screen, ScreenView};
use crate::text::{
    ascii_lower, ascii_lower_char, cat, cat3, chars_of, contains_chars, contains_str, find_char,
    find_char_in, is_digit, parse_unsigned, parse_unsigned_chars, slice_to_vec, str_eq, string_of,
    tokens, tokens_of, trim, trim_chars, views,
};
use crate::xml::{
    attr_of, attribute, child_text, child_with_tag, decode_utf8, find_child, has_tag, node_views,
    parse_xml, text_of, utf8_decode, xml_doc, XmlNode, XmlNodeView,
};

verus! {

/// Which device-definition file the XML came from; it decides the form factor.
#[derive(Debug, Clone, Copy, PartialEq, Eq, Structural)]
pub enum DeviceSource {
    /// `devices.xml` or `nexus.xml`: phone, tablet or foldable, inferred from id and name.
    Handset,
    /// `wear.xml`.
    Wear,
    /// `tv.xml`.
    Tv,
    /// `automotive.xml` (with or without the Play Store).
    Automotive,
    /// `desktop.xml`.
    Desktop,
}

/// The jar-relative resource paths of the device-definition files, each with its source.
pub open spec fn resources() -> Seq<(Seq<char>, DeviceSource)> {
    seq![
        ("com/android/sdklib/devices/devices.xml"@, DeviceSource::Handset),
        ("com/android/sdklib/devices/nexus.xml"@, DeviceSource::Handset),
        ("com/android/sdklib/devices/wear.xml"@, DeviceSource::Wear),
        ("com/android/sdklib/devices/tv.xml"@, DeviceSource::Tv),
        ("com/android/sdklib/devices/automotive.xml"@, DeviceSource::Automotive),
        ("com/android/sdklib/devices/desktop.xml"@, DeviceSource::Desktop),
    ]
}

/// The jar-relative resource paths of the device-definition files, each with its source.
pub fn device_xml_resources() -> (r: Vec<(&'static str, DeviceSource)>)
    ensures
        r@.map_values(|e: (&'static str, DeviceSource)| (e.0@, e.1)) == resources(),
{
    let r = vec![
        ("com/android/sdklib/devices/devices.xml", DeviceSource::Handset),
        ("com/android/sdklib/devices/nexus.xml", DeviceSource::Handset),
        ("com/android/sdklib/devices/wear.xml", DeviceSource::Wear),
        ("com/android/sdklib/devices/tv.xml", DeviceSource::Tv),
        ("com/android/sdklib/devices/automotive.xml", DeviceSource::Automotive),
        ("com/android/sdklib/devices/desktop.xml", DeviceSource::Desktop),
    ];
    assert(r@.map_values(|e: (&'static str, DeviceSource)| (e.0@, e.1)) =~= resources());
    r
}

// ---------------------------------------------------------------------------
// Form factor
// ---------------------------------------------------------------------------

/// `s` with its ASCII letters lowered.
pub open spec fn lowered(s: Seq<char>) -> Seq<char> {
    s.map_values(|c: char| ascii_lower(c))
}

/// The form factor of a device: fixed by its file, except for handsets, where `tablet` in the
/// lowered `"<id> <name>"` makes a tablet, `fold` or `rollable` a foldable, and anything else
/// a phone. (Lowering only the ASCII letters is enough: no other character lowers to a letter
/// of these words.)
pub open spec fn form_factor_of(source: DeviceSource, id: Seq<char>, name: Seq<char>) -> FormFactor {
    match source {
        DeviceSource::Wear => FormFactor::Wear,
        DeviceSource::Tv => FormFactor::Tv,
        DeviceSource::Automotive => FormFactor::Automotive,
        DeviceSource::Desktop => FormFactor::Desktop,
        DeviceSource::Handset => {
            let hay = lowered(id + seq![' '] + name);
            if contains_str(hay, "tablet"@) {
                FormFactor::Tablet
            } else if contains_str(hay, "fold"@) || contains_str(hay, "rollable"@) {
                FormFactor::Foldable
            } else {
                FormFactor::Phone
            }
        },
    }
}

/// The form factor of a device from its file, id and name.
pub fn form_factor_for(source: DeviceSource, id: &str, name: &str) -> (r: FormFactor)
    ensures
        r == form_factor_of(source, id@, name@),
{
    match source {
        DeviceSource::Wear => FormFactor::Wear,
        DeviceSource::Tv => FormFactor::Tv,
        DeviceSource::Automotive => FormFactor::Automotive,
        DeviceSource::Desktop => FormFactor::Desktop,
        DeviceSource::Handset => {
            let joined = cat3(id, " ", name);
            let cs = chars_of(joined.as_str());
            let n = cs.len();
            let mut hay: Vec<char> = Vec::new();
            let mut i: usize = 0;
            while i < n
                invariant
                    i <= n,
                    n == cs@.len(),
                    cs@ == joined@,
                    hay@ == lowered(cs@.take(i as int)),
                decreases n - i,
            {
                hay.push(ascii_lower_char(cs[i]));
                assert(lowered(cs@.take(i + 1)) =~= lowered(cs@.take(i as int)).push(
                    ascii_lower(cs@[i as int]),
                ));
                i = i + 1;
            }
            proof {
                assert(cs@.take(n as int) =~= cs@);
                reveal_strlit(" ");
                assert(joined@ =~= id@ + seq![' '] + name@);
            }
            if contains_chars(hay.as_slice(), chars_of("tablet").as_slice()) {
                FormFactor::Tablet
            } else if contains_chars(hay.as_slice(), chars_of("fold").as_slice()) || contains_chars(
                hay.as_slice(),
                chars_of("rollable").as_slice(),
            ) {
                FormFactor::Foldable
            } else {
                FormFactor::Phone
            }
        },
    }
}

// ---------------------------------------------------------------------------
// Density
// ---------------------------------------------------------------------------

/// The dpi of a named density bucket (`DisplayMetrics.DENSITY_*`).
pub open spec fn bucket_dpi(name: Seq<char>) -> Option<u32> {
    if name == "ldpi"@ {
        Some(120)
    } else if name == "mdpi"@ {
        Some(160)
    } else if name == "tvdpi"@ {
        Some(213)
    } else if name == "hdpi"@ {
        Some(240)
    } else if name == "xhdpi"@ {
        Some(320)
    } else if name == "xxhdpi"@ {
        Some(480)
    } else if name == "xxxhdpi"@ {
        Some(640)
    } else {
        None
    }
}

/// `<d:pixel-density>`, trimmed: a `u32` followed by `dpi` (`"420dpi"`), else a named bucket.
pub open spec fn density_of(raw: Seq<char>) -> Option<u32> {
    let t = trim(raw);
    let stripped: Option<Seq<char>> = if t.len() >= 3 && t.skip(t.len() - 3) == "dpi"@ {
        Some(t.take(t.len() - 3))
    } else {
        None
    };
    match stripped {
        Some(num) => match parse_unsigned(num, 10, u32::MAX as int) {
            Some(n) => Some(n as u32),
            None => bucket_dpi(t),
        },
        None => bucket_dpi(t),
    }
}

/// The dpi of a named density bucket.
fn bucket_dpi_exec(name: &str) -> (r: Option<u32>)
    ensures
        r == bucket_dpi(name@),
{
    if str_eq(name, "ldpi") {
        Some(120)
    } else if str_eq(name, "mdpi") {
        Some(160)
    } else if str_eq(name, "tvdpi") {
        Some(213)
    } else if str_eq(name, "hdpi") {
        Some(240)
    } else if str_eq(name, "xhdpi") {
        Some(320)
    } else if str_eq(name, "xxhdpi") {
        Some(480)
    } else if str_eq(name, "xxxhdpi") {
        Some(640)
    } else {
        None
    }
}

/// Read `<d:pixel-density>`: `"<n>dpi"` or one of Android's named density buckets.
pub fn parse_density_dpi(raw: &str) -> (r: Option<u32>)
    ensures
        r == density_of(raw@),
{
    let cs = chars_of(raw);
    let t = trim_chars(cs.as_slice());
    let ghost tv = trim(raw@);
    let name = string_of(t.as_slice());
    let n = t.len();
    if n >= 3 && t[n - 3] == 'd' && t[n - 2] == 'p' && t[n - 1] == 'i' {
        proof {
            reveal_strlit("dpi");
            assert(tv.skip(n - 3) =~= "dpi"@);
        }
        let num = slice_to_vec(t.as_slice(), 0, n - 3);
        assert(num@ =~= tv.take(n - 3));
        match parse_unsigned_chars(num.as_slice(), 10, 0xffff_ffffu64) {
            Some(v) => {
                return Some(v as u32);
            },
            None => {
                return bucket_dpi_exec(name.as_str());
            },
        }
    }
    proof {
        if n >= 3 && tv.skip(n - 3) == "dpi"@ {
            reveal_strlit("dpi");
            assert(tv.skip(n - 3)[0] == 'd');
            assert(tv.skip(n - 3)[1] == 'p');
            assert(tv.skip(n - 3)[2] == 'i');
        }
    }
    bucket_dpi_exec(name.as_str())
}

// ---------------------------------------------------------------------------
// Decimal numbers
// ---------------------------------------------------------------------------

/// Every character of `s` is an ASCII digit.
pub open spec fn all_digits(s: Seq<char>) -> bool {
    forall|i: int| 0 <= i < s.len() ==> is_digit(#[trigger] s[i])
}

/// `s` without one leading sign, and whether that sign was `-`.
pub open spec fn unsigned_part(s: Seq<char>) -> (bool, Seq<char>) {
    if s.len() > 0 && (s[0] == '+' || s[0] == '-') {
        (s[0] == '-', s.drop_first())
    } else {
        (false, s)
    }
}

/// A mantissa `Digit+ | Digit+ '.' Digit* | Digit* '.' Digit+`, split at its point.
pub open spec fn mantissa_parts(b: Seq<char>) -> Option<(Seq<char>, Seq<char>)> {
    match find_char(b, '.') {
        None => if b.len() > 0 && all_digits(b) {
            Some((b, Seq::<char>::empty()))
        } else {
            None
        },
        Some(i) => {
            let ip = b.take(i);
            let fp = b.skip(i + 1);
            if all_digits(ip) && all_digits(fp) && ip.len() + fp.len() > 0 {
                Some((ip, fp))
            } else {
                None
            }
        },
    }
}

/// The first position of `e` or `E` at or after `from`.
pub open spec fn exponent_from(b: Seq<char>, from: int) -> Option<int>
    decreases b.len() - from,
{
    if from < 0 || from >= b.len() {
        None
    } else if b[from] == 'e' || b[from] == 'E' {
        Some(from)
    } else {
        exponent_from(b, from + 1)
    }
}

/// The first position of `e` or `E`.
pub open spec fn exponent_at(b: Seq<char>) -> Option<int> {
    exponent_from(b, 0)
}

/// `s` spelled case-insensitively as `w` (`w` in lower case).
pub open spec fn spelled(s: Seq<char>, w: Seq<char>) -> bool {
    lowered(s) == w
}

/// The text `f32::from_str` / `f64::from_str` accept: an optional sign, then `inf`,
/// `infinity` or `nan` in any case, or a mantissa with an optional exponent (`e` or `E`, an
/// optional sign, one or more digits). No surrounding whitespace.
pub open spec fn float_literal(s: Seq<char>) -> bool {
    let b = unsigned_part(s).1;
    ||| spelled(b, "inf"@)
    ||| spelled(b, "infinity"@)
    ||| spelled(b, "nan"@)
    ||| match exponent_at(b) {
        None => mantissa_parts(b) is Some,
        Some(e) => mantissa_parts(b.take(e)) is Some && {
            let x = unsigned_part(b.skip(e + 1)).1;
            x.len() > 0 && all_digits(x)
        },
    }
}

/// Whether `s[from..to]` is all digits.
fn digits_between(s: &[char], from: usize, to: usize) -> (r: bool)
    requires
        from <= to <= s@.len(),
    ensures
        r == all_digits(s@.subrange(from as int, to as int)),
{
    let mut i: usize = from;
    while i < to
        invariant
            from <= i <= to,
            to <= s@.len(),
            forall|k: int| from <= k < i ==> is_digit(#[trigger] s@[k]),
        decreases to - i,
    {
        if !('0' <= s[i] && s[i] <= '9') {
            assert(!is_digit(s@.subrange(from as int, to as int)[i - from]));
            return false;
        }
        i = i + 1;
    }
    assert forall|k: int| 0 <= k < to - from implies is_digit(
        #[trigger] s@.subrange(from as int, to as int)[k],
    ) by {
        assert(s@.subrange(from as int, to as int)[k] == s@[from + k]);
    }
    true
}

/// The split of a mantissa at its point, as positions: the point (or the end) and whether
/// there is one.
fn mantissa_split(b: &[char]) -> (r: Option<(Vec<char>, Vec<char>)>)
    ensures
        match r {
            Some((ip, fp)) => mantissa_parts(b@) == Some((ip@, fp@)),
            None => mantissa_parts(b@) is None,
        },
{
    let n = b.len();
    match find_char_in(b, '.') {
        None => {
            if n > 0 && digits_between(b, 0, n) {
                assert(b@.subrange(0, n as int) =~= b@);
                Some((slice_to_vec(b, 0, n), Vec::new()))
            } else {
                assert(b@.subrange(0, n as int) =~= b@);
                None
            }
        },
        Some(i) => {
            let ok_i = digits_between(b, 0, i);
            let ok_f = digits_between(b, i + 1, n);
            assert(b@.subrange(0, i as int) =~= b@.take(i as int));
            assert(b@.subrange(i + 1, n as int) =~= b@.skip(i + 1));
            if ok_i && ok_f && n - 1 > 0 {
                Some((slice_to_vec(b, 0, i), slice_to_vec(b, i + 1, n)))
            } else {
                None
            }
        },
    }
}

/// Whether `s`, with its ASCII letters lowered, is `w`.
fn spelled_exec(s: &[char], w: &str) -> (r: bool)
    ensures
        r == spelled(s@, w@),
{
    let wc = chars_of(w);
    let n = s.len();
    if n != wc.len() {
        assert(lowered(s@).len() != w@.len());
        return false;
    }
    let mut i: usize = 0;
    while i < n
        invariant
            i <= n,
            n == s@.len(),
            n == wc@.len(),
            wc@ == w@,
            forall|k: int| 0 <= k < i ==> ascii_lower(s@[k]) == #[trigger] wc@[k],
        decreases n - i,
    {
        if ascii_lower_char(s[i]) != wc[i] {
            assert(lowered(s@)[i as int] != w@[i as int]);
            return false;
        }
        i = i + 1;
    }
    assert(lowered(s@) =~= w@);
    true
}

/// The first position of `e` or `E` in `b`.
fn exponent_index(b: &[char]) -> (r: Option<usize>)
    ensures
        match r {
            Some(e) => exponent_at(b@) == Some(e as int) && e < b@.len(),
            None => exponent_at(b@) is None,
        },
{
    let n = b.len();
    let mut i: usize = 0;
    while i < n
        invariant
            i <= n,
            n == b@.len(),
            exponent_at(b@) == exponent_from(b@, i as int),
        decreases n - i,
    {
        if b[i] == 'e' || b[i] == 'E' {
            return Some(i);
        }
        i = i + 1;
    }
    None
}

/// Whether `f32::from_str` / `f64::from_str` accept `s`.
pub fn is_float_literal(s: &[char]) -> (r: bool)
    ensures
        r == float_literal(s@),
{
    let n = s.len();
    let start: usize = if n > 0 && (s[0] == '+' || s[0] == '-') {
        1
    } else {
        0
    };
    let b = slice_to_vec(s, start, n);
    assert(b@ =~= unsigned_part(s@).1);
    if spelled_exec(b.as_slice(), "inf") || spelled_exec(b.as_slice(), "infinity") || spelled_exec(
        b.as_slice(),
        "nan",
    ) {
        return true;
    }
    match exponent_index(b.as_slice()) {
        None => mantissa_split(b.as_slice()).is_some(),
        Some(e) => {
            let m = slice_to_vec(b.as_slice(), 0, e);
            assert(m@ =~= b@.take(e as int));
            if mantissa_split(m.as_slice()).is_none() {
                return false;
            }
            let x = slice_to_vec(b.as_slice(), e + 1, b.len());
            assert(x@ =~= b@.skip(e + 1));
            let xs: usize = if x.len() > 0 && (x[0] == '+' || x[0] == '-') {
                1
            } else {
                0
            };
            let xl = x.len();
            let ok = xl - xs > 0 && digits_between(x.as_slice(), xs, xl);
            assert(x@.subrange(xs as int, xl as int) =~= unsigned_part(x@).1);
            ok
        },
    }
}

// ---------------------------------------------------------------------------
// RAM
// ---------------------------------------------------------------------------

/// `10^k`.
pub open spec fn pow10(k: nat) -> nat
    decreases k,
{
    if k == 0 {
        1
    } else {
        10 * pow10((k - 1) as nat)
    }
}

/// The value of a string of decimal digits.
pub open spec fn dec_value(s: Seq<char>) -> nat
    decreases s.len(),
{
    if s.len() == 0 {
        0
    } else {
        dec_value(s.drop_last()) * 10 + (s.last() as nat - 48) as nat
    }
}

/// The most significant digits a RAM figure may have.
pub open spec fn max_ram_digits() -> nat {
    19
}

/// `<d:ram unit="GiB|MiB|KiB">N</d:ram>` in whole MiB (any other unit counts as MiB): the
/// trimmed text is a plain decimal (optional sign, digits with an optional point, at most 19
/// digits), converted exactly, rounded half up and kept within `1 ..= u32::MAX` (a negative or
/// zero figure is 1). Any other spelling (an exponent, `inf`, `nan`, more digits) is unreadable.
pub open spec fn ram_of(text: Seq<char>, unit: Seq<char>) -> Option<u32> {
    let (neg, b) = unsigned_part(trim(text));
    match mantissa_parts(b) {
        None => None,
        Some((ip, fp)) => if ip.len() + fp.len() > max_ram_digits() {
            None
        } else {
            let n = dec_value(ip + fp);
            let den0 = pow10(fp.len());
            let num: nat = if unit == "GiB"@ {
                n * 1024
            } else {
                n
            };
            let den: nat = if unit == "KiB"@ {
                den0 * 1024
            } else {
                den0
            };
            let rounded = (2 * num + den) / (2 * den);
            Some(
                if neg || rounded == 0 {
                    1u32
                } else if rounded > u32::MAX {
                    u32::MAX
                } else {
                    rounded as u32
                },
            )
        },
    }
}

/// A digit string's value is below `10^len`.
pub proof fn lemma_dec_value_bound(s: Seq<char>)
    requires
        all_digits(s),
    ensures
        dec_value(s) < pow10(s.len()),
    decreases s.len(),
{
    if s.len() > 0 {
        assert(all_digits(s.drop_last())) by {
            assert forall|i: int| 0 <= i < s.drop_last().len() implies is_digit(
                #[trigger] s.drop_last()[i],
            ) by {
                assert(s.drop_last()[i] == s[i]);
            }
        }
        lemma_dec_value_bound(s.drop_last());
        assert(is_digit(s[s.len() - 1]));
    }
}

/// `10^k` grows with `k`.
pub proof fn lemma_pow10_mono(a: nat, b: nat)
    requires
        a <= b,
    ensures
        pow10(a) <= pow10(b),
        pow10(a) >= 1,
    decreases b,
{
    if a < b {
        lemma_pow10_mono(a, (b - 1) as nat);
    } else if a > 0 {
        lemma_pow10_mono((a - 1) as nat, (a - 1) as nat);
    }
}

/// `a` followed by `b`.
fn concat_chars(a: Vec<char>, b: &[char]) -> (r: Vec<char>)
    ensures
        r@ == a@ + b@,
{
    let mut out = a;
    let ghost av = out@;
    let m = b.len();
    let mut k: usize = 0;
    while k < m
        invariant
            k <= m,
            m == b@.len(),
            out@ == av + b@.take(k as int),
        decreases m - k,
    {
        out.push(b[k]);
        assert(b@.take(k + 1) =~= b@.take(k as int).push(b@[k as int]));
        k = k + 1;
    }
    assert(b@.take(m as int) =~= b@);
    out
}

/// The value of at most 19 decimal digits.
fn digits_value(d: &[char]) -> (r: u64)
    requires
        all_digits(d@),
        d@.len() <= 19,
    ensures
        r == dec_value(d@),
{
    let ghost dv = d@;
    let dn = d.len();
    let mut n: u64 = 0;
    let mut i: usize = 0;
    proof {
        lemma_pow10_mono(dn as nat, 19);
        reveal_with_fuel(pow10, 20);
        assert(pow10(19) == 10000000000000000000nat);
    }
    while i < dn
        invariant
            i <= dn,
            dn == dv.len(),
            dn <= 19,
            dv == d@,
            all_digits(dv),
            n == dec_value(dv.take(i as int)),
            n < pow10(i as nat),
            pow10(dn as nat) <= 10000000000000000000nat,
        decreases dn - i,
    {
        assert(dv.take(i + 1).drop_last() =~= dv.take(i as int));
        assert(is_digit(dv[i as int]));
        proof {
            lemma_pow10_mono((i + 1) as nat, dn as nat);
        }
        let c = d[i];
        let dig: u64 = (c as u32 - 48) as u64;
        n = n * 10 + dig;
        i = i + 1;
    }
    assert(dv.take(dn as int) =~= dv);
    n
}

/// `10^k` for `k <= 19`.
fn pow10_exec(k: usize) -> (r: u128)
    requires
        k <= 19,
    ensures
        r == pow10(k as nat),
        r <= 10000000000000000000u128,
{
    proof {
        reveal_with_fuel(pow10, 20);
        assert(pow10(19) == 10000000000000000000nat);
    }
    let mut p: u128 = 1;
    let mut j: usize = 0;
    while j < k
        invariant
            j <= k,
            k <= 19,
            p == pow10(j as nat),
            pow10(19) == 10000000000000000000nat,
        decreases k - j,
    {
        proof {
            lemma_pow10_mono((j + 1) as nat, 19);
        }
        p = p * 10;
        j = j + 1;
    }
    proof {
        lemma_pow10_mono(k as nat, 19);
    }
    p
}

/// `n / 10^k` of the given unit in whole MiB, rounded half up and kept within `1 ..= u32::MAX`.
fn round_mb(n: u64, k: usize, unit: &str, neg: bool) -> (r: u32)
    requires
        k <= 19,
    ensures
        ({
            let num: nat = if unit@ == "GiB"@ {
                n as nat * 1024
            } else {
                n as nat
            };
            let den: nat = if unit@ == "KiB"@ {
                pow10(k as nat) * 1024
            } else {
                pow10(k as nat)
            };
            let rounded = (2 * num + den) / (2 * den);
            r == if neg || rounded == 0 {
                1u32
            } else if rounded > u32::MAX {
                u32::MAX
            } else {
                rounded as u32
            }
        }),
{
    let den0 = pow10_exec(k);
    proof {
        lemma_pow10_mono(0, k as nat);
    }
    let num: u128 = if str_eq(unit, "GiB") {
        (n as u128) * 1024
    } else {
        n as u128
    };
    let den: u128 = if str_eq(unit, "KiB") {
        den0 * 1024
    } else {
        den0
    };
    let rounded: u128 = (2 * num + den) / (2 * den);
    if neg || rounded == 0 {
        1
    } else if rounded > 0xffff_ffffu128 {
        0xffff_ffffu32
    } else {
        rounded as u32
    }
}

/// Read a `<d:ram>` figure in its unit into whole MiB.
pub fn parse_ram_text(text: &str, unit: &str) -> (r: Option<u32>)
    ensures
        r == ram_of(text@, unit@),
{
    let cs = chars_of(text);
    let t = trim_chars(cs.as_slice());
    let tn = t.len();
    let neg = tn > 0 && t[0] == '-';
    let start: usize = if tn > 0 && (t[0] == '+' || t[0] == '-') {
        1
    } else {
        0
    };
    let b = slice_to_vec(t.as_slice(), start, tn);
    assert(b@ =~= unsigned_part(trim(text@)).1);
    let (ip, fp) = match mantissa_split(b.as_slice()) {
        None => {
            return None;
        },
        Some(parts) => parts,
    };
    let il = ip.len();
    let fl = fp.len();
    if il > 19 || fl > 19 - il {
        return None;
    }
    let ghost ipv = ip@;
    let digits = concat_chars(ip, fp.as_slice());
    let ghost dv = digits@;
    assert(all_digits(dv)) by {
        assert forall|i: int| 0 <= i < dv.len() implies is_digit(#[trigger] dv[i]) by {
            if i < il {
                assert(dv[i] == ipv[i]);
            } else {
                assert(dv[i] == fp@[i - il]);
            }
        }
    }
    let n = digits_value(digits.as_slice());
    Some(round_mb(n, fl, unit, neg))
}

// ---------------------------------------------------------------------------
// Profiles
// ---------------------------------------------------------------------------

/// The whitespace-separated sensor names of a `<hardware>` node's `<sensors>` (none when absent).
pub open spec fn sensors_of(nodes: Seq<XmlNodeView>, hw: int) -> Seq<Seq<char>> {
    match child_with_tag(nodes, hw, "sensors"@) {
        Some(sn) => match nodes[sn].text {
            Some(t) => tokens_of(t),
            None => seq![],
        },
        None => seq![],
    }
}

/// The RAM of a `<hardware>` node in MiB (its `unit` attribute defaulting to `MiB`).
pub open spec fn ram_mb_of(nodes: Seq<XmlNodeView>, hw: int) -> Option<u32> {
    match child_with_tag(nodes, hw, "ram"@) {
        None => None,
        Some(rm) => {
            let unit = match attr_of(nodes[rm].attrs, "unit"@) {
                Some(u) => u,
                None => "MiB"@,
            };
            match nodes[rm].text {
                None => None,
                Some(t) => ram_of(t, unit),
            }
        },
    }
}

/// The profile of the `<device>` node at `k`: its id and name, the manufacturer (trimmed, empty
/// when absent), the screen's pixel dimensions, density and diagonal, the RAM and sensors. A
/// device missing any of these (or with one unreadable) has no profile.
pub open spec fn profile_of(nodes: Seq<XmlNodeView>, k: int, source: DeviceSource) -> Option<
    DeviceProfileView,
> {
    match (text_of(nodes, k, "id"@), text_of(nodes, k, "name"@), child_with_tag(nodes, k, "hardware"@)) {
        (Some(id), Some(name), Some(hw)) => match child_with_tag(nodes, hw, "screen"@) {
            None => None,
            Some(sc) => match child_with_tag(nodes, sc, "dimensions"@) {
                None => None,
                Some(dm) => match (
                    text_of(nodes, dm, "x-dimension"@),
                    text_of(nodes, dm, "y-dimension"@),
                    text_of(nodes, sc, "pixel-density"@),
                    text_of(nodes, sc, "diagonal-length"@),
                    ram_mb_of(nodes, hw),
                ) {
                    (Some(xs), Some(ys), Some(ds), Some(dg), Some(ram)) => match (
                        parse_unsigned(xs, 10, u32::MAX as int),
                        parse_unsigned(ys, 10, u32::MAX as int),
                        density_of(ds),
                    ) {
                        (Some(w), Some(h), Some(dpi)) => if float_literal(dg) {
                            Some(
                                DeviceProfileView {
                                    id,
                                    display_name: name,
                                    oem: match text_of(nodes, k, "manufacturer"@) {
                                        Some(m) => trim(m),
                                        None => seq![],
                                    },
                                    form_factor: form_factor_of(source, id, name),
                                    screen: ScreenView {
                                        width_px: w as u32,
                                        height_px: h as u32,
                                        density_dpi: dpi,
                                        diagonal_in: dg,
                                    },
                                    default_ram_mb: ram,
                                    sensors: sensors_of(nodes, hw),
                                    is_custom: false,
                                },
                            )
                        } else {
                            None
                        },
                        _ => None,
                    },
                    _ => None,
                },
            },
        },
        _ => None,
    }
}

/// The sensors of the `<hardware>` node at `hw`.
fn sensors_exec(nodes: &[XmlNode], hw: usize) -> (r: Vec<String>)
    requires
        hw < nodes@.len(),
    ensures
        crate::ports::string_views(r@) == sensors_of(node_views(nodes@), hw as int),
{
    let text = match find_child(nodes, hw, "sensors") {
        None => {
            let r: Vec<String> = Vec::new();
            assert(crate::ports::string_views(r@) =~= Seq::<Seq<char>>::empty());
            return r;
        },
        Some(sn) => {
            assert(node_views(nodes@)[sn as int] == nodes@[sn as int]@);
            match &nodes[sn].text {
                None => {
                    let r: Vec<String> = Vec::new();
                    assert(crate::ports::string_views(r@) =~= Seq::<Seq<char>>::empty());
                    return r;
                },
                Some(t) => t.clone(),
            }
        },
    };
    let cs = chars_of(text.as_str());
    let ts = tokens(cs.as_slice());
    let n = ts.len();
    let mut out: Vec<String> = Vec::new();
    let mut i: usize = 0;
    while i < n
        invariant
            i <= n,
            n == ts@.len(),
            views(ts@) == tokens_of(text@),
            crate::ports::string_views(out@) == views(ts@).take(i as int),
        decreases n - i,
    {
        let w = string_of(ts[i].as_slice());
        let ghost before = crate::ports::string_views(out@);
        let ghost wv = w@;
        out.push(w);
        assert(crate::ports::string_views(out@) =~= before.push(wv));
        assert(views(ts@).take(i + 1) =~= views(ts@).take(i as int).push(ts@[i as int]@));
        i = i + 1;
    }
    assert(views(ts@).take(n as int) =~= views(ts@));
    out
}

/// The RAM of the `<hardware>` node at `hw`, in MiB.
fn ram_mb_exec(nodes: &[XmlNode], hw: usize) -> (r: Option<u32>)
    requires
        hw < nodes@.len(),
    ensures
        r == ram_mb_of(node_views(nodes@), hw as int),
{
    match find_child(nodes, hw, "ram") {
        None => None,
        Some(rm) => {
            assert(node_views(nodes@)[rm as int] == nodes@[rm as int]@);
            let unit = match attribute(&nodes[rm], "unit") {
                Some(u) => u,
                None => "MiB".to_owned(),
            };
            match &nodes[rm].text {
                None => None,
                Some(t) => parse_ram_text(t.as_str(), unit.as_str()),
            }
        },
    }
}

/// The text of the child `tag` of the node at `k`, as characters.
fn child_chars(nodes: &[XmlNode], k: usize, tag: &str) -> (r: Option<Vec<char>>)
    requires
        k < nodes@.len(),
    ensures
        match r {
            Some(v) => text_of(node_views(nodes@), k as int, tag@) == Some(v@),
            None => text_of(node_views(nodes@), k as int, tag@) is None,
        },
{
    match child_text(nodes, k, tag) {
        Some(t) => Some(chars_of(t.as_str())),
        None => None,
    }
}

/// The profile of the `<device>` node at `k`, if it has everything a profile needs.
pub fn build_profile(nodes: &[XmlNode], k: usize, source: DeviceSource) -> (r: Option<DeviceProfile>)
    requires
        k < nodes@.len(),
    ensures
        match r {
            Some(p) => profile_of(node_views(nodes@), k as int, source) == Some(p@),
            None => profile_of(node_views(nodes@), k as int, source) is None,
        },
{
    let ghost nv = node_views(nodes@);
    let id = match child_text(nodes, k, "id") {
        Some(v) => v,
        None => {
            return None;
        },
    };
    let name = match child_text(nodes, k, "name") {
        Some(v) => v,
        None => {
            return None;
        },
    };
    let hw = match find_child(nodes, k, "hardware") {
        Some(v) => v,
        None => {
            return None;
        },
    };
    let sc = match find_child(nodes, hw, "screen") {
        Some(v) => v,
        None => {
            return None;
        },
    };
    let dm = match find_child(nodes, sc, "dimensions") {
        Some(v) => v,
        None => {
            return None;
        },
    };
    let xs = child_chars(nodes, dm, "x-dimension");
    let ys = child_chars(nodes, dm, "y-dimension");
    let ds = child_text(nodes, sc, "pixel-density");
    let dg = child_chars(nodes, sc, "diagonal-length");
    let ram = ram_mb_exec(nodes, hw);
    let (xs, ys, ds, dg, ram) = match (xs, ys, ds, dg, ram) {
        (Some(a), Some(b), Some(c), Some(d), Some(e)) => (a, b, c, d, e),
        _ => {
            return None;
        },
    };
    let w = parse_unsigned_chars(xs.as_slice(), 10, 0xffff_ffffu64);
    let h = parse_unsigned_chars(ys.as_slice(), 10, 0xffff_ffffu64);
    let dpi = parse_density_dpi(ds.as_str());
    let (w, h, dpi) = match (w, h, dpi) {
        (Some(a), Some(b), Some(c)) => (a, b, c),
        _ => {
            return None;
        },
    };
    if !is_float_literal(dg.as_slice()) {
        return None;
    }
    let oem = match child_text(nodes, k, "manufacturer") {
        Some(m) => crate::text::trim_str(m.as_str()),
        None => String::new(),
    };
    let form_factor = form_factor_for(source, id.as_str(), name.as_str());
    let sensors = sensors_exec(nodes, hw);
    Some(
        DeviceProfile {
            id,
            display_name: name,
            oem,
            form_factor,
            screen: Screen {
                width_px: w as u32,
                height_px: h as u32,
                density_dpi: dpi,
                diagonal_in: string_of(dg.as_slice()),
            },
            default_ram_mb: ram,
            sensors,
            is_custom: false,
        },
    )
}

/// The profiles a device-definition file lists, in document order, or why it cannot be read.
pub open spec fn definitions_of(xml: Seq<u8>, source: DeviceSource) -> Result<
    Seq<DeviceProfileView>,
    Seq<char>,
> {
    match utf8_decode(xml) {
        Err(e) => Err("not valid utf-8: "@ + e),
        Ok(text) => match xml_doc(text) {
            Err(e) => Err(e),
            Ok(nodes) => Ok(
                crate::text::somes(
                    Seq::new(
                        nodes.len(),
                        |k: int|
                            if has_tag(nodes[k], "device"@) {
                                profile_of(nodes, k, source)
                            } else {
                                None
                            },
                    ),
                ),
            ),
        },
    }
}

/// Parse one device-definition file. A `<device>` missing what a profile needs is skipped;
/// only text that is not UTF-8 or not well-formed XML is an error.
pub fn parse(xml: &[u8], source: DeviceSource) -> (r: Result<Vec<DeviceProfile>, CoreError>)
    ensures
        match (r, definitions_of(xml@, source)) {
            (Ok(v), Ok(w)) => v@.map_values(|p: DeviceProfile| p@) == w,
            (Err(e), Err(d)) => crate::error::is_parse_error(e, "device definitions"@, d),
            _ => false,
        },
{
    let text = match decode_utf8(xml) {
        Ok(t) => t,
        Err(e) => {
            let d = cat("not valid utf-8: ", e.as_str());
            return Err(CoreError::parse("device definitions", d.as_str()));
        },
    };
    let nodes = match parse_xml(text.as_str()) {
        Ok(n) => n,
        Err(e) => {
            return Err(CoreError::parse("device definitions", e.as_str()));
        },
    };
    let ghost nv = node_views(nodes@);
    let ghost opts = Seq::new(
        nv.len(),
        |k: int|
            if has_tag(nv[k], "device"@) {
                profile_of(nv, k, source)
            } else {
                None
            },
    );
    let mut out: Vec<DeviceProfile> = Vec::new();
    let n = nodes.len();
    let mut i: usize = 0;
    while i < n
        invariant
            i <= n,
            n == nodes@.len(),
            nv == node_views(nodes@),
            opts == Seq::new(
                nv.len(),
                |k: int|
                    if has_tag(nv[k], "device"@) {
                        profile_of(nv, k, source)
                    } else {
                        None
                    },
            ),
            out@.map_values(|p: DeviceProfile| p@) == crate::text::somes(opts.take(i as int)),
        decreases n - i,
    {
        proof {
            crate::text::lemma_somes_step(opts, i as int);
        }
        assert(nv[i as int] == nodes@[i as int]@);
        let entry = if nodes[i].element && str_eq(nodes[i].tag.as_str(), "device") {
            build_profile(nodes.as_slice(), i, source)
        } else {
            None
        };
        match entry {
            Some(e) => {
                let ghost before = out@.map_values(|p: DeviceProfile| p@);
                let ghost ev = e@;
                out.push(e);
                assert(out@.map_values(|p: DeviceProfile| p@) =~= before.push(ev));
            },
            None => {},
        }
        i = i + 1;
    }
    assert(opts.take(n as int) =~= opts);
    Ok(out)
}

} // verus!
