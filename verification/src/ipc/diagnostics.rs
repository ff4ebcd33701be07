//! The text transformations behind the diagnostics bundle: collapsing the home directory out
//! of log text, and keeping the tail of a log.

use vstd::prelude::*;

use crate::android::provider::{tail_lines, tail_of};
use crate::text::{chars_of, occurs_at, occurs_at_exec, string_of};

verus! {

/// `str::replace(p, r)` for a non-empty `p`: every occurrence of `p`, taken left to right
/// without overlap, replaced by `r`.
pub open spec fn replace_all(s: Seq<char>, p: Seq<char>, r: Seq<char>) -> Seq<char>
    decreases s.len(),
{
    if p.len() == 0 || s.len() == 0 {
        s
    } else if occurs_at(s, p, 0) {
        r + replace_all(s.skip(p.len() as int), p, r)
    } else {
        seq![s[0]] + replace_all(s.skip(1), p, r)
    }
}

/// The redaction: the home directory, when one is known and non-empty, replaced by `~`.
pub open spec fn redacted(text: Seq<char>, home: Option<Seq<char>>) -> Seq<char> {
    match home {
        Some(h) => if h.len() > 0 {
            replace_all(text, h, seq!['~'])
        } else {
            text
        },
        None => text,
    }
}

/// Replace the home-directory prefix with `~` everywhere it appears in `text`; with no home
/// (or an empty one) the text is passed through unchanged. Only paths are scrubbed: text that
/// merely looks secret is left as it is.
pub fn redact_with(text: &str, home: Option<&str>) -> (r: String)
    ensures
        r@ == redacted(text@, match home {
            Some(h) => Some(h@),
            None => None,
        }),
{
    let h = match home {
        Some(h) => h,
        None => {
            return text.to_owned();
        },
    };
    let s = chars_of(text);
    let p = chars_of(h);
    let m = p.len();
    if m == 0 {
        return text.to_owned();
    }
    let n = s.len();
    let ghost sv = s@;
    let ghost pv = p@;
    let mut out: Vec<char> = Vec::new();
    let mut i: usize = 0;
    assert(sv.skip(0) =~= sv);
    assert(out@ + replace_all(sv.skip(0), pv, seq!['~']) =~= replace_all(sv, pv, seq!['~']));
    while i < n
        invariant
            i <= n,
            n == sv.len(),
            m == pv.len(),
            m > 0,
            sv == s@,
            pv == p@,
            out@ + replace_all(sv.skip(i as int), pv, seq!['~']) == replace_all(sv, pv, seq!['~']),
        decreases n - i,
    {
        let ghost rest = sv.skip(i as int);
        if m <= n - i && occurs_at_exec(s.as_slice(), p.as_slice(), i) {
            proof {
                assert(rest.subrange(0, m as int) =~= sv.subrange(i as int, i + m));
                assert(occurs_at(rest, pv, 0));
                assert(rest.skip(m as int) =~= sv.skip(i + m));
                assert(out@ + replace_all(rest, pv, seq!['~']) == out@ + (seq!['~'] + replace_all(
                    sv.skip(i + m),
                    pv,
                    seq!['~'],
                )));
            }
            let ghost before = out@;
            out.push('~');
            assert(out@ =~= before + seq!['~']);
            assert(before + (seq!['~'] + replace_all(sv.skip(i + m), pv, seq!['~'])) =~= out@
                + replace_all(sv.skip(i + m), pv, seq!['~']));
            i = i + m;
        } else {
            proof {
                if occurs_at(rest, pv, 0) {
                    assert(rest.subrange(0, m as int) =~= sv.subrange(i as int, i + m));
                }
                assert(!occurs_at(rest, pv, 0));
                assert(rest.skip(1) =~= sv.skip(i + 1));
                assert(rest[0] == s@[i as int]);
            }
            let ghost before = out@;
            out.push(s[i]);
            assert(before + (seq![s@[i as int]] + replace_all(sv.skip(i + 1), pv, seq!['~']))
                =~= out@ + replace_all(sv.skip(i + 1), pv, seq!['~']));
            i = i + 1;
        }
    }
    assert(sv.skip(n as int) =~= Seq::<char>::empty());
    assert(out@ + replace_all(sv.skip(n as int), pv, seq!['~']) =~= out@);
    string_of(out.as_slice())
}

/// Lines joined with `'\n'` between them.
pub open spec fn joined(ls: Seq<Seq<char>>) -> Seq<char>
    decreases ls.len(),
{
    if ls.len() == 0 {
        seq![]
    } else if ls.len() == 1 {
        ls[0]
    } else {
        joined(ls.drop_last()) + seq!['\n'] + ls.last()
    }
}

/// The last `max_lines` lines of a file's content, joined with `'\n'` (the file itself is read
/// by the caller; an unreadable file gives `""`).
pub fn tail_text(content: &str, max_lines: usize) -> (r: String)
    ensures
        r@ == joined(tail_of(content@, max_lines as nat)),
{
    let ls = tail_lines(content, max_lines);
    let ghost lv = tail_of(content@, max_lines as nat);
    let n = ls.len();
    let mut out: Vec<char> = Vec::new();
    let mut i: usize = 0;
    while i < n
        invariant
            i <= n,
            n == ls@.len(),
            crate::ports::string_views(ls@) == lv,
            out@ == joined(lv.take(i as int)),
        decreases n - i,
    {
        let line = chars_of(ls[i].as_str());
        let ghost before = out@;
        if i > 0 {
            out.push('\n');
        }
        let m = line.len();
        let mut k: usize = 0;
        while k < m
            invariant
                k <= m,
                m == line@.len(),
                i < n,
                out@ == if i > 0 {
                    before + seq!['\n'] + line@.take(k as int)
                } else {
                    before + line@.take(k as int)
                },
            decreases m - k,
        {
            out.push(line[k]);
            proof {
                assert(line@.take(k + 1) =~= line@.take(k as int).push(line@[k as int]));
            }
            k = k + 1;
        }
        proof {
            assert(line@.take(m as int) =~= line@);
            assert(lv[i as int] == ls@[i as int]@);
            assert(lv.take(i + 1).drop_last() =~= lv.take(i as int));
            if i == 0 {
                assert(before =~= Seq::<char>::empty());
                assert(out@ =~= lv[0]);
            } else {
                assert(out@ =~= joined(lv.take(i as int)) + seq!['\n'] + lv[i as int]);
            }
        }
        i = i + 1;
    }
    assert(lv.take(n as int) =~= lv);
    string_of(out.as_slice())
}

} // verus!
