//! Character-level text handling shared by every parser in the crate: whitespace, trimming,
//! line and token splitting, and decimal/hex numbers, each with the meaning the standard
//! library gives the matching `str` method.

use vstd::prelude::*;
use vstd::string::*;
use vstd::std_specs::iter::IteratorSpec;

verus! {

// ---------------------------------------------------------------------------
// Conversions between strings and character vectors
// ---------------------------------------------------------------------------

/// The characters of `s`, in order.
pub(crate) fn chars_of(s: &str) -> (v: Vec<char>)
    ensures
        v@ == s@,
{
    broadcast use vstd::string::axiom_spec_iter, vstd::string::next_postcondition;
    let mut v: Vec<char> = Vec::new();
    let mut it = s.chars();
    loop
        invariant
            it.obeys_prophetic_iter_laws(),
            it.decrease() is Some,
            v@ + it.remaining() == s@,
        decreases it.decrease()->0,
    {
        let ghost before = it.remaining();
        match it.next() {
            Some(c) => {
                v.push(c);
                assert(v@ + it.remaining() =~= s@) by {
                    assert(before == seq![c] + before.drop_first());
                }
            },
            None => {
                assert(v@ =~= s@);
                return v;
            },
        }
    }
}

/// A string holding exactly the characters `v`.
#[verifier::external_body]
pub(crate) fn string_of(v: &[char]) -> (s: String)
    ensures
        s@ == v@,
{
    v.iter().collect()
}

/// The characters of a string literal, as a `String`.
pub fn owned(s: &str) -> (r: String)
    ensures
        r@ == s@,
{
    s.to_string()
}

/// String equality of two string slices.
pub fn str_eq(a: &str, b: &str) -> (r: bool)
    ensures
        r == (a@ == b@),
{
    a.to_owned() == b.to_owned()
}

/// `a` followed by `b`.
pub fn cat(a: &str, b: &str) -> (r: String)
    ensures
        r@ == a@ + b@,
{
    let mut s = a.to_owned();
    s.append(b);
    s
}

/// `a`, `b` and `c` in a row.
pub fn cat3(a: &str, b: &str, c: &str) -> (r: String)
    ensures
        r@ == a@ + b@ + c@,
{
    let mut s = a.to_owned();
    s.append(b);
    s.append(c);
    s
}

// ---------------------------------------------------------------------------
// Whitespace and trimming
// ---------------------------------------------------------------------------

/// Unicode `White_Space`, the set `char::is_whitespace` (and so `str::trim`,
/// `str::split_whitespace`) uses.
pub open spec fn is_ws(c: char) -> bool {
    let n = c as u32;
    (0x09 <= n && n <= 0x0d) || n == 0x20 || n == 0x85 || n == 0xa0 || n == 0x1680 || (0x2000 <= n
        && n <= 0x200a) || n == 0x2028 || n == 0x2029 || n == 0x202f || n == 0x205f || n == 0x3000
}

/// `char::is_whitespace`.
pub fn is_ws_char(c: char) -> (r: bool)
    ensures
        r == is_ws(c),
{
    let n = c as u32;
    (0x09 <= n && n <= 0x0d) || n == 0x20 || n == 0x85 || n == 0xa0 || n == 0x1680 || (0x2000 <= n
        && n <= 0x200a) || n == 0x2028 || n == 0x2029 || n == 0x202f || n == 0x205f || n == 0x3000
}

/// `s` without its leading whitespace.
pub open spec fn trim_start(s: Seq<char>) -> Seq<char>
    decreases s.len(),
{
    if s.len() > 0 && is_ws(s[0]) {
        trim_start(s.drop_first())
    } else {
        s
    }
}

/// `s` without its trailing whitespace.
pub open spec fn trim_end(s: Seq<char>) -> Seq<char>
    decreases s.len(),
{
    if s.len() > 0 && is_ws(s.last()) {
        trim_end(s.drop_last())
    } else {
        s
    }
}

/// `str::trim`: `s` without leading and trailing whitespace.
pub open spec fn trim(s: Seq<char>) -> Seq<char> {
    trim_end(trim_start(s))
}

/// `str::trim_end` on a string slice.
pub fn trim_end_str(s: &str) -> (r: String)
    ensures
        r@ == trim_end(s@),
{
    let v = chars_of(s);
    let n = v.len();
    let mut j: usize = n;
    assert(v@.subrange(0, n as int) =~= v@);
    while j > 0 && is_ws_char(v[j - 1])
        invariant
            j <= n,
            n == v@.len(),
            v@ == s@,
            trim_end(s@) == trim_end(v@.subrange(0, j as int)),
        decreases j,
    {
        assert(v@.subrange(0, j as int).drop_last() =~= v@.subrange(0, j - 1));
        j = j - 1;
    }
    let t = slice_to_vec(v.as_slice(), 0, j);
    string_of(t.as_slice())
}

/// `str::trim` on a character slice.
pub fn trim_chars(s: &[char]) -> (r: Vec<char>)
    ensures
        r@ == trim(s@),
{
    let n = s.len();
    let mut i: usize = 0;
    assert(s@.subrange(0, n as int) =~= s@);
    while i < n && is_ws_char(s[i])
        invariant
            i <= n,
            n == s@.len(),
            trim_start(s@) == trim_start(s@.subrange(i as int, n as int)),
        decreases n - i,
    {
        assert(s@.subrange(i as int, n as int).drop_first() =~= s@.subrange(i + 1, n as int));
        i = i + 1;
    }
    assert(trim_start(s@) == s@.subrange(i as int, n as int));
    let ghost t = s@.subrange(i as int, n as int);
    let mut j: usize = n;
    assert(t == s@.subrange(i as int, j as int));
    while j > i && is_ws_char(s[j - 1])
        invariant
            i <= j <= n,
            n == s@.len(),
            t == s@.subrange(i as int, n as int),
            trim_end(t) == trim_end(s@.subrange(i as int, j as int)),
        decreases j,
    {
        assert(s@.subrange(i as int, j as int).drop_last() =~= s@.subrange(i as int, j - 1));
        j = j - 1;
    }
    let mut r: Vec<char> = Vec::new();
    let mut k: usize = i;
    while k < j
        invariant
            i <= k <= j <= n,
            n == s@.len(),
            r@ == s@.subrange(i as int, k as int),
        decreases j - k,
    {
        r.push(s[k]);
        assert(r@ =~= s@.subrange(i as int, k + 1));
        k = k + 1;
    }
    r
}

/// `str::trim` on a string.
pub fn trim_str(s: &str) -> (r: String)
    ensures
        r@ == trim(s@),
{
    let v = chars_of(s);
    let t = trim_chars(v.as_slice());
    string_of(t.as_slice())
}

// ---------------------------------------------------------------------------
// Lines
// ---------------------------------------------------------------------------

/// `t` without one trailing `'\r'`.
pub open spec fn strip_cr(t: Seq<char>) -> Seq<char> {
    if t.len() > 0 && t.last() == '\r' {
        t.drop_last()
    } else {
        t
    }
}

/// Left fold behind [`lines_of`]: the completed lines, and the text of the unfinished one.
pub open spec fn lines_fold(s: Seq<char>) -> (Seq<Seq<char>>, Seq<char>)
    decreases s.len(),
{
    if s.len() == 0 {
        (seq![], seq![])
    } else {
        let (done, cur) = lines_fold(s.drop_last());
        if s.last() == '\n' {
            (done.push(strip_cr(cur)), seq![])
        } else {
            (done, cur.push(s.last()))
        }
    }
}

/// `str::lines`: split at `'\n'`, drop a `'\r'` right before each `'\n'`, and no empty line
/// after a final line ending.
pub open spec fn lines_of(s: Seq<char>) -> Seq<Seq<char>> {
    let (done, cur) = lines_fold(s);
    if cur.len() > 0 {
        done.push(cur)
    } else {
        done
    }
}

/// The view of each element of a vector of character vectors.
pub open spec fn views(v: Seq<Vec<char>>) -> Seq<Seq<char>> {
    v.map_values(|l: Vec<char>| l@)
}

/// `str::lines` on a character slice.
pub fn lines(s: &[char]) -> (r: Vec<Vec<char>>)
    ensures
        views(r@) == lines_of(s@),
{
    let n = s.len();
    let mut done: Vec<Vec<char>> = Vec::new();
    let mut cur: Vec<char> = Vec::new();
    let mut i: usize = 0;
    while i < n
        invariant
            i <= n,
            n == s@.len(),
            (views(done@), cur@) == lines_fold(s@.take(i as int)),
        decreases n - i,
    {
        let c = s[i];
        assert(s@.take(i + 1).drop_last() =~= s@.take(i as int));
        if c == '\n' {
            let mut line = cur;
            let len = line.len();
            if len > 0 && line[len - 1] == '\r' {
                line.pop();
            }
            done.push(line);
            cur = Vec::new();
            assert(views(done@) =~= lines_fold(s@.take(i + 1)).0);
        } else {
            cur.push(c);
        }
        i = i + 1;
    }
    assert(s@.take(n as int) =~= s@);
    if cur.len() > 0 {
        done.push(cur);
        assert(views(done@) =~= lines_of(s@));
    }
    done
}

/// The present values of a sequence of options, in order (`Iterator::flatten`).
pub open spec fn somes<T>(s: Seq<Option<T>>) -> Seq<T>
    decreases s.len(),
{
    if s.len() == 0 {
        seq![]
    } else {
        let r = somes(s.drop_last());
        match s.last() {
            Some(x) => r.push(x),
            None => r,
        }
    }
}

/// `somes` of a one-longer prefix adds the new element when it is present.
pub proof fn lemma_somes_step<T>(s: Seq<Option<T>>, i: int)
    requires
        0 <= i < s.len(),
    ensures
        somes(s.take(i + 1)) == match s[i] {
            Some(x) => somes(s.take(i)).push(x),
            None => somes(s.take(i)),
        },
{
    assert(s.take(i + 1).drop_last() =~= s.take(i));
}

// ---------------------------------------------------------------------------
// Whitespace-separated tokens
// ---------------------------------------------------------------------------

/// Left fold behind [`tokens_of`]: the completed tokens, and the unfinished one.
pub open spec fn tokens_fold(s: Seq<char>) -> (Seq<Seq<char>>, Seq<char>)
    decreases s.len(),
{
    if s.len() == 0 {
        (seq![], seq![])
    } else {
        let (done, cur) = tokens_fold(s.drop_last());
        if is_ws(s.last()) {
            if cur.len() > 0 {
                (done.push(cur), seq![])
            } else {
                (done, cur)
            }
        } else {
            (done, cur.push(s.last()))
        }
    }
}

/// `str::split_whitespace`: the maximal runs of non-whitespace characters, in order.
pub open spec fn tokens_of(s: Seq<char>) -> Seq<Seq<char>> {
    let (done, cur) = tokens_fold(s);
    if cur.len() > 0 {
        done.push(cur)
    } else {
        done
    }
}

/// `str::split_whitespace` on a character slice.
pub fn tokens(s: &[char]) -> (r: Vec<Vec<char>>)
    ensures
        views(r@) == tokens_of(s@),
{
    let n = s.len();
    let mut done: Vec<Vec<char>> = Vec::new();
    let mut cur: Vec<char> = Vec::new();
    let mut i: usize = 0;
    while i < n
        invariant
            i <= n,
            n == s@.len(),
            (views(done@), cur@) == tokens_fold(s@.take(i as int)),
        decreases n - i,
    {
        let c = s[i];
        assert(s@.take(i + 1).drop_last() =~= s@.take(i as int));
        if is_ws_char(c) {
            if cur.len() > 0 {
                done.push(cur);
                cur = Vec::new();
                assert(views(done@) =~= tokens_fold(s@.take(i + 1)).0);
            }
        } else {
            cur.push(c);
        }
        i = i + 1;
    }
    assert(s@.take(n as int) =~= s@);
    if cur.len() > 0 {
        done.push(cur);
        assert(views(done@) =~= tokens_of(s@));
    }
    done
}

// ---------------------------------------------------------------------------
// Searching
// ---------------------------------------------------------------------------

/// `i` is the first position of `c` in `s`.
pub open spec fn is_first_char(s: Seq<char>, c: char, i: int) -> bool {
    0 <= i < s.len() && s[i] == c && forall|k: int| 0 <= k < i ==> s[k] != c
}

/// `str::find(char)`: the first position of `c` in `s`.
pub open spec fn find_char(s: Seq<char>, c: char) -> Option<int> {
    if exists|i: int| is_first_char(s, c, i) {
        Some(choose|i: int| is_first_char(s, c, i))
    } else {
        None
    }
}

/// `str::split_once(char)`: the text before and after the first `c`.
pub open spec fn split_once_char(s: Seq<char>, c: char) -> Option<(Seq<char>, Seq<char>)> {
    match find_char(s, c) {
        Some(i) => Some((s.take(i), s.skip(i + 1))),
        None => None,
    }
}

/// The first position of `c` in `s`, if any.
pub fn find_char_in(s: &[char], c: char) -> (r: Option<usize>)
    ensures
        match r {
            Some(i) => i < s@.len() && find_char(s@, c) == Some(i as int),
            None => find_char(s@, c) is None,
        },
{
    let n = s.len();
    let mut i: usize = 0;
    while i < n
        invariant
            i <= n,
            n == s@.len(),
            forall|k: int| 0 <= k < i ==> s@[k] != c,
        decreases n - i,
    {
        if s[i] == c {
            assert(is_first_char(s@, c, i as int));
            let ghost j = choose|j: int| is_first_char(s@, c, j);
            assert(j == i) by {
                if j < i {
                    assert(s@[j] != c);
                } else if j > i {
                    assert(s@[i as int] != c);
                }
            }
            return Some(i);
        }
        i = i + 1;
    }
    assert(!exists|j: int| is_first_char(s@, c, j)) by {
        assert forall|j: int| !is_first_char(s@, c, j) by {
            if 0 <= j < n {
                assert(s@[j] != c);
            }
        }
    }
    None
}

/// Copy of `s[from..to]`.
pub fn slice_to_vec(s: &[char], from: usize, to: usize) -> (r: Vec<char>)
    requires
        from <= to <= s@.len(),
    ensures
        r@ == s@.subrange(from as int, to as int),
{
    let mut r: Vec<char> = Vec::new();
    let mut k: usize = from;
    while k < to
        invariant
            from <= k <= to <= s@.len(),
            r@ == s@.subrange(from as int, k as int),
        decreases to - k,
    {
        r.push(s[k]);
        assert(r@ =~= s@.subrange(from as int, k + 1));
        k = k + 1;
    }
    r
}

/// `str::split_once(char)` on a character slice.
pub fn split_once_at(s: &[char], c: char) -> (r: Option<(Vec<char>, Vec<char>)>)
    ensures
        match r {
            Some((a, b)) => split_once_char(s@, c) == Some((a@, b@)),
            None => split_once_char(s@, c) is None,
        },
{
    let n = s.len();
    match find_char_in(s, c) {
        Some(i) => {
            let a = slice_to_vec(s, 0, i);
            let b = slice_to_vec(s, i + 1, n);
            assert(a@ =~= s@.take(i as int));
            assert(b@ =~= s@.skip(i + 1));
            Some((a, b))
        },
        None => None,
    }
}

/// `p` occurs in `s` at position `i`.
pub open spec fn occurs_at(s: Seq<char>, p: Seq<char>, i: int) -> bool {
    0 <= i && i + p.len() <= s.len() && s.subrange(i, i + p.len()) == p
}

/// `i` is the first position where `p` occurs in `s`.
pub open spec fn is_first_occurrence(s: Seq<char>, p: Seq<char>, i: int) -> bool {
    occurs_at(s, p, i) && forall|k: int| 0 <= k < i ==> !occurs_at(s, p, k)
}

/// `str::find(&str)`: the first position where `p` occurs in `s`.
pub open spec fn find_str(s: Seq<char>, p: Seq<char>) -> Option<int> {
    if exists|i: int| is_first_occurrence(s, p, i) {
        Some(choose|i: int| is_first_occurrence(s, p, i))
    } else {
        None
    }
}

/// `str::contains(&str)`.
pub open spec fn contains_str(s: Seq<char>, p: Seq<char>) -> bool {
    exists|i: int| occurs_at(s, p, i)
}

/// `str::split_once(&str)`: the text before and after the first occurrence of `p`.
pub open spec fn split_once_str(s: Seq<char>, p: Seq<char>) -> Option<(Seq<char>, Seq<char>)> {
    match find_str(s, p) {
        Some(i) => Some((s.take(i), s.skip(i + p.len()))),
        None => None,
    }
}

/// Whether `p` occurs in `s` at `i` (with `i + p.len() <= s.len()`).
pub fn occurs_at_exec(s: &[char], p: &[char], i: usize) -> (r: bool)
    requires
        i + p@.len() <= s@.len(),
    ensures
        r == occurs_at(s@, p@, i as int),
{
    let m = p.len();
    let n = s.len();
    let mut k: usize = 0;
    while k < m
        invariant
            k <= m,
            m == p@.len(),
            n == s@.len(),
            i + m <= n,
            forall|t: int| 0 <= t < k ==> s@[i + t] == p@[t],
        decreases m - k,
    {
        if s[i + k] != p[k] {
            assert(s@.subrange(i as int, i + m)[k as int] != p@[k as int]);
            return false;
        }
        k = k + 1;
    }
    assert(s@.subrange(i as int, i + m) =~= p@);
    true
}

/// The first position where `p` occurs in `s`, if any.
pub fn find_str_in(s: &[char], p: &[char]) -> (r: Option<usize>)
    ensures
        match r {
            Some(i) => find_str(s@, p@) == Some(i as int),
            None => find_str(s@, p@) is None && !contains_str(s@, p@),
        },
{
    let n = s.len();
    let m = p.len();
    if m > n {
        assert forall|j: int| !occurs_at(s@, p@, j) by {}
        assert(!exists|j: int| is_first_occurrence(s@, p@, j));
        return None;
    }
    if m == 0 {
        assert(s@.subrange(0, 0) =~= p@);
        assert(is_first_occurrence(s@, p@, 0));
        let ghost j = choose|j: int| is_first_occurrence(s@, p@, j);
        assert(j == 0) by {
            if j > 0 {
                assert(!occurs_at(s@, p@, 0));
            }
        }
        return Some(0);
    }
    let last = n - m;
    let mut i: usize = 0;
    while i <= last
        invariant
            1 <= m <= n,
            last == n - m,
            n == s@.len(),
            m == p@.len(),
            i <= last + 1,
            forall|k: int| 0 <= k < i ==> !occurs_at(s@, p@, k),
        decreases last + 1 - i,
    {
        if occurs_at_exec(s, p, i) {
            assert(is_first_occurrence(s@, p@, i as int));
            let ghost j = choose|j: int| is_first_occurrence(s@, p@, j);
            assert(j == i) by {
                if j < i {
                    assert(!occurs_at(s@, p@, j));
                } else if j > i {
                    assert(!occurs_at(s@, p@, i as int));
                }
            }
            return Some(i);
        }
        i = i + 1;
    }
    assert forall|j: int| !occurs_at(s@, p@, j) by {
        if 0 <= j < i {
        }
    }
    assert(!exists|j: int| is_first_occurrence(s@, p@, j));
    None
}

/// `str::contains(&str)` on character slices.
pub fn contains_chars(s: &[char], p: &[char]) -> (r: bool)
    ensures
        r == contains_str(s@, p@),
{
    match find_str_in(s, p) {
        Some(i) => {
            assert(occurs_at(s@, p@, i as int));
            true
        },
        None => false,
    }
}

/// `str::split_once(&str)` on character slices.
pub fn split_once_str_at(s: &[char], p: &[char]) -> (r: Option<(Vec<char>, Vec<char>)>)
    ensures
        match r {
            Some((a, b)) => split_once_str(s@, p@) == Some((a@, b@)),
            None => split_once_str(s@, p@) is None,
        },
{
    match find_str_in(s, p) {
        Some(i) => {
            assert(occurs_at(s@, p@, i as int));
            assert(i + p.len() <= s.len());
            let a = slice_to_vec(s, 0, i);
            let b = slice_to_vec(s, i + p.len(), s.len());
            assert(a@ =~= s@.take(i as int));
            assert(b@ =~= s@.skip(i + p@.len()));
            Some((a, b))
        },
        None => None,
    }
}

/// `str::starts_with(&str)`.
pub open spec fn starts_with(s: Seq<char>, p: Seq<char>) -> bool {
    p.len() <= s.len() && s.take(p.len() as int) == p
}

/// `str::ends_with(&str)`.
pub open spec fn ends_with(s: Seq<char>, p: Seq<char>) -> bool {
    p.len() <= s.len() && s.skip(s.len() - p.len()) == p
}

/// `str::starts_with(&str)` on character slices.
pub fn starts_with_chars(s: &[char], p: &[char]) -> (r: bool)
    ensures
        r == starts_with(s@, p@),
{
    if p.len() > s.len() {
        return false;
    }
    let r = occurs_at_exec(s, p, 0);
    assert(s@.subrange(0, p@.len() as int) =~= s@.take(p@.len() as int));
    r
}

/// `str::ends_with(&str)` on character slices.
pub fn ends_with_chars(s: &[char], p: &[char]) -> (r: bool)
    ensures
        r == ends_with(s@, p@),
{
    if p.len() > s.len() {
        return false;
    }
    let start = s.len() - p.len();
    let r = occurs_at_exec(s, p, start);
    assert(s@.subrange(start as int, s@.len() as int) =~= s@.skip(start as int));
    r
}

/// `str::strip_prefix(&str)` on character slices.
pub fn strip_prefix_chars(s: &[char], p: &[char]) -> (r: Option<Vec<char>>)
    ensures
        match r {
            Some(t) => starts_with(s@, p@) && t@ == s@.skip(p@.len() as int),
            None => !starts_with(s@, p@),
        },
{
    if starts_with_chars(s, p) {
        let t = slice_to_vec(s, p.len(), s.len());
        assert(t@ =~= s@.skip(p@.len() as int));
        Some(t)
    } else {
        None
    }
}

/// `str::strip_suffix(&str)` on character slices.
pub fn strip_suffix_chars(s: &[char], p: &[char]) -> (r: Option<Vec<char>>)
    ensures
        match r {
            Some(t) => ends_with(s@, p@) && t@ == s@.take(s@.len() - p@.len()),
            None => !ends_with(s@, p@),
        },
{
    if ends_with_chars(s, p) {
        let t = slice_to_vec(s, 0, s.len() - p.len());
        assert(t@ =~= s@.take(s@.len() - p@.len()));
        Some(t)
    } else {
        None
    }
}

/// Character-wise equality of two slices.
pub fn chars_eq(a: &[char], b: &[char]) -> (r: bool)
    ensures
        r == (a@ == b@),
{
    if a.len() != b.len() {
        return false;
    }
    let r = occurs_at_exec(a, b, 0);
    assert(a@.subrange(0, b@.len() as int) =~= a@);
    r
}

/// `char::to_ascii_lowercase`.
pub open spec fn ascii_lower(c: char) -> char {
    if 'A' <= c && c <= 'Z' {
        ((c as u32) + 32) as char
    } else {
        c
    }
}

/// `str::eq_ignore_ascii_case`.
pub open spec fn eq_ignore_ascii_case(a: Seq<char>, b: Seq<char>) -> bool {
    a.len() == b.len() && forall|i: int| 0 <= i < a.len() ==> ascii_lower(a[i]) == ascii_lower(b[i])
}

/// `char::to_ascii_lowercase`.
pub fn ascii_lower_char(c: char) -> (r: char)
    ensures
        r == ascii_lower(c),
{
    if 'A' <= c && c <= 'Z' {
        let n = (c as u8) + 32;
        n as char
    } else {
        c
    }
}

/// `str::eq_ignore_ascii_case` on character slices.
pub fn eq_ignore_ascii_case_chars(a: &[char], b: &[char]) -> (r: bool)
    ensures
        r == eq_ignore_ascii_case(a@, b@),
{
    if a.len() != b.len() {
        return false;
    }
    let n = a.len();
    let mut i: usize = 0;
    while i < n
        invariant
            i <= n,
            n == a@.len(),
            n == b@.len(),
            forall|k: int| 0 <= k < i ==> ascii_lower(a@[k]) == ascii_lower(b@[k]),
        decreases n - i,
    {
        if ascii_lower_char(a[i]) != ascii_lower_char(b[i]) {
            return false;
        }
        i = i + 1;
    }
    true
}

// ---------------------------------------------------------------------------
// Unsigned integers in decimal and hexadecimal
// ---------------------------------------------------------------------------

/// An ASCII decimal digit.
pub open spec fn is_digit(c: char) -> bool {
    '0' <= c && c <= '9'
}

/// An ASCII hexadecimal digit, either case.
pub open spec fn is_hex_digit(c: char) -> bool {
    is_digit(c) || ('a' <= c && c <= 'f') || ('A' <= c && c <= 'F')
}

/// The value of a digit in base 10 or 16.
pub open spec fn digit_value(c: char) -> int {
    if is_digit(c) {
        (c as u32) - 48
    } else if 'a' <= c && c <= 'f' {
        (c as u32) - 87
    } else {
        (c as u32) - 55
    }
}

/// A digit of `base` (16, else 10).
pub open spec fn is_base_digit(c: char, base: int) -> bool {
    if base == 16 {
        is_hex_digit(c)
    } else {
        is_digit(c)
    }
}

/// Whether `c` is a digit of `base`.
pub fn is_base_digit_exec(c: char, base: u32) -> (r: bool)
    ensures
        r == is_base_digit(c, base as int),
{
    if base == 16 {
        ('0' <= c && c <= '9') || ('a' <= c && c <= 'f') || ('A' <= c && c <= 'F')
    } else {
        '0' <= c && c <= '9'
    }
}

/// `s` without one leading `'+'`: the digits `from_str` / `from_str_radix` read for an
/// unsigned integer.
pub open spec fn unsigned_digits(s: Seq<char>) -> Seq<char> {
    if s.len() > 0 && s[0] == '+' {
        s.drop_first()
    } else {
        s
    }
}

/// The value of a digit character.
pub fn digit_value_exec(c: char) -> (r: u32)
    requires
        is_hex_digit(c),
    ensures
        r == digit_value(c),
        r < 16,
        is_digit(c) ==> r < 10,
{
    let n = c as u32;
    if '0' <= c && c <= '9' {
        n - 48
    } else if 'a' <= c && c <= 'f' {
        n - 87
    } else {
        n - 55
    }
}

/// Why `uN::from_str_radix` rejected its input (`core::num::IntErrorKind`).
#[derive(Debug, Clone, Copy, PartialEq, Eq)]
pub enum IntErrorKind {
    /// The input was empty.
    Empty,
    /// A character is not a digit of the base (or the input is a lone sign).
    InvalidDigit,
    /// The value does not fit the target type.
    PosOverflow,
}

/// The left-to-right scan `from_str_radix` makes over the digits `t`: the value read so far and
/// the first failure, if any. At each position a bad digit is reported before an overflow.
pub open spec fn scan_digits(t: Seq<char>, base: int, max: int) -> (int, Option<IntErrorKind>)
    decreases t.len(),
{
    if t.len() == 0 {
        (0, None)
    } else {
        let (v, e) = scan_digits(t.drop_last(), base, max);
        if e is Some {
            (v, e)
        } else if !is_base_digit(t.last(), base) {
            (v, Some(IntErrorKind::InvalidDigit))
        } else if v * base + digit_value(t.last()) > max {
            (v, Some(IntErrorKind::PosOverflow))
        } else {
            (v * base + digit_value(t.last()), None)
        }
    }
}

/// The error `uN::from_str_radix(s, base)` returns (with `max == uN::MAX`), if any.
pub open spec fn int_error(s: Seq<char>, base: int, max: int) -> Option<IntErrorKind> {
    if s.len() == 0 {
        Some(IntErrorKind::Empty)
    } else if s.len() == 1 && (s[0] == '+' || s[0] == '-') {
        Some(IntErrorKind::InvalidDigit)
    } else {
        scan_digits(unsigned_digits(s), base, max).1
    }
}

/// `uN::from_str_radix(s, base)` with `max == uN::MAX`: the value, or `None` on any error.
pub open spec fn parse_unsigned(s: Seq<char>, base: int, max: int) -> Option<int> {
    if int_error(s, base, max) is None {
        Some(scan_digits(unsigned_digits(s), base, max).0)
    } else {
        None
    }
}

/// The value the scan reads stays within `0..=max`.
pub proof fn lemma_scan_digits_bound(t: Seq<char>, base: int, max: int)
    requires
        base == 10 || base == 16,
        max >= 0,
    ensures
        0 <= scan_digits(t, base, max).0 <= max,
    decreases t.len(),
{
    if t.len() > 0 {
        lemma_scan_digits_bound(t.drop_last(), base, max);
        let v = scan_digits(t.drop_last(), base, max).0;
        assert(v * base >= 0) by (nonlinear_arith)
            requires
                v >= 0,
                base >= 0,
        ;
    }
}

/// `uN::from_str_radix(s, base)` for `max == uN::MAX` (base 10 or 16), with the standard
/// library's error kinds.
pub fn parse_unsigned_result(s: &[char], base: u32, max: u64) -> (r: Result<u64, IntErrorKind>)
    requires
        base == 10 || base == 16,
    ensures
        match r {
            Ok(v) => int_error(s@, base as int, max as int) is None && parse_unsigned(
                s@,
                base as int,
                max as int,
            ) == Some(v as int),
            Err(k) => int_error(s@, base as int, max as int) == Some(k) && parse_unsigned(
                s@,
                base as int,
                max as int,
            ) is None,
        },
{
    let n = s.len();
    if n == 0 {
        return Err(IntErrorKind::Empty);
    }
    if n == 1 && (s[0] == '+' || s[0] == '-') {
        return Err(IntErrorKind::InvalidDigit);
    }
    let start: usize = if s[0] == '+' {
        1
    } else {
        0
    };
    let ghost t = unsigned_digits(s@);
    assert(t =~= s@.skip(start as int));
    let mut v: u64 = 0;
    let mut i: usize = start;
    assert(t.take(0) =~= Seq::<char>::empty());
    while i < n
        invariant
            start <= i <= n,
            n == s@.len(),
            t == s@.skip(start as int),
            t == unsigned_digits(s@),
            base == 10 || base == 16,
            scan_digits(t.take(i - start), base as int, max as int) == (v as int, None::<
                IntErrorKind,
            >),
            v <= max,
        decreases n - i,
    {
        let c = s[i];
        assert(t.take(i - start + 1).drop_last() =~= t.take(i - start));
        assert(t.take(i - start + 1).last() == c);
        if !is_base_digit_exec(c, base) {
            proof {
                lemma_scan_failure_sticks(t, base as int, max as int, i - start + 1);
            }
            return Err(IntErrorKind::InvalidDigit);
        }
        let d = digit_value_exec(c);
        assert((v as u128) * (base as u128) <= 16 * (u64::MAX as u128)) by (nonlinear_arith)
            requires
                v <= u64::MAX,
                base <= 16,
        ;
        let next: u128 = (v as u128) * (base as u128) + (d as u128);
        if next > max as u128 {
            proof {
                lemma_scan_failure_sticks(t, base as int, max as int, i - start + 1);
            }
            return Err(IntErrorKind::PosOverflow);
        }
        v = next as u64;
        i = i + 1;
    }
    assert(t.take(n - start) =~= t);
    Ok(v)
}

/// Once the scan has failed on a prefix, it reports that same failure for the whole input.
pub proof fn lemma_scan_failure_sticks(t: Seq<char>, base: int, max: int, i: int)
    requires
        0 <= i <= t.len(),
        scan_digits(t.take(i), base, max).1 is Some,
    ensures
        scan_digits(t, base, max).1 == scan_digits(t.take(i), base, max).1,
    decreases t.len() - i,
{
    if i < t.len() {
        assert(t.take(i + 1).drop_last() =~= t.take(i));
        lemma_scan_failure_sticks(t, base, max, i + 1);
    } else {
        assert(t.take(i) =~= t);
    }
}

/// `uN::from_str_radix(s, base)` for `max == uN::MAX` (base 10 or 16).
pub fn parse_unsigned_chars(s: &[char], base: u32, max: u64) -> (r: Option<u64>)
    requires
        base == 10 || base == 16,
    ensures
        match r {
            Some(v) => parse_unsigned(s@, base as int, max as int) == Some(v as int),
            None => parse_unsigned(s@, base as int, max as int) is None,
        },
{
    match parse_unsigned_result(s, base, max) {
        Ok(v) => Some(v),
        Err(_) => None,
    }
}

/// The standard library's message for each integer-parse failure (`ParseIntError`'s `Display`).
pub open spec fn int_error_message(k: IntErrorKind) -> Seq<char> {
    match k {
        IntErrorKind::Empty => "cannot parse integer from empty string"@,
        IntErrorKind::InvalidDigit => "invalid digit found in string"@,
        IntErrorKind::PosOverflow => "number too large to fit in target type"@,
    }
}

/// `ParseIntError`'s `Display` text.
pub fn int_error_text(k: IntErrorKind) -> (r: String)
    ensures
        r@ == int_error_message(k),
{
    match k {
        IntErrorKind::Empty => owned("cannot parse integer from empty string"),
        IntErrorKind::InvalidDigit => owned("invalid digit found in string"),
        IntErrorKind::PosOverflow => owned("number too large to fit in target type"),
    }
}

/// The ASCII digit for `d` (`0 <= d < 10`).
pub open spec fn digit_char(d: int) -> char {
    seq!['0', '1', '2', '3', '4', '5', '6', '7', '8', '9'][d]
}

/// The ASCII digit for `d`.
pub fn digit_char_exec(d: u64) -> (c: char)
    requires
        d < 10,
    ensures
        c == digit_char(d as int),
{
    match d {
        0 => '0',
        1 => '1',
        2 => '2',
        3 => '3',
        4 => '4',
        5 => '5',
        6 => '6',
        7 => '7',
        8 => '8',
        _ => '9',
    }
}

/// `n` in decimal, as `u64`'s `Display` writes it.
pub open spec fn decimal(n: nat) -> Seq<char>
    decreases n,
{
    if n < 10 {
        seq![digit_char(n as int)]
    } else {
        decimal(n / 10).push(digit_char((n % 10) as int))
    }
}

/// `i` in decimal, as a signed integer's `Display` writes it.
pub open spec fn signed_decimal(i: int) -> Seq<char> {
    if i < 0 {
        seq!['-'] + decimal((-i) as nat)
    } else {
        decimal(i as nat)
    }
}

/// The decimal digits of `n`.
pub fn decimal_chars(n: u64) -> (r: Vec<char>)
    ensures
        r@ == decimal(n as nat),
    decreases n,
{
    let c = digit_char_exec(n % 10);
    if n < 10 {
        let mut v: Vec<char> = Vec::new();
        v.push(c);
        assert(v@ =~= decimal(n as nat));
        v
    } else {
        let mut v = decimal_chars(n / 10);
        v.push(c);
        v
    }
}

/// `n.to_string()` for an unsigned integer.
pub fn u64_to_string(n: u64) -> (r: String)
    ensures
        r@ == decimal(n as nat),
{
    let v = decimal_chars(n);
    string_of(v.as_slice())
}

/// `i.to_string()` for an `i32`.
pub fn i32_to_string(i: i32) -> (r: String)
    ensures
        r@ == signed_decimal(i as int),
{
    if i < 0 {
        let m: u64 = (0i64 - (i as i64)) as u64;
        let mut v: Vec<char> = Vec::new();
        v.push('-');
        let mut d = decimal_chars(m);
        v.append(&mut d);
        assert(v@ =~= signed_decimal(i as int));
        string_of(v.as_slice())
    } else {
        u64_to_string(i as u64)
    }
}

/// The decimal spelling of `n` scans back to `n` without error, for any bound `max >= n`.
pub proof fn lemma_scan_decimal(n: nat, max: int)
    requires
        n <= max,
    ensures
        scan_digits(decimal(n), 10, max) == (n as int, None::<IntErrorKind>),
        decimal(n).len() > 0,
        decimal(n)[0] != '+' && decimal(n)[0] != '-',
    decreases n,
{
    let digits = seq!['0', '1', '2', '3', '4', '5', '6', '7', '8', '9'];
    assert(forall|d: int|
        0 <= d < 10 ==> is_digit(#[trigger] digits[d]) && digit_value(digits[d]) == d);
    if n >= 10 {
        lemma_scan_decimal(n / 10, max);
        let s = decimal(n);
        assert(s.drop_last() =~= decimal(n / 10));
        assert(s[0] == decimal(n / 10)[0]);
        assert(n == (n / 10) * 10 + n % 10);
        assert(s.last() == digits[(n % 10) as int]);
    } else {
        assert(decimal(n).drop_last() =~= Seq::<char>::empty());
        assert(scan_digits(Seq::<char>::empty(), 10, max) == (0int, None::<IntErrorKind>));
        assert(decimal(n).last() == digits[n as int]);
    }
}

/// Every character of a decimal spelling is a digit.
pub proof fn lemma_decimal_digits(n: nat)
    ensures
        forall|i: int| 0 <= i < decimal(n).len() ==> is_digit(#[trigger] decimal(n)[i]),
    decreases n,
{
    let digits = seq!['0', '1', '2', '3', '4', '5', '6', '7', '8', '9'];
    assert(forall|d: int| 0 <= d < 10 ==> is_digit(#[trigger] digits[d]));
    if n >= 10 {
        lemma_decimal_digits(n / 10);
        assert(decimal(n) == decimal(n / 10).push(digits[(n % 10) as int]));
    } else {
        assert(decimal(n) == seq![digits[n as int]]);
    }
}

/// Decimal formatting and `from_str` parsing of unsigned integers are inverse.
pub proof fn lemma_parse_decimal(n: nat, max: int)
    requires
        n <= max,
    ensures
        parse_unsigned(decimal(n), 10, max) == Some(n as int),
{
    lemma_scan_decimal(n, max);
    let s = decimal(n);
    assert(unsigned_digits(s) == s);
    if s.len() == 1 {
        assert(s[0] != '+' && s[0] != '-');
    }
}

// ---------------------------------------------------------------------------
// Splitting at every occurrence of a character
// ---------------------------------------------------------------------------

/// `str::split(char)`: the pieces between occurrences of `c` (always at least one piece).
pub open spec fn split_char(s: Seq<char>, c: char) -> Seq<Seq<char>>
    decreases s.len(),
{
    match find_char(s, c) {
        Some(i) => {
            if 0 <= i < s.len() {
                seq![s.take(i)] + split_char(s.skip(i + 1), c)
            } else {
                seq![s]
            }
        },
        None => seq![s],
    }
}

/// Pieces joined back together with `c` between each two.
pub open spec fn joined_by(parts: Seq<Seq<char>>, c: char) -> Seq<char>
    decreases parts.len(),
{
    if parts.len() == 0 {
        seq![]
    } else if parts.len() == 1 {
        parts[0]
    } else {
        parts[0] + seq![c] + joined_by(parts.drop_first(), c)
    }
}

/// Splitting at `c` gives at least one piece, and joining the pieces with `c` gives the text
/// back.
pub proof fn lemma_split_join(s: Seq<char>, c: char)
    ensures
        split_char(s, c).len() >= 1,
        joined_by(split_char(s, c), c) == s,
    decreases s.len(),
{
    match find_char(s, c) {
        Some(i) => {
            if 0 <= i < s.len() {
                let rest = s.skip(i + 1);
                lemma_split_join(rest, c);
                let parts = split_char(s, c);
                assert(parts.drop_first() =~= split_char(rest, c));
                assert(is_first_char(s, c, i));
                assert(s =~= s.take(i) + seq![c] + rest);
            }
        },
        None => {},
    }
}

/// `str::split(char)` on a character slice.
pub fn split_at_char(s: &[char], c: char) -> (r: Vec<Vec<char>>)
    ensures
        views(r@) == split_char(s@, c),
{
    let mut done: Vec<Vec<char>> = Vec::new();
    let mut rest: Vec<char> = slice_to_vec(s, 0, s.len());
    assert(rest@ =~= s@);
    loop
        invariant
            split_char(s@, c) == views(done@) + split_char(rest@, c),
        decreases rest@.len(),
    {
        match split_once_at(rest.as_slice(), c) {
            Some((a, b)) => {
                let ghost i = find_char(rest@, c)->0;
                assert(is_first_char(rest@, c, i));
                assert(views(done@.push(a)) =~= views(done@).push(a@));
                assert(split_char(rest@, c) == seq![a@] + split_char(b@, c));
                done.push(a);
                assert(split_char(s@, c) =~= views(done@) + split_char(b@, c));
                rest = b;
            },
            None => {
                assert(views(done@.push(rest)) =~= views(done@).push(rest@));
                done.push(rest);
                assert(split_char(s@, c) =~= views(done@));
                return done;
            },
        }
    }
}

/// A sequence with no `c` is its own single piece.
pub proof fn lemma_split_no_sep(s: Seq<char>, c: char)
    requires
        !s.contains(c),
    ensures
        split_char(s, c) == seq![s],
{
    assert(!exists|i: int| is_first_char(s, c, i)) by {
        assert forall|i: int| !is_first_char(s, c, i) by {
            if 0 <= i < s.len() && s[i] == c {
                assert(s.contains(c));
            }
        }
    }
}

/// Splitting `a + [c] + b`, where `a` has no `c`, yields `a` followed by the pieces of `b`.
pub proof fn lemma_split_first_piece(a: Seq<char>, c: char, b: Seq<char>)
    requires
        !a.contains(c),
    ensures
        split_char(a + seq![c] + b, c) == seq![a] + split_char(b, c),
{
    let s = a + seq![c] + b;
    let i = a.len() as int;
    assert(s[i] == c);
    assert forall|k: int| 0 <= k < i implies s[k] != c by {
        assert(s[k] == a[k]);
        if a[k] == c {
            assert(a.contains(c));
        }
    }
    assert(is_first_char(s, c, i));
    let j = choose|j: int| is_first_char(s, c, j);
    assert(j == i) by {
        if j < i {
            assert(s[j] != c);
        } else if j > i {
            assert(s[i] != c);
        }
    }
    assert(s.take(i) =~= a);
    assert(s.skip(i + 1) =~= b);
}

} // verus!
