//! Saved recipes: stored by name (saving a name again replaces its description and body but
//! keeps when it was first saved), listed newest first, read and deleted by name.

use vstd::prelude::*;

use crate::ipc::dto::ProfileSummary;
use crate::ipc::listing::{
    is_index_map, lemma_index_map_insert, lemma_lex_asym, lemma_lex_total, lemma_lex_trans, lex_less,
    lex_lt,
};
use crate::text::str_eq;

verus! {

/// One saved recipe.
#[derive(Debug, Clone, PartialEq, Eq)]
pub struct SavedProfile {
    /// Its name (unique in the store).
    pub name: String,
    /// Its description.
    pub description: String,
    /// The recipe's JSON text.
    pub body: String,
    /// When it was first saved (RFC 3339, so text order is time order).
    pub created_at: String,
}

/// The contents of a [`SavedProfile`].
pub struct SavedProfileView {
    pub name: Seq<char>,
    pub description: Seq<char>,
    pub body: Seq<char>,
    pub created_at: Seq<char>,
}

impl View for SavedProfile {
    type V = SavedProfileView;

    open spec fn view(&self) -> SavedProfileView {
        SavedProfileView {
            name: self.name@,
            description: self.description@,
            body: self.body@,
            created_at: self.created_at@,
        }
    }
}

/// The contents of a store.
pub open spec fn saved_views(v: Seq<SavedProfile>) -> Seq<SavedProfileView> {
    v.map_values(|p: SavedProfile| p@)
}

/// The first saved recipe named `name`.
pub open spec fn first_named(s: Seq<SavedProfileView>, name: Seq<char>) -> Option<int>
    decreases s.len(),
{
    if s.len() == 0 {
        None
    } else {
        match first_named(s.drop_last(), name) {
            Some(i) => Some(i),
            None => if s.last().name == name {
                Some(s.len() - 1)
            } else {
                None
            },
        }
    }
}

/// What `first_named` finds: the lowest position holding the name, or nothing when no position
/// holds it.
proof fn lemma_first_named_char(s: Seq<SavedProfileView>, name: Seq<char>)
    ensures
        match first_named(s, name) {
            Some(i) => 0 <= i < s.len() && s[i].name == name && forall|j: int|
                0 <= j < i ==> (#[trigger] s[j]).name != name,
            None => forall|j: int| 0 <= j < s.len() ==> (#[trigger] s[j]).name != name,
        },
    decreases s.len(),
{
    if s.len() > 0 {
        let t = s.drop_last();
        lemma_first_named_char(t, name);
        assert forall|j: int| 0 <= j < t.len() implies t[j] == s[j] by {}
    }
}

/// Position `i` is what `first_named` finds when it holds the name and no earlier one does.
proof fn lemma_first_named_is(s: Seq<SavedProfileView>, name: Seq<char>, i: int)
    requires
        0 <= i < s.len(),
        s[i].name == name,
        forall|j: int| 0 <= j < i ==> (#[trigger] s[j]).name != name,
    ensures
        first_named(s, name) == Some(i),
{
    lemma_first_named_char(s, name);
    match first_named(s, name) {
        Some(k) => {
            if k < i {
                assert(s[k].name != name);
            } else if k > i {
                assert(s[i].name != name);
            }
        },
        None => {
            assert(s[i].name != name);
        },
    }
}

/// The first position in `store` named `name`.
fn find_named(store: &[SavedProfile], name: &str) -> (r: Option<usize>)
    ensures
        match r {
            Some(i) => first_named(saved_views(store@), name@) == Some(i as int) && i < store@.len(),
            None => first_named(saved_views(store@), name@) is None,
        },
{
    let ghost sv = saved_views(store@);
    let n = store.len();
    let mut i: usize = 0;
    assert(sv.take(0) =~= Seq::<SavedProfileView>::empty());
    while i < n
        invariant
            i <= n,
            n == store@.len(),
            sv == saved_views(store@),
            first_named(sv.take(i as int), name@) is None,
        decreases n - i,
    {
        assert(sv.take(i + 1).drop_last() =~= sv.take(i as int));
        if str_eq(store[i].name.as_str(), name) {
            assert(sv.take(i + 1).last() == sv[i as int]);
            assert(first_named(sv.take(i + 1), name@) == Some(i as int));
            proof {
                lemma_first_named_prefix(sv, name@, i + 1);
            }
            return Some(i);
        }
        i = i + 1;
    }
    assert(sv.take(n as int) =~= sv);
    None
}

/// A name found in a prefix is found at the same place in the whole store.
proof fn lemma_first_named_prefix(s: Seq<SavedProfileView>, name: Seq<char>, m: int)
    requires
        0 <= m <= s.len(),
        first_named(s.take(m), name) is Some,
    ensures
        first_named(s, name) == first_named(s.take(m), name),
    decreases s.len() - m,
{
    if m < s.len() {
        assert(s.drop_last().take(m) =~= s.take(m));
        lemma_first_named_prefix(s.drop_last(), name, m);
    } else {
        assert(s.take(m) =~= s);
    }
}

/// The store after saving a recipe under `name` at time `now`: a recipe already saved under
/// that name gets the new description and body and keeps its place and first-saved time;
/// otherwise the recipe is added at the end.
pub open spec fn saved_after(
    s: Seq<SavedProfileView>,
    name: Seq<char>,
    description: Seq<char>,
    body: Seq<char>,
    now: Seq<char>,
) -> Seq<SavedProfileView> {
    match first_named(s, name) {
        Some(i) => s.update(
            i,
            SavedProfileView { name, description, body, created_at: s[i].created_at },
        ),
        None => s.push(SavedProfileView { name, description, body, created_at: now }),
    }
}

/// Save a recipe under `name` at time `now`: a recipe already saved under that name gets the
/// new description and body and keeps its place and first-saved time; otherwise the recipe is
/// added at the end.
pub fn save_into(store: &mut Vec<SavedProfile>, name: &str, description: &str, body: &str, now: &str)
    ensures
        saved_views(final(store)@) == saved_after(
            saved_views(old(store)@),
            name@,
            description@,
            body@,
            now@,
        ),
{
    match find_named(store.as_slice(), name) {
        Some(i) => {
            let created_at = store[i].created_at.clone();
            let ghost before = saved_views(store@);
            let entry = SavedProfile {
                name: name.to_owned(),
                description: description.to_owned(),
                body: body.to_owned(),
                created_at,
            };
            store.set(i, entry);
            assert(saved_views(store@) =~= before.update(
                i as int,
                SavedProfileView {
                    name: name@,
                    description: description@,
                    body: body@,
                    created_at: before[i as int].created_at,
                },
            ));
        },
        None => {
            let ghost before = saved_views(store@);
            store.push(
                SavedProfile {
                    name: name.to_owned(),
                    description: description.to_owned(),
                    body: body.to_owned(),
                    created_at: now.to_owned(),
                },
            );
            assert(saved_views(store@) =~= before.push(
                SavedProfileView { name: name@, description: description@, body: body@, created_at: now@ },
            ));
        },
    }
}

/// The body of the recipe saved under `name`, if any.
pub fn saved_body(store: &[SavedProfile], name: &str) -> (r: Option<String>)
    ensures
        match first_named(saved_views(store@), name@) {
            Some(i) => r matches Some(b) && b@ == saved_views(store@)[i].body,
            None => r is None,
        },
{
    match find_named(store, name) {
        Some(i) => Some(store[i].body.clone()),
        None => None,
    }
}

/// The store without any recipe named `name`, in order.
pub open spec fn without_named(s: Seq<SavedProfileView>, name: Seq<char>) -> Seq<SavedProfileView>
    decreases s.len(),
{
    if s.len() == 0 {
        seq![]
    } else if s.last().name == name {
        without_named(s.drop_last(), name)
    } else {
        without_named(s.drop_last(), name).push(s.last())
    }
}

/// Delete every recipe saved under `name`; the flag says whether one was there.
pub fn delete_named(store: Vec<SavedProfile>, name: &str) -> (r: (Vec<SavedProfile>, bool))
    ensures
        saved_views(r.0@) == without_named(saved_views(store@), name@),
        r.1 == first_named(saved_views(store@), name@) is Some,
{
    let ghost sv = saved_views(store@);
    let mut out: Vec<SavedProfile> = Vec::new();
    let mut removed = false;
    let n = store.len();
    let mut i: usize = 0;
    assert(sv.take(0) =~= Seq::<SavedProfileView>::empty());
    while i < n
        invariant
            i <= n,
            n == store@.len(),
            sv == saved_views(store@),
            saved_views(out@) == without_named(sv.take(i as int), name@),
            removed == first_named(sv.take(i as int), name@) is Some,
        decreases n - i,
    {
        assert(sv.take(i + 1).drop_last() =~= sv.take(i as int));
        assert(sv.take(i + 1).last() == store@[i as int]@);
        if !str_eq(store[i].name.as_str(), name) {
            let ghost before = saved_views(out@);
            let p = SavedProfile {
                name: store[i].name.clone(),
                description: store[i].description.clone(),
                body: store[i].body.clone(),
                created_at: store[i].created_at.clone(),
            };
            assert(p@ == store@[i as int]@);
            out.push(p);
            assert(saved_views(out@) =~= before.push(store@[i as int]@));
        } else {
            removed = true;
        }
        i = i + 1;
    }
    assert(sv.take(n as int) =~= sv);
    (out, removed)
}

/// Nothing named `name` is left once it is deleted.
proof fn lemma_without_named_lacks(s: Seq<SavedProfileView>, name: Seq<char>)
    ensures
        forall|j: int|
            0 <= j < without_named(s, name).len() ==> (#[trigger] without_named(s, name)[j]).name
                != name,
    decreases s.len(),
{
    if s.len() > 0 {
        let t = without_named(s.drop_last(), name);
        lemma_without_named_lacks(s.drop_last(), name);
        if s.last().name != name {
            assert forall|j: int| 0 <= j < t.len() + 1 implies (#[trigger] t.push(s.last())[j]).name
                != name by {
                if j < t.len() {
                    assert(t.push(s.last())[j] == t[j]);
                }
            }
        }
    }
}

/// Reading a name back right after saving under it gives what was saved: the description and
/// body just written.
pub proof fn lemma_read_after_save(
    s: Seq<SavedProfileView>,
    name: Seq<char>,
    description: Seq<char>,
    body: Seq<char>,
    now: Seq<char>,
)
    ensures
        first_named(saved_after(s, name, description, body, now), name) matches Some(i) && {
            let t = saved_after(s, name, description, body, now);
            &&& t[i].description == description
            &&& t[i].body == body
        },
{
    lemma_first_named_char(s, name);
    let t = saved_after(s, name, description, body, now);
    match first_named(s, name) {
        Some(i) => {
            assert forall|j: int| 0 <= j < i implies (#[trigger] t[j]).name != name by {
                assert(t[j] == s[j]);
            }
            lemma_first_named_is(t, name, i);
        },
        None => {
            assert forall|j: int| 0 <= j < s.len() implies (#[trigger] t[j]).name != name by {
                assert(t[j] == s[j]);
            }
            lemma_first_named_is(t, name, s.len() as int);
        },
    }
}

/// Saving under one name leaves what every other name reads back unchanged.
pub proof fn lemma_save_keeps_others(
    s: Seq<SavedProfileView>,
    name: Seq<char>,
    description: Seq<char>,
    body: Seq<char>,
    now: Seq<char>,
    other: Seq<char>,
)
    requires
        other != name,
    ensures
        ({
            let t = saved_after(s, name, description, body, now);
            match first_named(s, other) {
                Some(i) => first_named(t, other) == Some(i) && t[i] == s[i],
                None => first_named(t, other) is None,
            }
        }),
{
    lemma_first_named_char(s, other);
    lemma_first_named_char(s, name);
    let t = saved_after(s, name, description, body, now);
    lemma_first_named_char(t, other);
    assert forall|j: int| 0 <= j < s.len() && (#[trigger] s[j]).name == other implies t[j] == s[j] by {}
    assert forall|j: int| 0 <= j < s.len() && (#[trigger] s[j]).name != other implies t[j].name != other by {}
    if t.len() > s.len() {
        assert(t[s.len() as int].name == name);
    }
    match first_named(s, other) {
        Some(i) => {
            assert forall|j: int| 0 <= j < i implies (#[trigger] t[j]).name != other by {
                assert(s[j].name != other);
            }
            lemma_first_named_is(t, other, i);
        },
        None => {
            match first_named(t, other) {
                Some(k) => {
                    if k < s.len() {
                        assert(s[k].name != other);
                    }
                },
                None => {},
            }
        },
    }
}

/// Once a name is deleted, reading it back finds nothing.
pub proof fn lemma_read_after_delete(s: Seq<SavedProfileView>, name: Seq<char>)
    ensures
        first_named(without_named(s, name), name) is None,
{
    let t = without_named(s, name);
    lemma_without_named_lacks(s, name);
    lemma_first_named_char(t, name);
    match first_named(t, name) {
        Some(k) => {
            assert(t[k].name != name);
        },
        None => {},
    }
}

// ---------------------------------------------------------------------------
// Newest first
// ---------------------------------------------------------------------------

/// The contents of a summary.
pub open spec fn summary_view(s: ProfileSummary) -> (Seq<char>, Seq<char>, Seq<char>) {
    (s.name@, s.description@, s.created_at@)
}

/// The summary a saved recipe is listed with.
pub open spec fn summary_of(p: SavedProfileView) -> (Seq<char>, Seq<char>, Seq<char>) {
    (p.name, p.description, p.created_at)
}

/// The summaries of a list, as values.
pub open spec fn summary_views(v: Seq<ProfileSummary>) -> Seq<(Seq<char>, Seq<char>, Seq<char>)> {
    v.map_values(|s: ProfileSummary| summary_view(s))
}

/// The summaries a store's recipes are listed with, in store order.
pub open spec fn store_summaries(v: Seq<SavedProfile>) -> Seq<(Seq<char>, Seq<char>, Seq<char>)> {
    saved_views(v).map_values(|q: SavedProfileView| summary_of(q))
}

/// Summary `x` is listed before summary `y`: saved later, or saved at the same time and named
/// earlier.
pub open spec fn listed_before(x: (Seq<char>, Seq<char>, Seq<char>), y: (Seq<char>, Seq<char>, Seq<char>)) -> bool {
    lex_lt(y.2, x.2) || (x.2 == y.2 && lex_lt(x.0, y.0))
}

/// `listed_before` is a strict order.
proof fn lemma_listed_before_order(
    x: (Seq<char>, Seq<char>, Seq<char>),
    y: (Seq<char>, Seq<char>, Seq<char>),
    z: (Seq<char>, Seq<char>, Seq<char>),
)
    ensures
        listed_before(x, y) ==> !listed_before(y, x),
        listed_before(x, y) && listed_before(y, z) ==> listed_before(x, z),
{
    lemma_lex_asym(y.2, x.2);
    lemma_lex_asym(x.0, y.0);
    lemma_lex_asym(x.2, x.2);
    if listed_before(x, y) && listed_before(y, z) {
        if lex_lt(z.2, y.2) && lex_lt(y.2, x.2) {
            lemma_lex_trans(z.2, y.2, x.2);
        }
        if lex_lt(x.0, y.0) && lex_lt(y.0, z.0) {
            lemma_lex_trans(x.0, y.0, z.0);
        }
    }
}

/// Summaries in listing order.
pub open spec fn summaries_sorted(v: Seq<(Seq<char>, Seq<char>, Seq<char>)>) -> bool {
    forall|i: int, j: int| 0 <= i < j < v.len() ==> !listed_before(#[trigger] v[j], #[trigger] v[i])
}

/// Whether `x` is listed before `y`.
fn listed_before_exec(x: &ProfileSummary, y: &ProfileSummary) -> (r: bool)
    ensures
        r == listed_before(summary_view(*x), summary_view(*y)),
{
    if lex_less(y.created_at.as_str(), x.created_at.as_str()) {
        return true;
    }
    if lex_less(x.created_at.as_str(), y.created_at.as_str()) {
        proof {
            lemma_lex_asym(x.created_at@, y.created_at@);
            lemma_lex_asym(x.created_at@, x.created_at@);
        }
        return false;
    }
    proof {
        lemma_lex_total(x.created_at@, y.created_at@);
    }
    lex_less(x.name.as_str(), y.name.as_str())
}

/// The saved recipes' summaries, newest first, then by name.
pub fn summaries_newest_first(store: &[SavedProfile]) -> (r: Vec<ProfileSummary>)
    ensures
        summaries_sorted(summary_views(r@)),
        exists|p: Seq<int>| #[trigger] is_index_map(summary_views(r@), store_summaries(store@), p),
{
    let ghost input = store_summaries(store@);
    let ghost mut p: Seq<int> = Seq::empty();
    let mut out: Vec<ProfileSummary> = Vec::new();
    let total = store.len();
    let mut taken: usize = 0;
    proof {
        assert(input.take(0) =~= Seq::<(Seq<char>, Seq<char>, Seq<char>)>::empty());
        assert(summary_views(out@) =~= Seq::<
            (Seq<char>, Seq<char>, Seq<char>),
        >::empty());
    }
    while taken < total
        invariant
            total == store@.len(),
            input == store_summaries(store@),
            taken <= total,
            summaries_sorted(summary_views(out@)),
            is_index_map(summary_views(out@), input.take(taken as int), p),
        decreases total - taken,
    {
        let e = ProfileSummary {
            name: store[taken].name.clone(),
            description: store[taken].description.clone(),
            created_at: store[taken].created_at.clone(),
        };
        assert(summary_view(e) == input[taken as int]);
        let ghost ov = summary_views(out@);
        let n = out.len();
        let mut k: usize = 0;
        while k < n && !listed_before_exec(&e, &out[k])
            invariant
                k <= n,
                n == out@.len(),
                ov == summary_views(out@),
                forall|m: int| 0 <= m < k ==> !listed_before(summary_view(e), #[trigger] ov[m]),
            decreases n - k,
        {
            assert(ov[k as int] == summary_view(out@[k as int]));
            k = k + 1;
        }
        proof {
            if k < n {
                assert(ov[k as int] == summary_view(out@[k as int]));
            }
        }
        let ghost old_p = p;
        out.insert(k, e);
        proof {
            let nv = summary_views(out@);
            let ev = summary_view(e);
            assert(nv =~= ov.insert(k as int, ev));
            lemma_index_map_insert(ov, input, old_p, k as int, taken as int);
            p = old_p.insert(k as int, taken as int);
            assert forall|i: int, j: int| 0 <= i < j < nv.len() implies !listed_before(
                #[trigger] nv[j],
                #[trigger] nv[i],
            ) by {
                if j < k {
                    assert(nv[i] == ov[i] && nv[j] == ov[j]);
                } else if j == k {
                    assert(nv[i] == ov[i]);
                } else if i == k {
                    assert(nv[j] == ov[j - 1]);
                    lemma_listed_before_order(ov[j - 1], ev, ov[k as int]);
                    lemma_listed_before_order(ev, ov[k as int], ev);
                } else if i < k {
                    assert(nv[i] == ov[i] && nv[j] == ov[j - 1]);
                } else {
                    assert(nv[i] == ov[i - 1] && nv[j] == ov[j - 1]);
                }
            }
        }
        taken = taken + 1;
    }
    assert(input.take(total as int) =~= input);
    assert(is_index_map(summary_views(out@), input, p));
    out
}

} // verus!
