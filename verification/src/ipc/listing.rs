//! The order the wizard's lists come in: devices by name, system images deduplicated by
//! coordinate and then newest API first.

use vstd::prelude::*;
use vstd::seq_lib::*;

use crate::android::sysimg::SysImgEntry;
use crate::ipc::commands::DeviceInfo;
use crate::ipc::dto::ImageInfo;
use crate::model::image::{coord_text, lemma_coord_round_trip};
use crate::text::chars_of;

verus! {

// ---------------------------------------------------------------------------
// Lexicographic order of strings
// ---------------------------------------------------------------------------

/// `a < b` as `str` orders them: by the first differing character, a proper prefix first.
pub open spec fn lex_lt(a: Seq<char>, b: Seq<char>) -> bool
    decreases a.len(),
{
    if a.len() == 0 {
        b.len() > 0
    } else if b.len() == 0 {
        false
    } else if a[0] != b[0] {
        a[0] < b[0]
    } else {
        lex_lt(a.drop_first(), b.drop_first())
    }
}

/// No string comes before itself, and of two strings at most one comes first.
pub proof fn lemma_lex_asym(a: Seq<char>, b: Seq<char>)
    ensures
        lex_lt(a, b) ==> !lex_lt(b, a),
        !lex_lt(a, a),
    decreases a.len(),
{
    if a.len() > 0 && b.len() > 0 && a[0] == b[0] {
        lemma_lex_asym(a.drop_first(), b.drop_first());
    }
    if a.len() > 0 {
        lemma_lex_asym(a.drop_first(), a.drop_first());
    }
}

/// The order is transitive.
pub proof fn lemma_lex_trans(a: Seq<char>, b: Seq<char>, c: Seq<char>)
    requires
        lex_lt(a, b),
        lex_lt(b, c),
    ensures
        lex_lt(a, c),
    decreases a.len(),
{
    if a.len() > 0 && b.len() > 0 && c.len() > 0 && a[0] == b[0] && b[0] == c[0] {
        lemma_lex_trans(a.drop_first(), b.drop_first(), c.drop_first());
    }
}

/// Of two different strings, one comes first.
pub proof fn lemma_lex_total(a: Seq<char>, b: Seq<char>)
    ensures
        a == b || lex_lt(a, b) || lex_lt(b, a),
    decreases a.len(),
{
    if a.len() > 0 && b.len() > 0 && a[0] == b[0] {
        lemma_lex_total(a.drop_first(), b.drop_first());
        if a.drop_first() == b.drop_first() {
            assert(a =~= seq![a[0]] + a.drop_first());
            assert(b =~= seq![b[0]] + b.drop_first());
        }
    } else if a.len() == 0 && b.len() == 0 {
        assert(a =~= b);
    }
}

/// Whether `a` comes before `b`.
pub fn lex_less(a: &str, b: &str) -> (r: bool)
    ensures
        r == lex_lt(a@, b@),
{
    let x = chars_of(a);
    let y = chars_of(b);
    let n = x.len();
    let m = y.len();
    let mut i: usize = 0;
    assert(x@.skip(0) =~= x@);
    assert(y@.skip(0) =~= y@);
    while i < n && i < m
        invariant
            i <= n,
            i <= m,
            n == x@.len(),
            m == y@.len(),
            x@ == a@,
            y@ == b@,
            lex_lt(a@, b@) == lex_lt(x@.skip(i as int), y@.skip(i as int)),
        decreases n - i,
    {
        assert(x@.skip(i as int)[0] == x@[i as int]);
        assert(y@.skip(i as int)[0] == y@[i as int]);
        if x[i] != y[i] {
            return x[i] < y[i];
        }
        assert(x@.skip(i as int).drop_first() =~= x@.skip(i + 1));
        assert(y@.skip(i as int).drop_first() =~= y@.skip(i + 1));
        i = i + 1;
    }
    i < m
}

// ---------------------------------------------------------------------------
// Where each sorted item came from
// ---------------------------------------------------------------------------

/// `p` says where each item of `r` sits in `input`: `r[k]` is `input[p[k]]`, and no position
/// of `input` is used twice, so `r` is `input` rearranged.
pub open spec fn is_index_map<T>(r: Seq<T>, input: Seq<T>, p: Seq<int>) -> bool {
    &&& p.len() == r.len()
    &&& r.len() == input.len()
    &&& forall|k: int| 0 <= k < r.len() ==> 0 <= #[trigger] p[k] < input.len() && r[k] == input[p[k]]
    &&& forall|k: int, l: int| 0 <= k < l < r.len() ==> #[trigger] p[k] != #[trigger] p[l]
}

/// Inserting the next input item anywhere keeps the index map, the new item mapping to its
/// own position.
pub(crate) proof fn lemma_index_map_insert<T>(old_out: Seq<T>, input: Seq<T>, p: Seq<int>, k: int, taken: int)
    requires
        is_index_map(old_out, input.take(taken), p),
        0 <= k <= old_out.len(),
        0 <= taken < input.len(),
    ensures
        is_index_map(old_out.insert(k, input[taken]), input.take(taken + 1), p.insert(k, taken)),
{
    let out = old_out.insert(k, input[taken]);
    let q = p.insert(k, taken);
    let inp = input.take(taken + 1);
    assert forall|m: int| 0 <= m < out.len() implies 0 <= #[trigger] q[m] < inp.len() && out[m] == inp[q[m]] by {
        if m < k {
            assert(q[m] == p[m] && out[m] == old_out[m]);
            assert(input.take(taken)[p[m]] == input[p[m]]);
        } else if m == k {
        } else {
            assert(q[m] == p[m - 1] && out[m] == old_out[m - 1]);
            assert(input.take(taken)[p[m - 1]] == input[p[m - 1]]);
        }
    }
    assert forall|a: int, b: int| 0 <= a < b < out.len() implies #[trigger] q[a] != #[trigger] q[b] by {
        if b < k {
            assert(q[a] == p[a] && q[b] == p[b]);
        } else if b == k {
            assert(q[a] == p[a]);
        } else if a == k {
            assert(q[b] == p[b - 1]);
        } else if a < k {
            assert(q[a] == p[a] && q[b] == p[b - 1]);
        } else {
            assert(q[a] == p[a - 1] && q[b] == p[b - 1]);
        }
    }
}

// ---------------------------------------------------------------------------
// Devices by name
// ---------------------------------------------------------------------------

/// Devices in name order: no device's name comes before that of one listed earlier.
pub open spec fn devices_sorted(v: Seq<DeviceInfo>) -> bool {
    forall|i: int, j: int| 0 <= i < j < v.len() ==> !lex_lt(#[trigger] v[j].name@, #[trigger] v[i].name@)
}

/// Devices with the same name keep the order they came in.
pub open spec fn same_names_in_input_order(r: Seq<DeviceInfo>, p: Seq<int>) -> bool {
    forall|k: int, l: int| 0 <= k < l < r.len() && (#[trigger] r[k]).name@ == (#[trigger] r[l]).name@ ==> p[k] < p[l]
}

/// The devices in name order; devices with the same name keep their order (a stable sort).
pub fn sort_devices(devices: Vec<DeviceInfo>) -> (r: Vec<DeviceInfo>)
    ensures
        r@.to_multiset() == devices@.to_multiset(),
        devices_sorted(r@),
        exists|p: Seq<int>| #[trigger] is_index_map(r@, devices@, p) && same_names_in_input_order(r@, p),
{
    let ghost input = devices@;
    let ghost mut p: Seq<int> = Seq::empty();
    let mut out: Vec<DeviceInfo> = Vec::new();
    let mut rest = devices;
    let mut taken: usize = 0;
    let total = rest.len();
    proof {
        assert(input.take(0) =~= Seq::<DeviceInfo>::empty());
        assert(out@ =~= Seq::<DeviceInfo>::empty());
    }
    assert(rest@ =~= input.skip(0));
    while rest.len() > 0
        invariant
            total == input.len(),
            rest@.len() + taken == total,
            rest@ == input.skip(taken as int),
            out@.to_multiset() == input.take(taken as int).to_multiset(),
            devices_sorted(out@),
            is_index_map(out@, input.take(taken as int), p),
            same_names_in_input_order(out@, p),
        decreases rest@.len(),
    {
        let e = rest.remove(0);
        proof {
            assert(e == input[taken as int]);
            assert(rest@ =~= input.skip(taken + 1));
        }
        let n = out.len();
        let mut k: usize = 0;
        while k < n && !lex_less(e.name.as_str(), out[k].name.as_str())
            invariant
                k <= n,
                n == out@.len(),
                forall|m: int| 0 <= m < k ==> !lex_lt(e.name@, #[trigger] out@[m].name@),
            decreases n - k,
        {
            k = k + 1;
        }
        let ghost old_out = out@;
        let ghost old_p = p;
        out.insert(k, e);
        proof {
            to_multiset_insert(old_out, k as int, e);
            assert(input.take(taken + 1) =~= input.take(taken as int).push(e));
            to_multiset_build(input.take(taken as int), e);
            lemma_index_map_insert(old_out, input, old_p, k as int, taken as int);
            p = old_p.insert(k as int, taken as int);
            assert forall|i: int, j: int| 0 <= i < j < out@.len() && (#[trigger] out@[i]).name@
                == (#[trigger] out@[j]).name@ implies p[i] < p[j] by {
                if j < k {
                    assert(out@[i] == old_out[i] && out@[j] == old_out[j]);
                    assert(old_out[i] == old_out[i] && old_out[j] == old_out[j]);
                } else if j == k {
                    assert(p[i] == old_p[i]);
                    assert(0 <= old_p[i] < taken);
                } else if i == k {
                    assert(out@[j] == old_out[j - 1]);
                    assert(lex_lt(e.name@, old_out[k as int].name@));
                    if j - 1 == k {
                        lemma_lex_asym(e.name@, e.name@);
                    } else {
                        assert(!lex_lt(old_out[j - 1].name@, old_out[k as int].name@));
                    }
                } else if i < k {
                    assert(out@[i] == old_out[i] && out@[j] == old_out[j - 1]);
                    assert(old_out[i] == old_out[i] && old_out[j - 1] == old_out[j - 1]);
                } else {
                    assert(out@[i] == old_out[i - 1] && out@[j] == old_out[j - 1]);
                    assert(old_out[i - 1] == old_out[i - 1] && old_out[j - 1] == old_out[j - 1]);
                }
            }
            assert forall|i: int, j: int| 0 <= i < j < out@.len() implies !lex_lt(
                #[trigger] out@[j].name@,
                #[trigger] out@[i].name@,
            ) by {
                if j < k {
                    assert(out@[i] == old_out[i] && out@[j] == old_out[j]);
                } else if j == k {
                    assert(out@[i] == old_out[i]);
                } else if i == k {
                    assert(out@[j] == old_out[j - 1]);
                    assert(lex_lt(e.name@, old_out[k as int].name@));
                    if lex_lt(old_out[j - 1].name@, e.name@) {
                        lemma_lex_trans(old_out[j - 1].name@, e.name@, old_out[k as int].name@);
                    }
                    if j - 1 == k {
                        lemma_lex_asym(e.name@, old_out[k as int].name@);
                    }
                } else if i < k {
                    assert(out@[i] == old_out[i] && out@[j] == old_out[j - 1]);
                } else {
                    assert(out@[i] == old_out[i - 1] && out@[j] == old_out[j - 1]);
                }
            }
        }
        taken = taken + 1;
    }
    assert(input.take(total as int) =~= input);
    assert(is_index_map(out@, devices@, p));
    out
}

// ---------------------------------------------------------------------------
// System images
// ---------------------------------------------------------------------------

/// Image `x` is listed before image `y`: higher API level first, then image type, then ABI.
pub open spec fn image_before(x: ImageInfo, y: ImageInfo) -> bool {
    x.api > y.api || (x.api == y.api && (lex_lt(x.image_type@, y.image_type@) || (x.image_type@
        == y.image_type@ && lex_lt(x.abi@, y.abi@))))
}

/// `image_before` is a strict order: asymmetric and transitive.
pub proof fn lemma_image_before_order(x: ImageInfo, y: ImageInfo, z: ImageInfo)
    ensures
        image_before(x, y) ==> !image_before(y, x),
        image_before(x, y) && image_before(y, z) ==> image_before(x, z),
{
    lemma_lex_asym(x.image_type@, y.image_type@);
    lemma_lex_asym(x.abi@, y.abi@);
    lemma_lex_asym(y.image_type@, y.image_type@);
    if image_before(x, y) && image_before(y, z) {
        if lex_lt(x.image_type@, y.image_type@) && lex_lt(y.image_type@, z.image_type@) {
            lemma_lex_trans(x.image_type@, y.image_type@, z.image_type@);
        }
        if lex_lt(x.abi@, y.abi@) && lex_lt(y.abi@, z.abi@) {
            lemma_lex_trans(x.abi@, y.abi@, z.abi@);
        }
    }
}

/// Two images neither of which is listed before the other have the same API level, image type
/// and ABI.
proof fn lemma_image_ties_share_the_key(x: ImageInfo, y: ImageInfo)
    requires
        !image_before(x, y),
        !image_before(y, x),
    ensures
        x.api == y.api,
        x.image_type@ == y.image_type@,
        x.abi@ == y.abi@,
{
    lemma_lex_total(x.image_type@, y.image_type@);
    lemma_lex_total(x.abi@, y.abi@);
}

/// Images that tie in the listing order keep the order they came in.
pub open spec fn ties_in_input_order(r: Seq<ImageInfo>, p: Seq<int>) -> bool {
    forall|k: int, l: int|
        0 <= k < l < r.len() && !image_before(#[trigger] r[k], #[trigger] r[l]) && !image_before(r[l], r[k])
            ==> p[k] < p[l]
}

/// Images in listing order.
pub open spec fn images_sorted(v: Seq<ImageInfo>) -> bool {
    forall|i: int, j: int| 0 <= i < j < v.len() ==> !image_before(#[trigger] v[j], #[trigger] v[i])
}

/// Whether `x` is listed before `y`.
fn image_before_exec(x: &ImageInfo, y: &ImageInfo) -> (r: bool)
    ensures
        r == image_before(*x, *y),
{
    if x.api != y.api {
        return x.api > y.api;
    }
    if lex_less(x.image_type.as_str(), y.image_type.as_str()) {
        return true;
    }
    if lex_less(y.image_type.as_str(), x.image_type.as_str()) {
        proof {
            lemma_lex_asym(y.image_type@, x.image_type@);
            lemma_lex_asym(x.image_type@, x.image_type@);
        }
        return false;
    }
    proof {
        lemma_lex_total(x.image_type@, y.image_type@);
    }
    lex_less(x.abi.as_str(), y.abi.as_str())
}

/// The images in listing order (a stable sort): newest API level first, then by image type,
/// then by ABI.
pub fn sort_images(images: Vec<ImageInfo>) -> (r: Vec<ImageInfo>)
    ensures
        r@.to_multiset() == images@.to_multiset(),
        images_sorted(r@),
        exists|p: Seq<int>| #[trigger] is_index_map(r@, images@, p) && ties_in_input_order(r@, p),
{
    let ghost input = images@;
    let ghost mut p: Seq<int> = Seq::empty();
    let mut out: Vec<ImageInfo> = Vec::new();
    let mut rest = images;
    let mut taken: usize = 0;
    let total = rest.len();
    proof {
        assert(input.take(0) =~= Seq::<ImageInfo>::empty());
        assert(out@ =~= Seq::<ImageInfo>::empty());
    }
    assert(rest@ =~= input.skip(0));
    while rest.len() > 0
        invariant
            total == input.len(),
            rest@.len() + taken == total,
            rest@ == input.skip(taken as int),
            out@.to_multiset() == input.take(taken as int).to_multiset(),
            images_sorted(out@),
            is_index_map(out@, input.take(taken as int), p),
            ties_in_input_order(out@, p),
        decreases rest@.len(),
    {
        let e = rest.remove(0);
        proof {
            assert(e == input[taken as int]);
            assert(rest@ =~= input.skip(taken + 1));
        }
        let n = out.len();
        let mut k: usize = 0;
        while k < n && !image_before_exec(&e, &out[k])
            invariant
                k <= n,
                n == out@.len(),
                forall|m: int| 0 <= m < k ==> !image_before(e, #[trigger] out@[m]),
            decreases n - k,
        {
            k = k + 1;
        }
        let ghost old_out = out@;
        let ghost old_p = p;
        out.insert(k, e);
        proof {
            to_multiset_insert(old_out, k as int, e);
            assert(input.take(taken + 1) =~= input.take(taken as int).push(e));
            to_multiset_build(input.take(taken as int), e);
            lemma_index_map_insert(old_out, input, old_p, k as int, taken as int);
            p = old_p.insert(k as int, taken as int);
            assert forall|i: int, j: int|
                0 <= i < j < out@.len() && !image_before(#[trigger] out@[i], #[trigger] out@[j])
                    && !image_before(out@[j], out@[i]) implies p[i] < p[j] by {
                if j < k {
                    assert(out@[i] == old_out[i] && out@[j] == old_out[j]);
                    assert(old_out[i] == old_out[i] && old_out[j] == old_out[j]);
                } else if j == k {
                    assert(p[i] == old_p[i]);
                    assert(0 <= old_p[i] < taken);
                } else if i == k {
                    assert(out@[j] == old_out[j - 1]);
                    assert(image_before(e, old_out[k as int]));
                    if j - 1 > k {
                        lemma_image_ties_share_the_key(e, old_out[j - 1]);
                        assert(!image_before(old_out[j - 1], old_out[k as int]));
                    }
                } else if i < k {
                    assert(out@[i] == old_out[i] && out@[j] == old_out[j - 1]);
                    assert(old_out[i] == old_out[i] && old_out[j - 1] == old_out[j - 1]);
                } else {
                    assert(out@[i] == old_out[i - 1] && out@[j] == old_out[j - 1]);
                    assert(old_out[i - 1] == old_out[i - 1] && old_out[j - 1] == old_out[j - 1]);
                }
            }
            assert forall|i: int, j: int| 0 <= i < j < out@.len() implies !image_before(
                #[trigger] out@[j],
                #[trigger] out@[i],
            ) by {
                if j < k {
                    assert(out@[i] == old_out[i] && out@[j] == old_out[j]);
                } else if j == k {
                    assert(out@[i] == old_out[i]);
                } else if i == k {
                    assert(out@[j] == old_out[j - 1]);
                    lemma_image_before_order(old_out[j - 1], e, old_out[k as int]);
                    lemma_image_before_order(e, old_out[k as int], e);
                } else if i < k {
                    assert(out@[i] == old_out[i] && out@[j] == old_out[j - 1]);
                } else {
                    assert(out@[i] == old_out[i - 1] && out@[j] == old_out[j - 1]);
                }
            }
        }
        taken = taken + 1;
    }
    assert(input.take(total as int) =~= input);
    assert(is_index_map(out@, images@, p));
    out
}

// ---------------------------------------------------------------------------
// One entry per coordinate
// ---------------------------------------------------------------------------

/// Entries strictly in the order of their coordinates' package paths.
pub open spec fn coords_ascending(v: Seq<SysImgEntry>) -> bool {
    forall|i: int, j: int|
        0 <= i < j < v.len() ==> lex_lt(
            coord_text(#[trigger] v[i].coord),
            coord_text(#[trigger] v[j].coord),
        )
}

/// `j` is the first position of `input` with the coordinate `input[j].coord`.
pub open spec fn first_of_its_coord(input: Seq<SysImgEntry>, j: int) -> bool {
    0 <= j < input.len() && forall|k: int| 0 <= k < j ==> (#[trigger] input[k]).coord != input[j].coord
}

/// `x` is the first entry of `input` with its coordinate.
pub open spec fn is_first_copy(input: Seq<SysImgEntry>, x: SysImgEntry) -> bool {
    exists|j: int| first_of_its_coord(input, j) && x == input[j]
}

/// Two coordinates with the same package path are the same coordinate.
proof fn lemma_coord_text_injective(a: crate::model::image::ImageCoord, b: crate::model::image::ImageCoord)
    requires
        coord_text(a) == coord_text(b),
    ensures
        a == b,
{
    lemma_coord_round_trip(a);
    lemma_coord_round_trip(b);
}

/// Inserting an entry at a position that keeps the package paths strictly ascending.
proof fn lemma_insert_ascending(old_out: Seq<SysImgEntry>, k: int, e: SysImgEntry)
    requires
        0 <= k <= old_out.len(),
        coords_ascending(old_out),
        forall|m: int| 0 <= m < k ==> lex_lt(coord_text(#[trigger] old_out[m].coord), coord_text(e.coord)),
        k < old_out.len() ==> lex_lt(coord_text(e.coord), coord_text(old_out[k].coord)),
    ensures
        coords_ascending(old_out.insert(k, e)),
{
    let out = old_out.insert(k, e);
    assert forall|i: int, j: int| 0 <= i < j < out.len() implies lex_lt(
        coord_text(#[trigger] out[i].coord),
        coord_text(#[trigger] out[j].coord),
    ) by {
        if j < k {
            assert(out[i] == old_out[i] && out[j] == old_out[j]);
        } else if j == k {
            assert(out[i] == old_out[i]);
        } else if i == k {
            assert(out[j] == old_out[j - 1]);
            if j - 1 > k {
                lemma_lex_trans(
                    coord_text(e.coord),
                    coord_text(old_out[k].coord),
                    coord_text(old_out[j - 1].coord),
                );
            }
        } else if i < k {
            assert(out[i] == old_out[i] && out[j] == old_out[j - 1]);
        } else {
            assert(out[i] == old_out[i - 1] && out[j] == old_out[j - 1]);
        }
    }
}

/// In an ascending list, the only place an entry with `e`'s coordinate can be is the first
/// position whose package path does not come before `e`'s.
proof fn lemma_only_at_k(old_out: Seq<SysImgEntry>, k: int, e: SysImgEntry, q: int)
    requires
        0 <= k <= old_out.len(),
        0 <= q < old_out.len(),
        coords_ascending(old_out),
        forall|m: int| 0 <= m < k ==> lex_lt(coord_text(#[trigger] old_out[m].coord), coord_text(e.coord)),
        k < old_out.len() ==> !lex_lt(coord_text(old_out[k].coord), coord_text(e.coord)),
        old_out[q].coord == e.coord,
    ensures
        q == k,
{
    let et = coord_text(e.coord);
    if q < k {
        lemma_lex_asym(et, et);
    } else if q > k {
        lemma_lex_total(coord_text(old_out[k].coord), et);
        if coord_text(old_out[k].coord) == et {
            lemma_coord_text_injective(old_out[k].coord, e.coord);
            assert(lex_lt(coord_text(old_out[k].coord), coord_text(old_out[q].coord)));
            lemma_lex_asym(et, et);
        } else {
            lemma_lex_trans(et, coord_text(old_out[k].coord), coord_text(old_out[q].coord));
            lemma_lex_asym(et, et);
        }
    }
}

/// The manifest entries with one entry per coordinate (the first one listed), sorted by
/// package path.
#[verifier::spinoff_prover]
#[verifier::rlimit(80)]
pub fn unique_entries(entries: Vec<SysImgEntry>) -> (r: Vec<SysImgEntry>)
    ensures
        coords_ascending(r@),
        forall|k: int| 0 <= k < r@.len() ==> is_first_copy(entries@, #[trigger] r@[k]),
        forall|j: int|
            #![trigger entries@[j]]
            0 <= j < entries@.len() ==> exists|k: int|
                0 <= k < r@.len() && (#[trigger] r@[k]).coord == entries@[j].coord,
{
    let ghost input = entries@;
    let mut out: Vec<SysImgEntry> = Vec::new();
    let mut rest = entries;
    let mut taken: usize = 0;
    let total = rest.len();
    assert(rest@ =~= input.skip(0));
    while rest.len() > 0
        invariant
            total == input.len(),
            rest@.len() + taken == total,
            rest@ == input.skip(taken as int),
            coords_ascending(out@),
            forall|k: int| 0 <= k < out@.len() ==> is_first_copy(input, #[trigger] out@[k]),
            forall|j: int|
                #![trigger input[j]]
                0 <= j < taken ==> exists|k: int|
                    0 <= k < out@.len() && (#[trigger] out@[k]).coord == input[j].coord,
        decreases rest@.len(),
    {
        let e = rest.remove(0);
        proof {
            assert(e == input[taken as int]);
            assert(rest@ =~= input.skip(taken + 1));
        }
        let et = e.coord.to_string();
        let n = out.len();
        let mut k: usize = 0;
        while k < n && lex_less(out[k].coord.to_string().as_str(), et.as_str())
            invariant
                k <= n,
                n == out@.len(),
                et@ == coord_text(e.coord),
                forall|m: int| 0 <= m < k ==> lex_lt(coord_text(#[trigger] out@[m].coord), et@),
            decreases n - k,
        {
            k = k + 1;
        }
        let ghost old_out = out@;
        if k < n && out[k].coord == e.coord {
            assert forall|j: int| #![trigger input[j]] 0 <= j < taken + 1 implies exists|q: int|
                0 <= q < out@.len() && (#[trigger] out@[q]).coord == input[j].coord by {
                if j == taken {
                    assert(out@[k as int].coord == input[j].coord);
                }
            }
        } else {
            proof {
                assert forall|j: int| 0 <= j < taken implies (#[trigger] input[j]).coord
                    != e.coord by {
                    if input[j].coord == e.coord {
                        let q = choose|q: int|
                            0 <= q < old_out.len() && (#[trigger] old_out[q]).coord
                                == input[j].coord;
                        lemma_only_at_k(old_out, k as int, e, q);
                    }
                }
                assert(first_of_its_coord(input, taken as int));
                if k < n {
                    lemma_lex_total(coord_text(old_out[k as int].coord), et@);
                    if coord_text(old_out[k as int].coord) == et@ {
                        lemma_coord_text_injective(old_out[k as int].coord, e.coord);
                    }
                }
                lemma_insert_ascending(old_out, k as int, e);
            }
            out.insert(k, e);
            proof {
                assert forall|q: int| 0 <= q < out@.len() implies is_first_copy(
                    input,
                    #[trigger] out@[q],
                ) by {
                    if q < k {
                        assert(out@[q] == old_out[q]);
                    } else if q == k {
                        assert(out@[q] == input[taken as int]);
                        assert(first_of_its_coord(input, taken as int));
                    } else {
                        assert(out@[q] == old_out[q - 1]);
                    }
                }
                assert forall|j: int| #![trigger input[j]] 0 <= j < taken + 1 implies exists|q: int|
                    0 <= q < out@.len() && (#[trigger] out@[q]).coord == input[j].coord by {
                    if j == taken {
                        assert(out@[k as int].coord == input[j].coord);
                    } else {
                        let q0 = choose|q: int|
                            0 <= q < old_out.len() && (#[trigger] old_out[q]).coord
                                == input[j].coord;
                        if q0 < k {
                            assert(out@[q0] == old_out[q0]);
                        } else {
                            assert(out@[q0 + 1] == old_out[q0]);
                        }
                    }
                }
            }
        }
        taken = taken + 1;
    }
    out
}

/// The picker's records of the entries, given which are installed (one flag per entry).
pub fn image_infos(entries: &[SysImgEntry], installed: &[bool]) -> (r: Vec<ImageInfo>)
    requires
        installed@.len() == entries@.len(),
    ensures
        r@.len() == entries@.len(),
        forall|i: int|
            0 <= i < r@.len() ==> (#[trigger] r@[i]).coord@ == coord_text(entries@[i].coord)
                && r@[i].api == entries@[i].coord.api && r@[i].revision@ == entries@[i].revision@
                && r@[i].installed == installed@[i],
{
    let n = entries.len();
    let mut out: Vec<ImageInfo> = Vec::new();
    let mut i: usize = 0;
    while i < n
        invariant
            i <= n,
            n == entries@.len(),
            installed@.len() == n,
            out@.len() == i,
            forall|k: int|
                0 <= k < i ==> (#[trigger] out@[k]).coord@ == coord_text(entries@[k].coord)
                    && out@[k].api == entries@[k].coord.api && out@[k].revision@
                    == entries@[k].revision@ && out@[k].installed == installed@[k],
        decreases n - i,
    {
        out.push(ImageInfo::from_entry(&entries[i], installed[i]));
        i = i + 1;
    }
    out
}

} // verus!
