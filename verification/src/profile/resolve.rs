//! [`resolve`]: a recipe plus the local install state gives a [`Plan`]: the requirement diff and
//! the spec of the emulator to create once the diff is satisfied.

use vstd::prelude::*;

use crate::error::{checked_as, CoreError};
use crate::model::component::ComponentId;
use crate::model::image::coord_text;
use crate::model::plan::{
    requirement_views, CreateSpec, CreateSpecView, Plan, Requirement, RequirementKind,
    RequirementStatus, RequirementView,
};
use crate::model::profile::{coord_of, hardware_of, validation_of, EmuProfile, EmuProfileView};
use crate::ports::string_views;
use crate::text::{cat, cat3, chars_of, decimal, lemma_parse_decimal, str_eq, string_of, u64_to_string};
use crate::toolchain::installed_state::{installed_in, ComponentLocationView, InstalledState};

verus! {

// ---------------------------------------------------------------------------
// Names that are not taken yet
// ---------------------------------------------------------------------------

/// The `n`-th alternative to `base`: `<base>_<n>` for an AVD name, `<base> (<n>)` for a display
/// name.
pub open spec fn name_candidate(base: Seq<char>, n: nat, display: bool) -> Seq<char> {
    if display {
        base + " ("@ + decimal(n) + ")"@
    } else {
        base + "_"@ + decimal(n)
    }
}

/// `r` is the first name free of `taken`: `base` itself when free, else the first alternative
/// numbered from 2 that is free.
pub open spec fn first_free_name(taken: Seq<Seq<char>>, base: Seq<char>, display: bool, r: Seq<char>) -> bool {
    if !taken.contains(base) {
        r == base
    } else {
        exists|n: nat|
            n >= 2 && r == name_candidate(base, n, display) && !taken.contains(r) && forall|m: nat|
                2 <= m < n ==> taken.contains(#[trigger] name_candidate(base, m, display))
    }
}

/// Different numbers give different alternatives.
proof fn lemma_candidate_injective(base: Seq<char>, a: nat, b: nat, display: bool)
    requires
        name_candidate(base, a, display) == name_candidate(base, b, display),
        a <= u64::MAX,
        b <= u64::MAX,
    ensures
        a == b,
{
    reveal_strlit(" (");
    reveal_strlit(")");
    reveal_strlit("_");
    let ca = name_candidate(base, a, display);
    let cb = name_candidate(base, b, display);
    let k: int = if display { base.len() + 2int } else { base.len() + 1int };
    if display {
        assert(ca.skip(k).drop_last() =~= decimal(a));
        assert(cb.skip(k).drop_last() =~= decimal(b));
    } else {
        assert(ca.skip(k) =~= decimal(a));
        assert(cb.skip(k) =~= decimal(b));
    }
    lemma_parse_decimal(a, u64::MAX as int);
    lemma_parse_decimal(b, u64::MAX as int);
}

/// Of the alternatives numbered 2 to `taken.len() + 2`, at least one is free.
proof fn lemma_some_candidate_free(taken: Seq<Seq<char>>, base: Seq<char>, display: bool)
    requires
        taken.len() + 2 <= u64::MAX,
    ensures
        exists|m: nat| 2 <= m <= taken.len() + 2 && !taken.contains(#[trigger] name_candidate(base, m, display)),
{
    let l = taken.len();
    let cands = Seq::new((l + 1) as nat, |i: int| name_candidate(base, (i + 2) as nat, display));
    if forall|m: nat| 2 <= m <= l + 2 ==> taken.contains(#[trigger] name_candidate(base, m, display)) {
        assert forall|i: int, j: int| 0 <= i < cands.len() && 0 <= j < cands.len() && i != j implies cands[i]
            != cands[j] by {
            if cands[i] == cands[j] {
                lemma_candidate_injective(base, (i + 2) as nat, (j + 2) as nat, display);
            }
        }
        assert(cands.no_duplicates());
        cands.unique_seq_to_set();
        taken.lemma_cardinality_of_set();
        assert forall|x: Seq<char>| cands.to_set().contains(x) implies taken.to_set().contains(x) by {
            let i = choose|i: int| 0 <= i < cands.len() && cands[i] == x;
            assert(taken.contains(name_candidate(base, (i + 2) as nat, display)));
        }
        vstd::seq_lib::seq_to_set_is_finite(taken);
        vstd::set_lib::lemma_len_subset(cands.to_set(), taken.to_set());
        assert(false);
    }
}

/// Whether `name` is among `taken`.
fn is_taken(taken: &[String], name: &str) -> (r: bool)
    ensures
        r == string_views(taken@).contains(name@),
{
    let ghost tv = string_views(taken@);
    let mut i: usize = 0;
    while i < taken.len()
        invariant
            i <= taken@.len(),
            tv == string_views(taken@),
            forall|k: int| 0 <= k < i ==> tv[k] != name@,
        decreases taken@.len() - i,
    {
        if str_eq(taken[i].as_str(), name) {
            assert(tv[i as int] == name@);
            return true;
        }
        i = i + 1;
    }
    false
}

/// The first name free of `taken` (see [`first_free_name`]).
fn first_free(base: &str, taken: &[String], display: bool) -> (r: String)
    requires
        taken@.len() + 2 <= u64::MAX,
    ensures
        first_free_name(string_views(taken@), base@, display, r@),
{
    let ghost tv = string_views(taken@);
    if !is_taken(taken, base) {
        return base.to_owned();
    }
    let limit: u64 = taken.len() as u64 + 2;
    let mut n: u64 = 2;
    proof {
        lemma_some_candidate_free(tv, base@, display);
    }
    loop
        invariant
            2 <= n <= limit,
            limit == tv.len() + 2,
            tv == string_views(taken@),
            tv.contains(base@),
            forall|m: nat| 2 <= m < n ==> tv.contains(#[trigger] name_candidate(base@, m, display)),
            exists|m: nat| 2 <= m <= tv.len() + 2 && !tv.contains(#[trigger] name_candidate(base@, m, display)),
        decreases limit - n,
    {
        let digits = u64_to_string(n);
        let c = if display {
            cat3(base, " (", digits.as_str()).concat(")")
        } else {
            cat3(base, "_", digits.as_str())
        };
        assert(c@ == name_candidate(base@, n as nat, display));
        if !is_taken(taken, c.as_str()) {
            return c;
        }
        if n == limit {
            proof {
                let m = choose|m: nat| 2 <= m <= tv.len() + 2 && !tv.contains(#[trigger] name_candidate(base@, m, display));
                assert(m < n || m == n);
            }
            assert(false);
        }
        n = n + 1;
    }
}

/// An AVD name not taken yet: `base`, or `<base>_2`, `<base>_3`, … (the first free one).
pub fn unique_avd_name(base: &str, taken: &[String]) -> (r: String)
    requires
        taken@.len() + 2 <= u64::MAX,
    ensures
        first_free_name(string_views(taken@), base@, false, r@),
{
    first_free(base, taken, false)
}

/// A display name not taken yet: `base`, or `<base> (2)`, `<base> (3)`, … (the first free
/// one).
pub fn unique_display_name(base: &str, taken: &[String]) -> (r: String)
    requires
        taken@.len() + 2 <= u64::MAX,
    ensures
        first_free_name(string_views(taken@), base@, true, r@),
{
    first_free(base, taken, true)
}

/// A character `avdmanager -n` accepts: `[A-Za-z0-9._-]`.
pub open spec fn avd_name_char(c: char) -> bool {
    ('a' <= c && c <= 'z') || ('A' <= c && c <= 'Z') || ('0' <= c && c <= '9') || c == '_' || c
        == '-' || c == '.'
}

/// The AVD name for a display name: every character `avdmanager` does not accept becomes
/// `_`, and an empty result becomes `avd`.
pub open spec fn sanitized(display_name: Seq<char>) -> Seq<char> {
    if display_name.len() == 0 {
        "avd"@
    } else {
        display_name.map_values(|c: char| if avd_name_char(c) { c } else { '_' })
    }
}

/// Keep only the characters `avdmanager -n` accepts (`[A-Za-z0-9._-]`); every other character
/// becomes `_`. An empty result becomes `"avd"`.
pub fn sanitize_avd_name(display_name: &str) -> (r: String)
    ensures
        r@ == sanitized(display_name@),
{
    let cs = chars_of(display_name);
    let n = cs.len();
    if n == 0 {
        return "avd".to_owned();
    }
    let mut out: Vec<char> = Vec::new();
    let mut i: usize = 0;
    while i < n
        invariant
            i <= n,
            n == cs@.len(),
            cs@ == display_name@,
            out@ == cs@.take(i as int).map_values(
                |c: char| if avd_name_char(c) { c } else { '_' },
            ),
        decreases n - i,
    {
        let c = cs[i];
        let ok = ('a' <= c && c <= 'z') || ('A' <= c && c <= 'Z') || ('0' <= c && c <= '9') || c
            == '_' || c == '-' || c == '.';
        out.push(
            if ok {
                c
            } else {
                '_'
            },
        );
        assert(out@ =~= cs@.take(i + 1).map_values(
            |c: char| if avd_name_char(c) { c } else { '_' },
        ));
        i = i + 1;
    }
    assert(cs@.take(n as int) =~= cs@);
    string_of(out.as_slice())
}

/// The UI label of a requirement kind.
pub open spec fn label_of(kind: RequirementKind) -> Seq<char> {
    match kind {
        RequirementKind::CmdlineTools => "Command-line tools"@,
        RequirementKind::PlatformTools => "Platform tools (adb)"@,
        RequirementKind::Emulator => "Emulator"@,
        RequirementKind::SystemImage => "System image"@,
        RequirementKind::Platform => "Platform"@,
    }
}

/// The UI label of a requirement kind.
pub fn component_label(kind: RequirementKind) -> (r: &'static str)
    ensures
        r@ == label_of(kind),
{
    match kind {
        RequirementKind::CmdlineTools => "Command-line tools",
        RequirementKind::PlatformTools => "Platform tools (adb)",
        RequirementKind::Emulator => "Emulator",
        RequirementKind::SystemImage => "System image",
        RequirementKind::Platform => "Platform",
    }
}

/// The requirement line of one SDK component.
pub open spec fn component_requirement(
    kind: RequirementKind,
    id: ComponentId,
    installed: Seq<ComponentLocationView>,
) -> RequirementView {
    RequirementView {
        kind,
        status: if installed_in(installed, id) {
            RequirementStatus::Present
        } else {
            RequirementStatus::NeedsDownload { size_bytes: None }
        },
        coord: None,
        label: label_of(kind),
    }
}

/// The requirement diff of a recipe: the three SDK components, then the system image.
pub open spec fn diff_of(
    p: EmuProfileView,
    installed: Seq<ComponentLocationView>,
    image_installed: bool,
    image_size_bytes: Option<u64>,
) -> Seq<RequirementView> {
    seq![
        component_requirement(RequirementKind::CmdlineTools, ComponentId::CmdlineTools, installed),
        component_requirement(RequirementKind::PlatformTools, ComponentId::PlatformTools, installed),
        component_requirement(RequirementKind::Emulator, ComponentId::Emulator, installed),
        RequirementView {
            kind: RequirementKind::SystemImage,
            status: if image_installed {
                RequirementStatus::Present
            } else {
                RequirementStatus::NeedsDownload { size_bytes: image_size_bytes }
            },
            coord: Some(coord_of(p)),
            label: "System image · "@ + coord_text(coord_of(p)),
        },
    ]
}

/// The create spec of a recipe.
pub open spec fn create_spec_of(p: EmuProfileView) -> CreateSpecView {
    CreateSpecView {
        avd_name: sanitized(p.name),
        display_name: p.name,
        device_profile_id: p.device_profile,
        image_coord: coord_of(p),
        hardware: hardware_of(p.hardware),
    }
}

/// One component's requirement line.
fn requirement_for(kind: RequirementKind, id: ComponentId, components: &InstalledState) -> (r: Requirement)
    ensures
        r@ == component_requirement(kind, id, components@),
{
    Requirement {
        kind,
        status: if components.is_installed(id) {
            RequirementStatus::Present
        } else {
            RequirementStatus::NeedsDownload { size_bytes: None }
        },
        coord: None,
        label: component_label(kind).to_owned(),
    }
}

/// Resolve a recipe into the requirement diff plus the [`CreateSpec`] to run once the diff is
/// satisfied. The caller supplies whether the system image is installed and its download size.
/// `platforms;android-NN` is deliberately not a requirement: creating an AVD does not need it.
pub fn resolve(
    profile: &EmuProfile,
    components: &InstalledState,
    image_installed: bool,
    image_size_bytes: Option<u64>,
) -> (r: Result<Plan, CoreError>)
    ensures
        match r {
            Ok(plan) => validation_of(profile@) is Ok && requirement_views(plan.diff@) == diff_of(
                profile@,
                components@,
                image_installed,
                image_size_bytes,
            ) && plan.create_spec@ == create_spec_of(profile@),
            Err(e) => checked_as(Err::<(), CoreError>(e), validation_of(profile@)),
        },
{
    match profile.validate() {
        Ok(()) => {},
        Err(e) => {
            return Err(e);
        },
    }
    let coord = profile.image_coord();
    let mut diff: Vec<Requirement> = Vec::new();
    diff.push(requirement_for(RequirementKind::CmdlineTools, ComponentId::CmdlineTools, components));
    diff.push(
        requirement_for(RequirementKind::PlatformTools, ComponentId::PlatformTools, components),
    );
    diff.push(requirement_for(RequirementKind::Emulator, ComponentId::Emulator, components));
    let coord_str = coord.to_string();
    diff.push(
        Requirement {
            kind: RequirementKind::SystemImage,
            status: if image_installed {
                RequirementStatus::Present
            } else {
                RequirementStatus::NeedsDownload { size_bytes: image_size_bytes }
            },
            coord: Some(coord),
            label: cat("System image · ", coord_str.as_str()),
        },
    );
    assert(requirement_views(diff@) =~= diff_of(
        profile@,
        components@,
        image_installed,
        image_size_bytes,
    ));
    let create_spec = CreateSpec {
        avd_name: sanitize_avd_name(profile.name.as_str()),
        display_name: profile.name.clone(),
        device_profile_id: profile.device.profile.clone(),
        image_coord: coord,
        hardware: profile.hardware(),
    };
    Ok(Plan { diff, create_spec })
}

/// A plan is ready (nothing to download) exactly when the three SDK components and the system
/// image are all installed.
pub proof fn lemma_resolved_plan_ready_iff(
    p: EmuProfileView,
    installed: Seq<ComponentLocationView>,
    image_installed: bool,
    image_size_bytes: Option<u64>,
)
    ensures
        crate::model::plan::all_present(diff_of(p, installed, image_installed, image_size_bytes))
            <==> (installed_in(installed, ComponentId::CmdlineTools) && installed_in(
            installed,
            ComponentId::PlatformTools,
        ) && installed_in(installed, ComponentId::Emulator) && image_installed),
{
    let d = diff_of(p, installed, image_installed, image_size_bytes);
    if crate::model::plan::all_present(d) {
        assert(d[0].status == RequirementStatus::Present);
        assert(d[1].status == RequirementStatus::Present);
        assert(d[2].status == RequirementStatus::Present);
        assert(d[3].status == RequirementStatus::Present);
    }
}

/// A sanitized AVD name is never empty and holds only characters `avdmanager -n` accepts.
pub proof fn lemma_sanitized_is_acceptable(display_name: Seq<char>)
    ensures
        sanitized(display_name).len() > 0,
        forall|i: int|
            0 <= i < sanitized(display_name).len() ==> avd_name_char(
                #[trigger] sanitized(display_name)[i],
            ),
{
    reveal_strlit("avd");
}

} // verus!
