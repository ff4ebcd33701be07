//! What is on disk right now, in the app-managed SDK directory and in any existing system
//! Android SDK (`ANDROID_SDK_ROOT`, `ANDROID_HOME`, or Android Studio's default location).
//!
//! Paths are `/`-separated strings; [`path_join`] joins them the way `Path::join` does on Unix.

use vstd::prelude::*;

use crate::model::component::{ComponentId, HostOs};
use crate::text::{cat, cat3, str_eq, trim};

verus! {

/// Where a component's install was found.
#[derive(Debug, Clone, PartialEq, Eq)]
pub enum SdkSource {
    /// Inside the app's own managed `<data_dir>/sdk/` directory.
    AppManaged,
    /// An existing system-wide Android SDK, rooted at this path.
    System(String),
}

/// The contents of an [`SdkSource`].
pub enum SdkSourceView {
    AppManaged,
    System(Seq<char>),
}

impl View for SdkSource {
    type V = SdkSourceView;

    open spec fn view(&self) -> SdkSourceView {
        match self {
            SdkSource::AppManaged => SdkSourceView::AppManaged,
            SdkSource::System(p) => SdkSourceView::System(p@),
        }
    }
}

impl SdkSource {
    /// A copy of this source.
    pub fn duplicate(&self) -> (r: SdkSource)
        ensures
            r@ == self@,
    {
        match self {
            SdkSource::AppManaged => SdkSource::AppManaged,
            SdkSource::System(p) => SdkSource::System(p.clone()),
        }
    }
}

/// One component, found on disk, and where.
#[derive(Debug, Clone, PartialEq, Eq)]
pub struct ComponentLocation {
    /// Which component this is.
    pub id: ComponentId,
    /// The SDK root it was found under.
    pub sdk_root: String,
    /// App-managed or an existing system install.
    pub source: SdkSource,
}

/// The contents of a [`ComponentLocation`].
pub struct ComponentLocationView {
    pub id: ComponentId,
    pub sdk_root: Seq<char>,
    pub source: SdkSourceView,
}

impl View for ComponentLocation {
    type V = ComponentLocationView;

    open spec fn view(&self) -> ComponentLocationView {
        ComponentLocationView { id: self.id, sdk_root: self.sdk_root@, source: self.source@ }
    }
}

/// The views of a sequence of locations.
pub open spec fn location_views(v: Seq<ComponentLocation>) -> Seq<ComponentLocationView> {
    v.map_values(|l: ComponentLocation| l@)
}

/// A snapshot of what is installed. Never cache one: scan again whenever the answer matters.
#[derive(Debug, Clone, PartialEq, Eq)]
pub struct InstalledState {
    found: Vec<ComponentLocation>,
}

/// `i` is the first position in `found` holding component `id`.
pub open spec fn is_first_location(found: Seq<ComponentLocationView>, id: ComponentId, i: int) -> bool {
    0 <= i < found.len() && found[i].id == id && forall|k: int| 0 <= k < i ==> found[k].id != id
}

/// The first location recorded for `id`, if any.
pub open spec fn location_in(found: Seq<ComponentLocationView>, id: ComponentId) -> Option<ComponentLocationView> {
    if exists|i: int| is_first_location(found, id, i) {
        Some(found[choose|i: int| is_first_location(found, id, i)])
    } else {
        None
    }
}

/// Whether `id` is recorded anywhere in `found`.
pub open spec fn installed_in(found: Seq<ComponentLocationView>, id: ComponentId) -> bool {
    exists|i: int| 0 <= i < found.len() && found[i].id == id
}

/// The components of `wanted` not recorded in `found`, in order.
pub open spec fn missing_in(found: Seq<ComponentLocationView>, wanted: Seq<ComponentId>) -> Seq<ComponentId>
    decreases wanted.len(),
{
    if wanted.len() == 0 {
        wanted
    } else {
        let rest = missing_in(found, wanted.drop_last());
        if installed_in(found, wanted.last()) {
            rest
        } else {
            rest.push(wanted.last())
        }
    }
}

impl View for InstalledState {
    type V = Seq<ComponentLocationView>;

    closed spec fn view(&self) -> Seq<ComponentLocationView> {
        location_views(self.found@)
    }
}

impl InstalledState {
    /// Build a state directly from known locations.
    pub fn from_found(found: Vec<ComponentLocation>) -> (r: InstalledState)
        ensures
            r@ == location_views(found@),
    {
        InstalledState { found }
    }

    /// Where `id` was found, if at all (the first record of it).
    pub fn location_of(&self, id: ComponentId) -> (r: Option<&ComponentLocation>)
        ensures
            match r {
                Some(l) => location_in(self@, id) == Some(l@),
                None => location_in(self@, id) is None,
            },
    {
        let n = self.found.len();
        let ghost f = self@;
        let mut i: usize = 0;
        while i < n
            invariant
                i <= n,
                n == f.len(),
                f == location_views(self.found@),
                forall|k: int| 0 <= k < i ==> f[k].id != id,
            decreases n - i,
        {
            if self.found[i].id == id {
                assert(is_first_location(f, id, i as int));
                let ghost j = choose|j: int| is_first_location(f, id, j);
                assert(j == i) by {
                    if j < i {
                        assert(f[j].id != id);
                    } else if j > i {
                        assert(f[i as int].id != id);
                    }
                }
                return Some(&self.found[i]);
            }
            i = i + 1;
        }
        assert(!exists|j: int| is_first_location(f, id, j));
        None
    }

    /// `true` if `id` is installed anywhere (app-managed or system).
    pub fn is_installed(&self, id: ComponentId) -> (r: bool)
        ensures
            r == installed_in(self@, id),
    {
        match self.location_of(id) {
            Some(_) => {
                let ghost i = choose|i: int| is_first_location(self@, id, i);
                true
            },
            None => {
                assert forall|i: int| 0 <= i < self@.len() implies self@[i].id != id by {
                    if self@[i].id == id {
                        lemma_first_location_exists(self@, id, i);
                    }
                }
                false
            },
        }
    }

    /// Of `wanted`, the ones not found anywhere, in order.
    pub fn missing(&self, wanted: &[ComponentId]) -> (r: Vec<ComponentId>)
        ensures
            r@ == missing_in(self@, wanted@),
    {
        let mut r: Vec<ComponentId> = Vec::new();
        let n = wanted.len();
        let mut i: usize = 0;
        while i < n
            invariant
                i <= n,
                n == wanted@.len(),
                r@ == missing_in(self@, wanted@.take(i as int)),
            decreases n - i,
        {
            let id = wanted[i];
            assert(wanted@.take(i + 1).drop_last() =~= wanted@.take(i as int));
            if !self.is_installed(id) {
                r.push(id);
            }
            assert(r@ =~= missing_in(self@, wanted@.take(i + 1)));
            i = i + 1;
        }
        assert(wanted@.take(n as int) =~= wanted@);
        r
    }
}

/// When some position holds `id`, a first such position exists.
pub proof fn lemma_first_location_exists(found: Seq<ComponentLocationView>, id: ComponentId, i: int)
    requires
        0 <= i < found.len(),
        found[i].id == id,
    ensures
        exists|j: int| is_first_location(found, id, j),
    decreases i,
{
    if exists|k: int| 0 <= k < i && found[k].id == id {
        let k = choose|k: int| 0 <= k < i && found[k].id == id;
        lemma_first_location_exists(found, id, k);
    } else {
        assert(is_first_location(found, id, i));
    }
}

/// `Path::join` on Unix: an absolute `b` replaces `a`; otherwise `b` follows `a` after one `/`.
pub open spec fn path_join(a: Seq<char>, b: Seq<char>) -> Seq<char> {
    if b.len() > 0 && b[0] == '/' {
        b
    } else if a.len() == 0 {
        b
    } else if a.last() == '/' {
        a + b
    } else {
        a + seq!['/'] + b
    }
}

/// Join two paths the way `Path::join` does on Unix.
pub fn join_path(a: &str, b: &str) -> (r: String)
    ensures
        r@ == path_join(a@, b@),
{
    let bs = crate::text::chars_of(b);
    let as_ = crate::text::chars_of(a);
    if bs.len() > 0 && bs[0] == '/' {
        return b.to_owned();
    }
    if as_.len() == 0 {
        return b.to_owned();
    }
    if as_[as_.len() - 1] == '/' {
        cat(a, b)
    } else {
        let r = cat3(a, "/", b);
        proof {
            reveal_strlit("/");
        }
        r
    }
}

/// The file (relative to an SDK root) that proves a component is installed there: `sdkmanager`
/// (`.bat` on Windows), `adb` (`.exe`), `emulator` (`.exe`).
pub open spec fn marker_of(id: ComponentId, os: HostOs) -> Seq<char> {
    let windows = os == HostOs::Windows;
    match id {
        ComponentId::CmdlineTools => if windows {
            "cmdline-tools/latest/bin/sdkmanager.bat"@
        } else {
            "cmdline-tools/latest/bin/sdkmanager"@
        },
        ComponentId::PlatformTools => if windows {
            "platform-tools/adb.exe"@
        } else {
            "platform-tools/adb"@
        },
        ComponentId::Emulator => if windows {
            "emulator/emulator.exe"@
        } else {
            "emulator/emulator"@
        },
    }
}

/// The marker file of a component, relative to an SDK root.
pub fn marker_file(id: ComponentId, os: HostOs) -> (r: &'static str)
    ensures
        r@ == marker_of(id, os),
{
    let windows = match os {
        HostOs::Windows => true,
        _ => false,
    };
    match id {
        ComponentId::CmdlineTools => if windows {
            "cmdline-tools/latest/bin/sdkmanager.bat"
        } else {
            "cmdline-tools/latest/bin/sdkmanager"
        },
        ComponentId::PlatformTools => if windows {
            "platform-tools/adb.exe"
        } else {
            "platform-tools/adb"
        },
        ComponentId::Emulator => if windows {
            "emulator/emulator.exe"
        } else {
            "emulator/emulator"
        },
    }
}

/// The real binary to invoke for `id`, given the SDK root it was found under.
pub fn binary_path(sdk_root: &str, id: ComponentId, os: HostOs) -> (r: String)
    ensures
        r@ == path_join(sdk_root@, marker_of(id, os)),
{
    join_path(sdk_root, marker_file(id, os))
}

/// The value of the first entry named `name` in an environment snapshot.
pub open spec fn env_lookup(env: Seq<(Seq<char>, Seq<char>)>, name: Seq<char>) -> Option<Seq<char>>
    decreases env.len(),
{
    if env.len() == 0 {
        None
    } else if env[0].0 == name {
        Some(env[0].1)
    } else {
        env_lookup(env.drop_first(), name)
    }
}

/// Look `name` up in an environment snapshot (name/value pairs, first match wins).
pub fn env_var(env: &[(String, String)], name: &str) -> (r: Option<String>)
    ensures
        crate::android::avd_list::opt_view(r) == env_lookup(crate::ports::pair_views(env@), name@),
{
    let ghost pv = crate::ports::pair_views(env@);
    assert(pv.skip(0) =~= pv);
    let n = env.len();
    let mut i: usize = 0;
    while i < n
        invariant
            i <= n,
            n == env@.len(),
            pv == crate::ports::pair_views(env@),
            env_lookup(pv, name@) == env_lookup(pv.skip(i as int), name@),
        decreases n - i,
    {
        assert(pv.skip(i as int)[0] == pv[i as int]);
        assert(pv.skip(i as int).drop_first() =~= pv.skip(i + 1));
        if str_eq(env[i].0.as_str(), name) {
            return Some(env[i].1.clone());
        }
        i = i + 1;
    }
    assert(pv.skip(n as int).len() == 0);
    None
}

/// Candidate system SDK roots, in priority order: `ANDROID_SDK_ROOT`, `ANDROID_HOME` (each when
/// set and not blank), then Android Studio's default location for the OS when the home or
/// profile directory is known.
pub open spec fn system_roots_of(os: HostOs, env: Seq<(Seq<char>, Seq<char>)>) -> Seq<Seq<char>> {
    let a = match env_lookup(env, "ANDROID_SDK_ROOT"@) {
        Some(v) => if trim(v).len() > 0 {
            seq![v]
        } else {
            seq![]
        },
        None => seq![],
    };
    let b = match env_lookup(env, "ANDROID_HOME"@) {
        Some(v) => if trim(v).len() > 0 {
            a.push(v)
        } else {
            a
        },
        None => a,
    };
    let studio = match os {
        HostOs::MacOs => match env_lookup(env, "HOME"@) {
            Some(h) => Some(path_join(h, "Library/Android/sdk"@)),
            None => None,
        },
        HostOs::Linux => match env_lookup(env, "HOME"@) {
            Some(h) => Some(path_join(h, "Android/Sdk"@)),
            None => None,
        },
        HostOs::Windows => match env_lookup(env, "LOCALAPPDATA"@) {
            Some(l) => Some(path_join(l, "Android\\Sdk"@)),
            None => None,
        },
    };
    match studio {
        Some(d) => b.push(d),
        None => b,
    }
}

/// The SDK locations the environment names come first among the candidate system roots:
/// `ANDROID_SDK_ROOT` when it is set and not blank, then `ANDROID_HOME` when it is set and not
/// blank (still widely set, and still honoured), each exactly as given.
pub proof fn lemma_env_sdk_roots_come_first(os: HostOs, env: Seq<(Seq<char>, Seq<char>)>)
    ensures
        ({
            let roots = system_roots_of(os, env);
            let sdk_root = env_lookup(env, "ANDROID_SDK_ROOT"@);
            let home = env_lookup(env, "ANDROID_HOME"@);
            let k: int = if sdk_root matches Some(v) && trim(v).len() > 0 { 1int } else { 0int };
            &&& (sdk_root matches Some(v) ==> (trim(v).len() > 0 ==> roots.len() >= 1 && roots[0] == v))
            &&& (home matches Some(v) ==> (trim(v).len() > 0 ==> roots.len() > k && roots[k] == v
                && roots.contains(v)))
        }),
{
    let roots = system_roots_of(os, env);
    let sdk_root = env_lookup(env, "ANDROID_SDK_ROOT"@);
    let home = env_lookup(env, "ANDROID_HOME"@);
    let k: int = if sdk_root matches Some(v) && trim(v).len() > 0 { 1int } else { 0int };
    if let Some(v) = home {
        if trim(v).len() > 0 {
            assert(roots[k] == v);
        }
    }
}

/// Candidate system SDK roots for an OS and an environment snapshot.
pub fn system_roots(os: HostOs, env: &[(String, String)]) -> (r: Vec<String>)
    ensures
        crate::ports::string_views(r@) == system_roots_of(os, crate::ports::pair_views(env@)),
{
    let mut roots: Vec<String> = Vec::new();
    match env_var(env, "ANDROID_SDK_ROOT") {
        Some(v) => {
            let t = crate::text::trim_str(v.as_str());
            if !t.as_str().is_empty() {
                roots.push(v);
            }
        },
        None => {},
    }
    let ghost a = crate::ports::string_views(roots@);
    match env_var(env, "ANDROID_HOME") {
        Some(v) => {
            let t = crate::text::trim_str(v.as_str());
            if !t.as_str().is_empty() {
                roots.push(v);
                assert(crate::ports::string_views(roots@) =~= a.push(v@));
            }
        },
        None => {},
    }
    let ghost b = crate::ports::string_views(roots@);
    let studio: Option<String> = match os {
        HostOs::MacOs => match env_var(env, "HOME") {
            Some(h) => Some(join_path(h.as_str(), "Library/Android/sdk")),
            None => None,
        },
        HostOs::Linux => match env_var(env, "HOME") {
            Some(h) => Some(join_path(h.as_str(), "Android/Sdk")),
            None => None,
        },
        HostOs::Windows => match env_var(env, "LOCALAPPDATA") {
            Some(l) => Some(join_path(l.as_str(), "Android\\Sdk")),
            None => None,
        },
    };
    match studio {
        Some(d) => {
            roots.push(d);
            assert(crate::ports::string_views(roots@) =~= b.push(d@));
        },
        None => {},
    }
    assert(crate::ports::string_views(roots@) =~= system_roots_of(
        os,
        crate::ports::pair_views(env@),
    ));
    roots
}

/// The roots a scan checks, in order: the app-managed SDK directory first, then each system
/// root.
pub open spec fn scan_roots_of(
    app_sdk_dir: Seq<char>,
    os: HostOs,
    env: Seq<(Seq<char>, Seq<char>)>,
) -> Seq<(Seq<char>, SdkSourceView)> {
    seq![(app_sdk_dir, SdkSourceView::AppManaged)] + system_roots_of(os, env).map_values(
        |r: Seq<char>| (r, SdkSourceView::System(r)),
    )
}

/// The views of a sequence of (root, source) pairs.
pub open spec fn root_views(v: Seq<(String, SdkSource)>) -> Seq<(Seq<char>, SdkSourceView)> {
    v.map_values(|p: (String, SdkSource)| (p.0@, p.1@))
}

/// The roots a scan checks, app-managed first.
pub fn scan_roots(app_sdk_dir: &str, os: HostOs, env: &[(String, String)]) -> (r: Vec<(String, SdkSource)>)
    ensures
        root_views(r@) == scan_roots_of(app_sdk_dir@, os, crate::ports::pair_views(env@)),
{
    let sys = system_roots(os, env);
    let ghost sv = crate::ports::string_views(sys@);
    let mut r: Vec<(String, SdkSource)> = Vec::new();
    r.push((app_sdk_dir.to_owned(), SdkSource::AppManaged));
    let n = sys.len();
    let mut i: usize = 0;
    while i < n
        invariant
            i <= n,
            n == sys@.len(),
            sv == crate::ports::string_views(sys@),
            root_views(r@) == seq![(app_sdk_dir@, SdkSourceView::AppManaged)] + sv.take(
                i as int,
            ).map_values(|q: Seq<char>| (q, SdkSourceView::System(q))),
        decreases n - i,
    {
        let root = sys[i].clone();
        let again = sys[i].clone();
        let ghost before = root_views(r@);
        r.push((root, SdkSource::System(again)));
        assert(sv[i as int] == sys@[i as int]@);
        assert(root_views(r@) =~= before.push((sv[i as int], SdkSourceView::System(sv[i as int]))));
        assert(root_views(r@) =~= seq![(app_sdk_dir@, SdkSourceView::AppManaged)] + sv.take(
            i + 1,
        ).map_values(|q: Seq<char>| (q, SdkSourceView::System(q))));
        i = i + 1;
    }
    assert(sv.take(n as int) =~= sv);
    r
}

/// `j` is the first root whose probe succeeded.
pub open spec fn is_first_hit(row: Seq<bool>, j: int) -> bool {
    0 <= j < row.len() && row[j] && forall|k: int| 0 <= k < j ==> !row[k]
}

/// The location of component `id` under the first root whose probe succeeded, if any.
pub open spec fn hit_location(
    roots: Seq<(Seq<char>, SdkSourceView)>,
    id: ComponentId,
    row: Seq<bool>,
) -> Option<ComponentLocationView> {
    if exists|j: int| is_first_hit(row, j) && j < roots.len() {
        let j = choose|j: int| is_first_hit(row, j) && j < roots.len();
        Some(ComponentLocationView { id, sdk_root: roots[j].0, source: roots[j].1 })
    } else {
        None
    }
}

/// What a scan finds: for each of `ids` in order, the location under the first root (in
/// `roots` order) where its marker file exists. `probes[k][j]` says whether the marker of
/// `ids[k]` exists under `roots[j]`.
pub open spec fn scan_found(
    roots: Seq<(Seq<char>, SdkSourceView)>,
    ids: Seq<ComponentId>,
    probes: Seq<Seq<bool>>,
) -> Seq<ComponentLocationView>
    decreases ids.len(),
{
    if ids.len() == 0 {
        seq![]
    } else {
        let rest = scan_found(roots, ids.drop_last(), probes);
        match hit_location(roots, ids.last(), probes[ids.len() - 1]) {
            Some(l) => rest.push(l),
            None => rest,
        }
    }
}

/// The paths whose existence a scan probes: for each component of the bootstrap set, its
/// marker file under each root, in root order.
pub fn probe_paths(roots: &[(String, SdkSource)], os: HostOs) -> (r: Vec<Vec<String>>)
    ensures
        r@.len() == 3,
        forall|k: int|
            0 <= k < 3 ==> crate::ports::string_views(#[trigger] r@[k]@) == root_views(
                roots@,
            ).map_values(
                |q: (Seq<char>, SdkSourceView)|
                    path_join(
                        q.0,
                        marker_of(
                            seq![
                                ComponentId::CmdlineTools,
                                ComponentId::PlatformTools,
                                ComponentId::Emulator,
                            ][k],
                            os,
                        ),
                    ),
            ),
{
    let ids = ComponentId::m1_set();
    let mut r: Vec<Vec<String>> = Vec::new();
    let ghost rv = root_views(roots@);
    let mut k: usize = 0;
    while k < 3
        invariant
            k <= 3,
            r@.len() == k,
            rv == root_views(roots@),
            ids@ == seq![ComponentId::CmdlineTools, ComponentId::PlatformTools, ComponentId::Emulator],
            forall|m: int|
                0 <= m < k ==> crate::ports::string_views(#[trigger] r@[m]@) == rv.map_values(
                    |q: (Seq<char>, SdkSourceView)| path_join(q.0, marker_of(ids@[m], os)),
                ),
        decreases 3 - k,
    {
        let id = ids[k];
        let mut row: Vec<String> = Vec::new();
        let n = roots.len();
        let mut j: usize = 0;
        while j < n
            invariant
                j <= n,
                n == roots@.len(),
                rv == root_views(roots@),
                crate::ports::string_views(row@) == rv.take(j as int).map_values(
                    |q: (Seq<char>, SdkSourceView)| path_join(q.0, marker_of(id, os)),
                ),
            decreases n - j,
        {
            let p = binary_path(roots[j].0.as_str(), id, os);
            let ghost before = crate::ports::string_views(row@);
            row.push(p);
            assert(crate::ports::string_views(row@) =~= before.push(p@));
            assert(rv[j as int].0 == roots@[j as int].0@);
            assert(crate::ports::string_views(row@) =~= rv.take(j + 1).map_values(
                |q: (Seq<char>, SdkSourceView)| path_join(q.0, marker_of(id, os)),
            ));
            j = j + 1;
        }
        assert(rv.take(n as int) =~= rv);
        r.push(row);
        k = k + 1;
    }
    r
}

impl InstalledState {
    /// What a scan found, given for each component of the bootstrap set (in order) whether its
    /// marker file exists under each of `roots` (see [`probe_paths`]): each component is
    /// located under the first root where it exists.
    pub fn from_probes(roots: &[(String, SdkSource)], probes: &[Vec<bool>]) -> (r: InstalledState)
        requires
            probes@.len() == 3,
        ensures
            r@ == scan_found(
                root_views(roots@),
                seq![ComponentId::CmdlineTools, ComponentId::PlatformTools, ComponentId::Emulator],
                probes@.map_values(|v: Vec<bool>| v@),
            ),
    {
        let ids = ComponentId::m1_set();
        let ghost rv = root_views(roots@);
        let ghost pv = probes@.map_values(|v: Vec<bool>| v@);
        let mut found: Vec<ComponentLocation> = Vec::new();
        let mut k: usize = 0;
        while k < 3
            invariant
                k <= 3,
                probes@.len() == 3,
                rv == root_views(roots@),
                pv == probes@.map_values(|v: Vec<bool>| v@),
                ids@ == seq![ComponentId::CmdlineTools, ComponentId::PlatformTools, ComponentId::Emulator],
                location_views(found@) == scan_found(rv, ids@.take(k as int), pv),
            decreases 3 - k,
        {
            let id = ids[k];
            let row = &probes[k];
            assert(pv[k as int] == row@);
            let n = if row.len() < roots.len() {
                row.len()
            } else {
                roots.len()
            };
            let mut j: usize = 0;
            while j < n && !row[j]
                invariant
                    j <= n,
                    n <= row@.len(),
                    n <= roots@.len(),
                    n == row@.len() || n == roots@.len(),
                    forall|m: int| 0 <= m < j ==> !row@[m],
                decreases n - j,
            {
                j = j + 1;
            }
            let hit: Option<usize> = if j < n {
                Some(j)
            } else {
                None
            };
            assert(rv.len() == roots@.len());
            assert(ids@.take(k + 1).drop_last() =~= ids@.take(k as int));
            assert(ids@.take(k + 1).last() == id);
            match hit {
                Some(j) => {
                    assert(is_first_hit(row@, j as int) && j < rv.len());
                    let ghost c = choose|c: int| is_first_hit(row@, c) && c < rv.len();
                    assert(c == j) by {
                        if c < j {
                            assert(!row@[c]);
                        } else if c > j {
                            assert(!row@[j as int]);
                        }
                    }
                    let loc = ComponentLocation {
                        id,
                        sdk_root: roots[j].0.clone(),
                        source: roots[j].1.duplicate(),
                    };
                    assert(rv[j as int] == (roots@[j as int].0@, roots@[j as int].1@));
                    found.push(loc);
                },
                None => {
                    assert(!exists|c: int| is_first_hit(row@, c) && c < rv.len()) by {
                        if exists|c: int| is_first_hit(row@, c) && c < rv.len() {
                            let c = choose|c: int| is_first_hit(row@, c) && c < rv.len();
                            assert(row@[c]);
                        }
                    }
                },
            }
            assert(location_views(found@) =~= scan_found(rv, ids@.take(k + 1), pv));
            k = k + 1;
        }
        assert(ids@.take(3) =~= ids@);
        InstalledState { found }
    }
}

} // verus!
