//! Plans: what resolving a profile against the local install state yields — the requirement
//! diff and what to create once it is satisfied.

use vstd::prelude::*;

use crate::model::emulator::Hardware;
use crate::model::image::ImageCoord;

verus! {

/// A category of thing a profile needs present before an emulator can be created.
#[derive(Debug, Clone, Copy, PartialEq, Eq, Hash, Structural)]
pub enum RequirementKind {
    /// The `cmdline-tools` package.
    CmdlineTools,
    /// `platform-tools` (adb).
    PlatformTools,
    /// The `emulator` package.
    Emulator,
    /// A specific system image.
    SystemImage,
    /// The `platforms;android-NN` package matching the image API.
    Platform,
}

/// Whether a [`Requirement`] is already satisfied.
#[derive(Debug, Clone, Copy, PartialEq, Eq, Hash, Structural)]
pub enum RequirementStatus {
    /// Already installed locally.
    Present,
    /// Must be downloaded; `size_bytes` is the archive size when known.
    NeedsDownload {
        /// Download size in bytes, or `None` if the repository did not say.
        size_bytes: Option<u64>,
    },
}

/// One line of a resolution diff.
#[derive(Debug, Clone, PartialEq, Eq)]
pub struct Requirement {
    /// What kind of component this is.
    pub kind: RequirementKind,
    /// Present or needs-download.
    pub status: RequirementStatus,
    /// The image coordinate, for a system image.
    pub coord: Option<ImageCoord>,
    /// Human label for the UI.
    pub label: String,
}

/// The contents of a [`Requirement`].
pub struct RequirementView {
    pub kind: RequirementKind,
    pub status: RequirementStatus,
    pub coord: Option<ImageCoord>,
    pub label: Seq<char>,
}

impl View for Requirement {
    type V = RequirementView;

    open spec fn view(&self) -> RequirementView {
        RequirementView {
            kind: self.kind,
            status: self.status,
            coord: self.coord,
            label: self.label@,
        }
    }
}

/// The views of a sequence of requirements.
pub open spec fn requirement_views(v: Seq<Requirement>) -> Seq<RequirementView> {
    v.map_values(|r: Requirement| r@)
}

/// Bytes a requirement status will download (0 when present or the size is unknown).
pub open spec fn status_bytes(s: RequirementStatus) -> nat {
    match s {
        RequirementStatus::NeedsDownload { size_bytes: Some(n) } => n as nat,
        _ => 0,
    }
}

/// Total bytes the requirements will download.
pub open spec fn total_bytes(diff: Seq<RequirementView>) -> nat
    decreases diff.len(),
{
    if diff.len() == 0 {
        0
    } else {
        total_bytes(diff.drop_last()) + status_bytes(diff.last().status)
    }
}

/// Every requirement is already present.
pub open spec fn all_present(diff: Seq<RequirementView>) -> bool {
    forall|i: int| 0 <= i < diff.len() ==> diff[i].status == RequirementStatus::Present
}

impl Requirement {
    /// Bytes this requirement will download (0 when already present or the size is unknown).
    pub fn download_bytes(&self) -> (r: u64)
        ensures
            r == status_bytes(self.status),
    {
        match self.status {
            RequirementStatus::NeedsDownload { size_bytes: Some(n) } => n,
            _ => 0,
        }
    }
}

/// Everything needed to create one AVD once its requirements are satisfied.
#[derive(Debug, Clone, PartialEq, Eq)]
pub struct CreateSpec {
    /// Proposed on-disk AVD name.
    pub avd_name: String,
    /// Display name for the tracked instance.
    pub display_name: String,
    /// Device profile id to build on.
    pub device_profile_id: String,
    /// System image to use.
    pub image_coord: ImageCoord,
    /// Hardware configuration.
    pub hardware: Hardware,
}

/// The contents of a [`CreateSpec`].
pub struct CreateSpecView {
    pub avd_name: Seq<char>,
    pub display_name: Seq<char>,
    pub device_profile_id: Seq<char>,
    pub image_coord: ImageCoord,
    pub hardware: Hardware,
}

impl View for CreateSpec {
    type V = CreateSpecView;

    open spec fn view(&self) -> CreateSpecView {
        CreateSpecView {
            avd_name: self.avd_name@,
            display_name: self.display_name@,
            device_profile_id: self.device_profile_id@,
            image_coord: self.image_coord,
            hardware: self.hardware,
        }
    }
}

/// The plan produced by resolving a profile.
#[derive(Debug, Clone, PartialEq, Eq)]
pub struct Plan {
    /// One entry per component the profile depends on.
    pub diff: Vec<Requirement>,
    /// What to create after the downloads finish.
    pub create_spec: CreateSpec,
}

impl Plan {
    /// Total bytes to download to satisfy this plan.
    pub fn total_download_bytes(&self) -> (r: u64)
        requires
            total_bytes(requirement_views(self.diff@)) <= u64::MAX,
        ensures
            r == total_bytes(requirement_views(self.diff@)),
    {
        let ghost d = requirement_views(self.diff@);
        let n = self.diff.len();
        let mut total: u64 = 0;
        let mut i: usize = 0;
        while i < n
            invariant
                i <= n,
                n == self.diff@.len(),
                d == requirement_views(self.diff@),
                total_bytes(d) <= u64::MAX,
                total == total_bytes(d.take(i as int)),
            decreases n - i,
        {
            assert(d.take(i + 1).drop_last() =~= d.take(i as int));
            proof {
                lemma_total_bytes_prefix(d, i + 1);
            }
            total = total + self.diff[i].download_bytes();
            i = i + 1;
        }
        assert(d.take(n as int) =~= d);
        total
    }

    /// `true` when nothing needs downloading: the emulator can be created immediately.
    pub fn is_ready(&self) -> (r: bool)
        ensures
            r == all_present(requirement_views(self.diff@)),
    {
        let ghost d = requirement_views(self.diff@);
        let n = self.diff.len();
        let mut i: usize = 0;
        while i < n
            invariant
                i <= n,
                n == self.diff@.len(),
                d == requirement_views(self.diff@),
                forall|k: int| 0 <= k < i ==> d[k].status == RequirementStatus::Present,
            decreases n - i,
        {
            assert(d[i as int] == self.diff@[i as int]@);
            match self.diff[i].status {
                RequirementStatus::Present => {},
                _ => {
                    assert(d[i as int].status != RequirementStatus::Present);
                    return false;
                },
            }
            i = i + 1;
        }
        true
    }
}

/// The total of a prefix never exceeds the total of the whole.
pub proof fn lemma_total_bytes_prefix(d: Seq<RequirementView>, i: int)
    requires
        0 <= i <= d.len(),
    ensures
        total_bytes(d.take(i)) <= total_bytes(d),
    decreases d.len() - i,
{
    if i < d.len() {
        lemma_total_bytes_prefix(d, i + 1);
        assert(d.take(i + 1).drop_last() =~= d.take(i));
    } else {
        assert(d.take(i) =~= d);
    }
}

/// A plan whose requirements are all present downloads nothing.
pub proof fn lemma_ready_plan_downloads_nothing(d: Seq<RequirementView>)
    requires
        all_present(d),
    ensures
        total_bytes(d) == 0,
    decreases d.len(),
{
    if d.len() > 0 {
        lemma_ready_plan_downloads_nothing(d.drop_last());
    }
}

} // verus!
