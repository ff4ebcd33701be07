//! [`EmuProfile`]: the portable `.emuprofile` recipe users share. It never carries SDK
//! components or disk images, only references to them.
//!
//! The schema spells two values differently from the tools: the image type
//! `android-automotive_playstore` (the `sdkmanager` tag is `android-automotive-playstore`) and the
//! graphics value `hardware` (the emulator's `-gpu` value is `host`).

use vstd::prelude::*;

use crate::error::{checked_as, CoreError};
use crate::model::emulator::{Emulator, Graphics, Hardware};
use crate::model::image::{Abi, ImageCoord, ImageType};
use crate::model::plan::CreateSpec;
use crate::text::{cat3, str_eq};

verus! {

/// Current `.emuprofile` schema version string.
pub const SCHEMA_VERSION: &'static str = "1.0";

/// Image type as spelled in the `.emuprofile` schema.
#[derive(Debug, Clone, Copy, PartialEq, Eq, Hash, Structural)]
pub enum ProfileImageType {
    /// `default`
    Default,
    /// `google_apis`
    GoogleApis,
    /// `google_apis_playstore`
    GoogleApisPlaystore,
    /// `android-wear`
    AndroidWear,
    /// `android-tv`
    AndroidTv,
    /// `android-automotive`
    AndroidAutomotive,
    /// `android-automotive_playstore` (schema spelling)
    AndroidAutomotivePlaystore,
}

/// The image type a schema image type stands for.
pub open spec fn image_type_of(t: ProfileImageType) -> ImageType {
    match t {
        ProfileImageType::Default => ImageType::Default,
        ProfileImageType::GoogleApis => ImageType::GoogleApis,
        ProfileImageType::GoogleApisPlaystore => ImageType::GoogleApisPlaystore,
        ProfileImageType::AndroidWear => ImageType::AndroidWear,
        ProfileImageType::AndroidTv => ImageType::AndroidTv,
        ProfileImageType::AndroidAutomotive => ImageType::AndroidAutomotive,
        ProfileImageType::AndroidAutomotivePlaystore => ImageType::AndroidAutomotivePlaystore,
    }
}

/// The schema spelling of an image type.
pub open spec fn profile_image_type_of(t: ImageType) -> ProfileImageType {
    match t {
        ImageType::Default => ProfileImageType::Default,
        ImageType::GoogleApis => ProfileImageType::GoogleApis,
        ImageType::GoogleApisPlaystore => ProfileImageType::GoogleApisPlaystore,
        ImageType::AndroidWear => ProfileImageType::AndroidWear,
        ImageType::AndroidTv => ProfileImageType::AndroidTv,
        ImageType::AndroidAutomotive => ProfileImageType::AndroidAutomotive,
        ImageType::AndroidAutomotivePlaystore => ProfileImageType::AndroidAutomotivePlaystore,
    }
}

impl From<ProfileImageType> for ImageType {
    fn from(t: ProfileImageType) -> (r: ImageType) {
        match t {
            ProfileImageType::Default => ImageType::Default,
            ProfileImageType::GoogleApis => ImageType::GoogleApis,
            ProfileImageType::GoogleApisPlaystore => ImageType::GoogleApisPlaystore,
            ProfileImageType::AndroidWear => ImageType::AndroidWear,
            ProfileImageType::AndroidTv => ImageType::AndroidTv,
            ProfileImageType::AndroidAutomotive => ImageType::AndroidAutomotive,
            ProfileImageType::AndroidAutomotivePlaystore => ImageType::AndroidAutomotivePlaystore,
        }
    }
}

impl vstd::std_specs::convert::FromSpecImpl<ProfileImageType> for ImageType {
    open spec fn obeys_from_spec() -> bool {
        true
    }

    open spec fn from_spec(t: ProfileImageType) -> ImageType {
        image_type_of(t)
    }
}

impl From<ImageType> for ProfileImageType {
    fn from(t: ImageType) -> (r: ProfileImageType) {
        match t {
            ImageType::Default => ProfileImageType::Default,
            ImageType::GoogleApis => ProfileImageType::GoogleApis,
            ImageType::GoogleApisPlaystore => ProfileImageType::GoogleApisPlaystore,
            ImageType::AndroidWear => ProfileImageType::AndroidWear,
            ImageType::AndroidTv => ProfileImageType::AndroidTv,
            ImageType::AndroidAutomotive => ProfileImageType::AndroidAutomotive,
            ImageType::AndroidAutomotivePlaystore => ProfileImageType::AndroidAutomotivePlaystore,
        }
    }
}

impl vstd::std_specs::convert::FromSpecImpl<ImageType> for ProfileImageType {
    open spec fn obeys_from_spec() -> bool {
        true
    }

    open spec fn from_spec(t: ImageType) -> ProfileImageType {
        profile_image_type_of(t)
    }
}

/// The schema and tool spellings of image types are in one-to-one correspondence.
pub proof fn lemma_image_type_bijection(t: ImageType, p: ProfileImageType)
    ensures
        image_type_of(profile_image_type_of(t)) == t,
        profile_image_type_of(image_type_of(p)) == p,
{
}

/// Graphics value as spelled in the `.emuprofile` schema.
#[derive(Debug, Clone, Copy, PartialEq, Eq, Hash, Structural)]
pub enum ProfileGraphics {
    /// `auto`
    Auto,
    /// `hardware` (the schema's spelling of "use the host GPU")
    Hardware,
    /// `swiftshader_indirect`
    SwiftshaderIndirect,
}

/// The graphics backend a schema graphics value stands for.
pub open spec fn graphics_of(g: ProfileGraphics) -> Graphics {
    match g {
        ProfileGraphics::Auto => Graphics::Auto,
        ProfileGraphics::Hardware => Graphics::Host,
        ProfileGraphics::SwiftshaderIndirect => Graphics::SwiftshaderIndirect,
    }
}

/// The schema spelling of a graphics backend.
pub open spec fn profile_graphics_of(g: Graphics) -> ProfileGraphics {
    match g {
        Graphics::Auto => ProfileGraphics::Auto,
        Graphics::Host => ProfileGraphics::Hardware,
        Graphics::SwiftshaderIndirect => ProfileGraphics::SwiftshaderIndirect,
    }
}

impl From<ProfileGraphics> for Graphics {
    fn from(g: ProfileGraphics) -> (r: Graphics) {
        match g {
            ProfileGraphics::Auto => Graphics::Auto,
            ProfileGraphics::Hardware => Graphics::Host,
            ProfileGraphics::SwiftshaderIndirect => Graphics::SwiftshaderIndirect,
        }
    }
}

impl vstd::std_specs::convert::FromSpecImpl<ProfileGraphics> for Graphics {
    open spec fn obeys_from_spec() -> bool {
        true
    }

    open spec fn from_spec(g: ProfileGraphics) -> Graphics {
        graphics_of(g)
    }
}

impl From<Graphics> for ProfileGraphics {
    fn from(g: Graphics) -> (r: ProfileGraphics) {
        match g {
            Graphics::Auto => ProfileGraphics::Auto,
            Graphics::Host => ProfileGraphics::Hardware,
            Graphics::SwiftshaderIndirect => ProfileGraphics::SwiftshaderIndirect,
        }
    }
}

impl vstd::std_specs::convert::FromSpecImpl<Graphics> for ProfileGraphics {
    open spec fn obeys_from_spec() -> bool {
        true
    }

    open spec fn from_spec(g: Graphics) -> ProfileGraphics {
        profile_graphics_of(g)
    }
}

/// The schema and emulator spellings of graphics backends are in one-to-one correspondence.
pub proof fn lemma_graphics_bijection(g: Graphics, p: ProfileGraphics)
    ensures
        graphics_of(profile_graphics_of(g)) == g,
        profile_graphics_of(graphics_of(p)) == p,
{
}

/// Inline custom device geometry.
#[derive(Debug, Clone, PartialEq, Eq)]
pub struct CustomDevice {
    /// Screen width in pixels.
    pub width_px: u32,
    /// Screen height in pixels.
    pub height_px: u32,
    /// Screen density in dpi.
    pub density_dpi: u32,
    /// Physical diagonal in inches, as decimal text.
    pub diagonal_inches: Option<String>,
    /// Recommended RAM in MiB.
    pub ram_mb: Option<u32>,
}

/// Device section of a profile.
#[derive(Debug, Clone, PartialEq, Eq)]
pub struct ProfileDevice {
    /// Google device profile id (e.g. `pixel_6`), or `custom` when [`Self::custom`] is set.
    pub profile: String,
    /// Inline definition when `profile == "custom"`.
    pub custom: Option<CustomDevice>,
}

/// Image section of a profile.
#[derive(Debug, Clone, Copy, PartialEq, Eq, Hash, Structural)]
pub struct ProfileImage {
    /// Android API level.
    pub api: u32,
    /// Image type.
    pub image_type: ProfileImageType,
    /// CPU ABI.
    pub abi: Abi,
}

/// Hardware section of a profile.
#[derive(Debug, Clone, Copy, PartialEq, Eq, Hash, Structural)]
pub struct ProfileHardware {
    /// RAM in MiB.
    pub ram_mb: u32,
    /// Internal storage in GiB (the unit differs from [`Hardware::storage_mb`]).
    pub storage_gb: u32,
    /// Density override in dpi.
    pub dpi: Option<u32>,
    /// Graphics backend.
    pub graphics: ProfileGraphics,
    /// Quickboot snapshots enabled.
    pub snapshots: bool,
    /// Force cold boot.
    pub cold_boot: bool,
    /// Show the device frame.
    pub device_frame: bool,
}

/// Optional seeding section.
#[derive(Debug, Clone, PartialEq, Eq)]
pub struct ProfileSeed {
    /// APK file names the importer must supply separately (never embedded).
    pub apks: Vec<String>,
    /// Post-boot settings to apply.
    pub settings: Option<SeedSettings>,
}

/// Settings applied to the emulator after first boot.
#[derive(Debug, Clone, PartialEq, Eq)]
pub struct SeedSettings {
    /// Locale tag such as `en-US`.
    pub locale: Option<String>,
    /// Any other `key -> value` settings.
    pub extra: std::collections::BTreeMap<String, String>,
}

/// A shareable emulator recipe.
#[derive(Debug, Clone, PartialEq, Eq)]
pub struct EmuProfile {
    /// Must equal [`SCHEMA_VERSION`].
    pub schema_version: String,
    /// Free-form profile name.
    pub name: String,
    /// Always `"android"`; other values are rejected before a plan is produced.
    pub platform: String,
    /// Optional human description.
    pub description: Option<String>,
    /// Target device.
    pub device: ProfileDevice,
    /// Target system image.
    pub image: ProfileImage,
    /// Hardware knobs.
    pub hardware: ProfileHardware,
    /// Optional post-create seeding.
    pub seed: Option<ProfileSeed>,
}

/// What the checks and conversions of a profile read.
pub struct EmuProfileView {
    pub schema_version: Seq<char>,
    pub name: Seq<char>,
    pub platform: Seq<char>,
    pub description: Option<Seq<char>>,
    pub device_profile: Seq<char>,
    pub has_custom_device: bool,
    pub image: ProfileImage,
    pub hardware: ProfileHardware,
    pub has_seed: bool,
}

impl View for EmuProfile {
    type V = EmuProfileView;

    open spec fn view(&self) -> EmuProfileView {
        EmuProfileView {
            schema_version: self.schema_version@,
            name: self.name@,
            platform: self.platform@,
            description: crate::android::avd_list::opt_view(self.description),
            device_profile: self.device.profile@,
            has_custom_device: self.device.custom is Some,
            image: self.image,
            hardware: self.hardware,
            has_seed: self.seed is Some,
        }
    }
}

/// The checks a profile must pass, in order; the first failure is the outcome.
pub open spec fn validation_of(p: EmuProfileView) -> Result<(), (Seq<char>, Seq<char>)> {
    if p.schema_version != "1.0"@ {
        Err(
            (
                "emuprofile"@,
                "unsupported schemaVersion `"@ + p.schema_version + "` (expected `1.0`)"@,
            ),
        )
    } else if p.platform != "android"@ {
        Err(("emuprofile"@, "platform `"@ + p.platform + "` is not supported (android only)"@))
    } else if p.device_profile == "custom"@ && !p.has_custom_device {
        Err(("emuprofile"@, "device.profile is `custom` but device.custom is missing"@))
    } else {
        Ok(())
    }
}

/// The image coordinate a profile asks for.
pub open spec fn coord_of(p: EmuProfileView) -> ImageCoord {
    ImageCoord { api: p.image.api, image_type: image_type_of(p.image.image_type), abi: p.image.abi }
}

/// `a * b`, or `u32::MAX` when that does not fit.
pub open spec fn saturating_mul_u32(a: u32, b: u32) -> u32 {
    if a * b > u32::MAX {
        u32::MAX
    } else {
        (a * b) as u32
    }
}

/// A profile's hardware section as the domain's [`Hardware`] (GiB to MiB, saturating).
pub open spec fn hardware_of(hw: ProfileHardware) -> Hardware {
    Hardware {
        ram_mb: hw.ram_mb,
        storage_mb: saturating_mul_u32(hw.storage_gb, 1024),
        graphics: graphics_of(hw.graphics),
        snapshots: hw.snapshots,
        cold_boot: hw.cold_boot,
        device_frame: hw.device_frame,
        dpi_override: hw.dpi,
    }
}

/// The hardware section a recipe records for a domain [`Hardware`]: RAM at least 512 MiB,
/// storage rounded up to whole GiB and at least 2 GiB.
pub open spec fn profile_hardware_of(hw: Hardware) -> ProfileHardware {
    let gib = (hw.storage_mb as int + 1023) / 1024;
    ProfileHardware {
        ram_mb: if hw.ram_mb < 512 {
            512
        } else {
            hw.ram_mb
        },
        storage_gb: if gib < 2 {
            2
        } else {
            gib as u32
        },
        dpi: hw.dpi_override,
        graphics: profile_graphics_of(hw.graphics),
        snapshots: hw.snapshots,
        cold_boot: hw.cold_boot,
        device_frame: hw.device_frame,
    }
}

/// The recipe built from a name, device profile id, image, hardware and description.
pub open spec fn recipe_of(
    name: Seq<char>,
    device_profile_id: Seq<char>,
    coord: ImageCoord,
    hw: Hardware,
    description: Seq<char>,
) -> EmuProfileView {
    EmuProfileView {
        schema_version: "1.0"@,
        name,
        platform: "android"@,
        description: if description.len() == 0 {
            None
        } else {
            Some(description)
        },
        device_profile: if device_profile_id.len() == 0 {
            "pixel_6"@
        } else {
            device_profile_id
        },
        has_custom_device: false,
        image: ProfileImage {
            api: coord.api,
            image_type: profile_image_type_of(coord.image_type),
            abi: coord.abi,
        },
        hardware: profile_hardware_of(hw),
        has_seed: false,
    }
}

impl EmuProfile {
    /// `true` when this recipe targets Android.
    pub fn is_android(&self) -> (r: bool)
        ensures
            r == (self.platform@ == "android"@),
    {
        str_eq(self.platform.as_str(), "android")
    }

    /// Check the invariants the core owns (the structure is enforced at import); returns the
    /// first problem found.
    pub fn validate(&self) -> (r: Result<(), CoreError>)
        ensures
            checked_as(r, validation_of(self@)),
    {
        if !str_eq(self.schema_version.as_str(), SCHEMA_VERSION) {
            let d = cat3(
                "unsupported schemaVersion `",
                self.schema_version.as_str(),
                "` (expected `1.0`)",
            );
            return Err(CoreError::invalid("emuprofile", d.as_str()));
        }
        if !self.is_android() {
            let d = cat3("platform `", self.platform.as_str(), "` is not supported (android only)");
            return Err(CoreError::invalid("emuprofile", d.as_str()));
        }
        if str_eq(self.device.profile.as_str(), "custom") && self.device.custom.is_none() {
            return Err(
                CoreError::invalid(
                    "emuprofile",
                    "device.profile is `custom` but device.custom is missing",
                ),
            );
        }
        Ok(())
    }

    /// The system-image coordinate this recipe asks for.
    pub fn image_coord(&self) -> (r: ImageCoord)
        ensures
            r == coord_of(self@),
    {
        ImageCoord::new(self.image.api, ImageType::from(self.image.image_type), self.image.abi)
    }

    /// The recipe's hardware as the domain [`Hardware`] (GiB to MiB).
    pub fn hardware(&self) -> (r: Hardware)
        ensures
            r == hardware_of(self.hardware),
    {
        let hw = &self.hardware;
        let wide: u64 = (hw.storage_gb as u64) * 1024;
        let storage_mb: u32 = if wide > 0xffff_ffffu64 {
            0xffff_ffffu32
        } else {
            wide as u32
        };
        Hardware {
            ram_mb: hw.ram_mb,
            storage_mb,
            graphics: Graphics::from(hw.graphics),
            snapshots: hw.snapshots,
            cold_boot: hw.cold_boot,
            device_frame: hw.device_frame,
            dpi_override: hw.dpi,
        }
    }

    /// Build a recipe from a tracked emulator (the "Export profile" direction).
    pub fn from_emulator(e: &Emulator) -> (r: EmuProfile)
        ensures
            r@ == recipe_of(
                e.display_name@,
                e.device_profile_id@,
                e.image_coord,
                e.hardware,
                e.notes@,
            ),
    {
        Self::from_parts(
            e.display_name.as_str(),
            e.device_profile_id.as_str(),
            e.image_coord,
            &e.hardware,
            e.notes.clone(),
        )
    }

    /// Build a recipe from a create spec (the Create wizard's "Save as profile").
    pub fn from_create_spec(spec: &CreateSpec) -> (r: EmuProfile)
        ensures
            r@ == recipe_of(
                spec.display_name@,
                spec.device_profile_id@,
                spec.image_coord,
                spec.hardware,
                Seq::<char>::empty(),
            ),
    {
        Self::from_parts(
            spec.display_name.as_str(),
            spec.device_profile_id.as_str(),
            spec.image_coord,
            &spec.hardware,
            String::new(),
        )
    }

    /// The recipe for the given parts.
    pub fn from_parts(
        name: &str,
        device_profile_id: &str,
        coord: ImageCoord,
        hw: &Hardware,
        description: String,
    ) -> (r: EmuProfile)
        ensures
            r@ == recipe_of(name@, device_profile_id@, coord, *hw, description@),
    {
        let gib: u32 = if hw.storage_mb % 1024 == 0 {
            hw.storage_mb / 1024
        } else {
            hw.storage_mb / 1024 + 1
        };
        let profile = if device_profile_id.is_empty() {
            "pixel_6".to_owned()
        } else {
            device_profile_id.to_owned()
        };
        let description = if description.as_str().is_empty() {
            None
        } else {
            Some(description)
        };
        EmuProfile {
            schema_version: SCHEMA_VERSION.to_owned(),
            name: name.to_owned(),
            platform: "android".to_owned(),
            description,
            device: ProfileDevice { profile, custom: None },
            image: ProfileImage {
                api: coord.api,
                image_type: ProfileImageType::from(coord.image_type),
                abi: coord.abi,
            },
            hardware: ProfileHardware {
                ram_mb: if hw.ram_mb < 512 {
                    512
                } else {
                    hw.ram_mb
                },
                storage_gb: if gib < 2 {
                    2
                } else {
                    gib
                },
                dpi: hw.dpi_override,
                graphics: ProfileGraphics::from(hw.graphics),
                snapshots: hw.snapshots,
                cold_boot: hw.cold_boot,
                device_frame: hw.device_frame,
            },
            seed: None,
        }
    }
}

/// Exporting a recipe keeps the image: the exported recipe asks for the same coordinate.
pub proof fn lemma_export_keeps_image(
    name: Seq<char>,
    device_profile_id: Seq<char>,
    coord: ImageCoord,
    hw: Hardware,
    description: Seq<char>,
)
    ensures
        coord_of(recipe_of(name, device_profile_id, coord, hw, description)) == coord,
{
    lemma_image_type_bijection(coord.image_type, ProfileImageType::Default);
}

/// Exporting a recipe keeps the hardware when the hardware is already in the recipe's units:
/// RAM of at least 512 MiB and storage a whole number of GiB, at least 2.
pub proof fn lemma_export_keeps_hardware(
    name: Seq<char>,
    device_profile_id: Seq<char>,
    coord: ImageCoord,
    hw: Hardware,
    description: Seq<char>,
)
    requires
        hw.ram_mb >= 512,
        hw.storage_mb % 1024 == 0,
        hw.storage_mb >= 2048,
    ensures
        hardware_of(recipe_of(name, device_profile_id, coord, hw, description).hardware) == hw,
{
    lemma_graphics_bijection(hw.graphics, ProfileGraphics::Auto);
    let gib = (hw.storage_mb as int + 1023) / 1024;
    assert(gib == hw.storage_mb / 1024);
    assert(gib * 1024 == hw.storage_mb);
}

/// An exported recipe passes validation, unless the emulator's device profile id is the
/// literal `custom` (a recipe never carries a custom device definition).
pub proof fn lemma_export_validates(
    name: Seq<char>,
    device_profile_id: Seq<char>,
    coord: ImageCoord,
    hw: Hardware,
    description: Seq<char>,
)
    ensures
        (validation_of(recipe_of(name, device_profile_id, coord, hw, description)) is Ok) <==> (
        device_profile_id != "custom"@),
{
    reveal_strlit("custom");
    reveal_strlit("pixel_6");
    assert("pixel_6"@ != "custom"@) by {
        assert("pixel_6"@.len() != "custom"@.len());
    }
}

} // verus!
