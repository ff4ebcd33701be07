//! Device hardware profiles (Google-provided or user-created).

use vstd::prelude::*;

verus! {

/// Physical class of device; it decides which system images and hardware options make sense.
#[derive(Debug, Clone, Copy, PartialEq, Eq, Hash, Structural)]
pub enum FormFactor {
    /// Handset.
    Phone,
    /// Tablet.
    Tablet,
    /// Foldable handset.
    Foldable,
    /// Wear OS.
    Wear,
    /// Android TV.
    Tv,
    /// Android Automotive.
    Automotive,
    /// Desktop / freeform.
    Desktop,
}

/// Screen geometry of a [`DeviceProfile`].
#[derive(Debug, Clone, PartialEq, Eq)]
pub struct Screen {
    /// Width in pixels.
    pub width_px: u32,
    /// Height in pixels.
    pub height_px: u32,
    /// Density in dots per inch (the `-dpi` bucket, e.g. 420).
    pub density_dpi: u32,
    /// Physical diagonal in inches, as the decimal text the definition gives (e.g. `"6.4"`).
    pub diagonal_in: String,
}

/// A device hardware profile.
#[derive(Debug, Clone, PartialEq, Eq)]
pub struct DeviceProfile {
    /// Stable id, e.g. `pixel_6`.
    pub id: String,
    /// Human name, e.g. `Pixel 6`.
    pub display_name: String,
    /// Manufacturer label (e.g. `Google`); empty when unknown.
    pub oem: String,
    /// Device class.
    pub form_factor: FormFactor,
    /// Screen geometry.
    pub screen: Screen,
    /// Manufacturer-recommended RAM in MiB.
    pub default_ram_mb: u32,
    /// Sensor ids the profile advertises (e.g. `accelerometer`).
    pub sensors: Vec<String>,
    /// `true` when the user created this profile rather than Google.
    pub is_custom: bool,
}

/// The contents of a [`Screen`].
pub struct ScreenView {
    pub width_px: u32,
    pub height_px: u32,
    pub density_dpi: u32,
    pub diagonal_in: Seq<char>,
}

impl View for Screen {
    type V = ScreenView;

    open spec fn view(&self) -> ScreenView {
        ScreenView {
            width_px: self.width_px,
            height_px: self.height_px,
            density_dpi: self.density_dpi,
            diagonal_in: self.diagonal_in@,
        }
    }
}

/// The contents of a [`DeviceProfile`].
pub struct DeviceProfileView {
    pub id: Seq<char>,
    pub display_name: Seq<char>,
    pub oem: Seq<char>,
    pub form_factor: FormFactor,
    pub screen: ScreenView,
    pub default_ram_mb: u32,
    pub sensors: Seq<Seq<char>>,
    pub is_custom: bool,
}

impl View for DeviceProfile {
    type V = DeviceProfileView;

    open spec fn view(&self) -> DeviceProfileView {
        DeviceProfileView {
            id: self.id@,
            display_name: self.display_name@,
            oem: self.oem@,
            form_factor: self.form_factor,
            screen: self.screen@,
            default_ram_mb: self.default_ram_mb,
            sensors: crate::ports::string_views(self.sensors@),
            is_custom: self.is_custom,
        }
    }
}

} // verus!
