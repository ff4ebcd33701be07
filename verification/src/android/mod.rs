//! Everything that reads the Android SDK tools' output and files: AVD listings, device
//! definitions, system-image manifests, the component catalog and the emulator provider.

pub mod avd_list;
pub mod inspect;
pub mod avd_config;
pub mod provider;
pub mod sysimg;
pub mod catalog;
pub mod devices;
