//! Emulator Studio core library: domain model, parsers for the Android SDK tools' output, and
//! the decision logic behind provisioning, launching and tracking Android emulators.

pub mod android;
pub mod error;
pub mod helper;
pub mod host;
pub mod ipc;
pub mod model;
pub mod ports;
pub mod profile;
pub mod registry;
pub mod text;
pub mod toolchain;
pub mod xml;
