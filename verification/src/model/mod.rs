//! Domain entities: plain data describing images, emulators, hosts, jobs, plans and profiles.

pub mod component;
pub mod device;
pub mod emulator;
pub mod host;
pub mod image;
pub mod job;
pub mod plan;
pub mod profile;
