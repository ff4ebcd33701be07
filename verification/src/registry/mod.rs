//! The registry's records: metadata about tracked emulators.

pub mod row;
