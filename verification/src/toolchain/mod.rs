//! The toolchain: what SDK components are installed and where, and the decisions behind
//! installing and removing them.

pub mod installed_state;
pub mod bootstrap;
pub mod cmdline_zip;
pub mod uninstall;
