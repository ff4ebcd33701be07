//! Plain data exchanged with the desktop shell, and the mapping of library errors onto it.

pub mod commands;
pub mod diagnostics;
pub mod dto;
pub mod helper_run;
pub mod listing;
pub mod profile_cmd;
pub mod saved;
pub mod toolchain_cmd;
pub mod error;
