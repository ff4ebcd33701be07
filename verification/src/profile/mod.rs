//! The profile engine: resolving a recipe against the local install state into a runnable
//! plan. The reverse direction (exporting a tracked emulator as a recipe) lives on the recipe
//! type itself.

pub mod resolve;
