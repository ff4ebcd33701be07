//! Host capability assessment: the signals a probe gathers and the report derived from them.

pub mod report;
pub mod signals;
