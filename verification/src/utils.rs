//! Small helpers on process names.

pub mod process_utils;
