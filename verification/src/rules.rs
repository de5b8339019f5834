//! The two catalogues that processes are classified against.

pub mod process_rules;
pub mod project_detector;
