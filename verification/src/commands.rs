//! The rules behind the commands that a front end calls: what the text of a
//! system query says, and whether a process may be stopped.

pub mod process_analyzer;
pub mod shell_commands;
pub mod system_info;
