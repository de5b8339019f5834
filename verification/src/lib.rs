//! Correlates listening TCP ports with the processes that own them and
//! classifies each process against catalogues of known applications.
//!
//! The heart of the crate is the port monitor (`monitor::port`): it reads a
//! listing of network connections line by line, looks up the process behind
//! each listening TCP port, recognises the project that the process serves
//! (`rules::project_detector`) and suggests what can be done with it, by the
//! rule catalogue (`rules::process_rules`) where that names the process and
//! by the process name alone where it does not.
//!
//! Around it stand the Docker monitor and the file monitor (`monitor`), the
//! readers of the text that system queries answer with (`commands`), and the
//! text primitives that all of them are built from (`text`).
//!
//! Every function states what it returns over sequences of characters and
//! other mathematical values, and is proved to meet that statement. What
//! holds of several functions together is stated and proved in `laws` and
//! `text_laws`. The calls into `sysinfo` and into the path and letter-case
//! functions of std stand in `monitor::process_table`, `paths` and `casing`;
//! their contracts are taken on trust.

pub mod casing;
pub mod commands;
pub mod laws;
pub mod monitor;
pub mod paths;
pub mod records;
pub mod rules;
pub mod text;
pub mod text_laws;
pub mod utils;
