//! The monitors: listening ports with the processes behind them, Docker
//! containers with the ports that they publish, and files with the
//! applications that hold them.

pub mod docker;
pub mod file;
pub mod port;
pub mod process_table;
