//! Whether a process may be stopped.

use crate::utils::process_utils::{is_system_name, is_system_process};
use vstd::prelude::*;

verus! {

/// Why the process called `name` may not be stopped; `None` where it may. A
/// process that was not found has no name.
pub open spec fn kill_refusal(name: Option<Seq<char>>) -> Option<Seq<char>> {
    match name {
        None => Some("进程不存在"@),
        Some(n) => if is_system_name(n) {
            Some(n + "是系统关键进程，终止可能导致系统不稳定"@)
        } else {
            None
        },
    }
}

/// The text of an optional name.
pub open spec fn optional_name(name: Option<&str>) -> Option<Seq<char>> {
    match name {
        Some(n) => Some(n@),
        None => None,
    }
}

/// Whether the process called `name` may be stopped: a process that was not
/// found cannot be, and a core process of the operating system must not be.
/// The error says which of the two holds.
pub fn kill_permission(name: Option<&str>) -> (r: Result<(), String>)
    ensures
        match r {
            Ok(_) => kill_refusal(optional_name(name)) is None,
            Err(message) => kill_refusal(optional_name(name)) == Some(message@),
        },
{
    match name {
        None => Err("进程不存在".to_string()),
        Some(n) => {
            if is_system_process(n) {
                let mut message = n.to_string();
                message.append("是系统关键进程，终止可能导致系统不稳定");
                Err(message)
            } else {
                Ok(())
            }
        },
    }
}

} // verus!
