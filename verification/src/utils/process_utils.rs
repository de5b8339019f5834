//! What is known of a process by its name alone: the name under which it is
//! shown, and whether it belongs to the operating system.

use crate::monitor::process_table::{new_process_system, process_names, refresh_processes};
use crate::text::{chars_are, to_chars};
use std::collections::HashMap;
use vstd::prelude::*;

verus! {

/// The name under which the process called `name` is shown: the application's
/// name for a well-known process, `name` itself for any other.
pub open spec fn friendly_name(name: Seq<char>) -> Seq<char> {
    if name == "chrome.exe"@ {
        "Google Chrome浏览器"@
    } else if name == "firefox.exe"@ {
        "Mozilla Firefox浏览器"@
    } else if name == "msedge.exe"@ {
        "Microsoft Edge浏览器"@
    } else if name == "node.exe"@ {
        "Node.js"@
    } else if name == "java.exe"@ {
        "Java应用"@
    } else if name == "python.exe"@ {
        "Python应用"@
    } else if name == "mysqld.exe"@ {
        "MySQL数据库"@
    } else if name == "postgres.exe"@ {
        "PostgreSQL数据库"@
    } else if name == "mongod.exe"@ {
        "MongoDB数据库"@
    } else if name == "docker.exe"@ {
        "Docker引擎"@
    } else if name == "docker-proxy.exe"@ {
        "Docker容器"@
    } else if name == "svchost.exe"@ {
        "Windows系统服务"@
    } else if name == "System"@ {
        "Windows系统"@
    } else if name == "WINWORD.EXE"@ {
        "Microsoft Word"@
    } else if name == "EXCEL.EXE"@ {
        "Microsoft Excel"@
    } else if name == "POWERPNT.EXE"@ {
        "Microsoft PowerPoint"@
    } else if name == "AcroRd32.exe"@ {
        "Adobe Acrobat Reader"@
    } else if name == "explorer.exe"@ {
        "Windows资源管理器"@
    } else if name == "vlc.exe"@ {
        "VLC媒体播放器"@
    } else {
        name
    }
}

/// Whether `name` is the exact name of a core process of the operating
/// system.
pub open spec fn is_system_name(name: Seq<char>) -> bool {
    ||| name == "svchost.exe"@
    ||| name == "System"@
    ||| name == "smss.exe"@
    ||| name == "csrss.exe"@
    ||| name == "wininit.exe"@
    ||| name == "services.exe"@
    ||| name == "lsass.exe"@
    ||| name == "winlogon.exe"@
    ||| name == "spoolsv.exe"@
    ||| name == "explorer.exe"@
    ||| name == "dwm.exe"@
    ||| name == "taskhost.exe"@
    ||| name == "taskhostw.exe"@
    ||| name == "RuntimeBroker.exe"@
    ||| name == "ShellExperienceHost.exe"@
    ||| name == "SearchUI.exe"@
    ||| name == "sihost.exe"@
    ||| name == "ctfmon.exe"@
    ||| name == "conhost.exe"@
    ||| name == "dllhost.exe"@
    ||| name == "fontdrvhost.exe"@
    ||| name == "Registry"@
    ||| name == "Idle"@
    ||| name == "Secure System"@
    ||| name == "Memory Compression"@
}

/// The name under which the process called `process_name` is shown.
pub fn get_friendly_process_name(process_name: &str) -> (r: String)
    ensures
        r@ == friendly_name(process_name@),
{
    let name = to_chars(process_name);
    if chars_are(&name, "chrome.exe") {
        "Google Chrome浏览器".to_string()
    } else if chars_are(&name, "firefox.exe") {
        "Mozilla Firefox浏览器".to_string()
    } else if chars_are(&name, "msedge.exe") {
        "Microsoft Edge浏览器".to_string()
    } else if chars_are(&name, "node.exe") {
        "Node.js".to_string()
    } else if chars_are(&name, "java.exe") {
        "Java应用".to_string()
    } else if chars_are(&name, "python.exe") {
        "Python应用".to_string()
    } else if chars_are(&name, "mysqld.exe") {
        "MySQL数据库".to_string()
    } else if chars_are(&name, "postgres.exe") {
        "PostgreSQL数据库".to_string()
    } else if chars_are(&name, "mongod.exe") {
        "MongoDB数据库".to_string()
    } else if chars_are(&name, "docker.exe") {
        "Docker引擎".to_string()
    } else if chars_are(&name, "docker-proxy.exe") {
        "Docker容器".to_string()
    } else if chars_are(&name, "svchost.exe") {
        "Windows系统服务".to_string()
    } else if chars_are(&name, "System") {
        "Windows系统".to_string()
    } else if chars_are(&name, "WINWORD.EXE") {
        "Microsoft Word".to_string()
    } else if chars_are(&name, "EXCEL.EXE") {
        "Microsoft Excel".to_string()
    } else if chars_are(&name, "POWERPNT.EXE") {
        "Microsoft PowerPoint".to_string()
    } else if chars_are(&name, "AcroRd32.exe") {
        "Adobe Acrobat Reader".to_string()
    } else if chars_are(&name, "explorer.exe") {
        "Windows资源管理器".to_string()
    } else if chars_are(&name, "vlc.exe") {
        "VLC媒体播放器".to_string()
    } else {
        process_name.to_string()
    }
}

/// Whether `process_name` is the exact name of a core process of the
/// operating system.
pub fn is_system_process(process_name: &str) -> (r: bool)
    ensures
        r == is_system_name(process_name@),
{
    let name = to_chars(process_name);
    if chars_are(&name, "svchost.exe") {
        return true;
    }
    if chars_are(&name, "System") {
        return true;
    }
    if chars_are(&name, "smss.exe") {
        return true;
    }
    if chars_are(&name, "csrss.exe") {
        return true;
    }
    if chars_are(&name, "wininit.exe") {
        return true;
    }
    if chars_are(&name, "services.exe") {
        return true;
    }
    if chars_are(&name, "lsass.exe") {
        return true;
    }
    if chars_are(&name, "winlogon.exe") {
        return true;
    }
    if chars_are(&name, "spoolsv.exe") {
        return true;
    }
    if chars_are(&name, "explorer.exe") {
        return true;
    }
    if chars_are(&name, "dwm.exe") {
        return true;
    }
    if chars_are(&name, "taskhost.exe") {
        return true;
    }
    if chars_are(&name, "taskhostw.exe") {
        return true;
    }
    if chars_are(&name, "RuntimeBroker.exe") {
        return true;
    }
    if chars_are(&name, "ShellExperienceHost.exe") {
        return true;
    }
    if chars_are(&name, "SearchUI.exe") {
        return true;
    }
    if chars_are(&name, "sihost.exe") {
        return true;
    }
    if chars_are(&name, "ctfmon.exe") {
        return true;
    }
    if chars_are(&name, "conhost.exe") {
        return true;
    }
    if chars_are(&name, "dllhost.exe") {
        return true;
    }
    if chars_are(&name, "fontdrvhost.exe") {
        return true;
    }
    if chars_are(&name, "Registry") {
        return true;
    }
    if chars_are(&name, "Idle") {
        return true;
    }
    if chars_are(&name, "Secure System") {
        return true;
    }
    if chars_are(&name, "Memory Compression") {
        return true;
    }
    false
}

/// The map that the pairs of id and name make when they are entered in
/// order: of two pairs with one id, the later one stays.
pub open spec fn names_by_pid(entries: Seq<(u32, String)>) -> Map<u32, String>
    decreases entries.len(),
{
    if entries.len() == 0 {
        Map::empty()
    } else {
        names_by_pid(entries.drop_last()).insert(entries.last().0, entries.last().1)
    }
}

/// The map from process id to process name that `entries` make.
pub fn name_map_of(entries: Vec<(u32, String)>) -> (map: HashMap<u32, String>)
    ensures
        map@ == names_by_pid(entries@),
{
    broadcast use vstd::std_specs::hash::group_hash_axioms;

    let mut map: HashMap<u32, String> = HashMap::new();
    let mut i: usize = 0;
    while i < entries.len()
        invariant
            i <= entries.len(),
            map@ == names_by_pid(entries@.take(i as int)),
        decreases entries.len() - i,
    {
        assert(entries@.take(i + 1).drop_last() == entries@.take(i as int));
        map.insert(entries[i].0, entries[i].1.clone());
        i += 1;
    }
    assert(entries@.take(entries.len() as int) == entries@);
    map
}

/// The names of the processes that run now, by process id. What the map
/// holds is the operating system's to say; it is built by `name_map_of` from
/// the processes found.
pub fn get_process_name_map() -> HashMap<u32, String> {
    let mut system = new_process_system();
    refresh_processes(&mut system);
    name_map_of(process_names(&system))
}

} // verus!
