//! The file monitor: says which application is taken to hold a file open, why
//! that matters and what can be done about it.
//!
//! Which application holds a file is not asked of the operating system: it is
//! taken from the extension of the file's name.

use crate::monitor::process_table::{new_system, refresh_system};
use crate::paths::{extension_of, file_name_of, path_extension, path_file_name};
use crate::records::optional_text;
use crate::text::{chars_are, decimal, decimal_text, to_chars};
use vstd::prelude::*;

verus! {

/// A process that holds a file open.
#[derive(Clone, Debug, PartialEq, Eq)]
pub struct ProcessInfo {
    pub pid: u32,
    pub name: String,
    pub friendly_name: String,
    pub exe_path: Option<String>,
}

/// The mathematical content of a `ProcessInfo`.
pub struct ProcessInfoView {
    pub pid: u32,
    pub name: Seq<char>,
    pub friendly_name: Seq<char>,
    pub exe_path: Option<Seq<char>>,
}

impl View for ProcessInfo {
    type V = ProcessInfoView;

    open spec fn view(&self) -> ProcessInfoView {
        ProcessInfoView {
            pid: self.pid,
            name: self.name@,
            friendly_name: self.friendly_name@,
            exe_path: optional_text(self.exe_path),
        }
    }
}

impl DeepView for ProcessInfo {
    type V = ProcessInfoView;

    open spec fn deep_view(&self) -> ProcessInfoView {
        self@
    }
}

/// One way to free a file.
#[derive(Clone, Debug, PartialEq, Eq)]
pub struct Solution {
    pub action: String,
    pub description: String,
    pub risk_level: String,
    pub command: Option<String>,
}

/// The mathematical content of a `Solution`.
pub struct SolutionView {
    pub action: Seq<char>,
    pub description: Seq<char>,
    pub risk_level: Seq<char>,
    pub command: Option<Seq<char>>,
}

impl View for Solution {
    type V = SolutionView;

    open spec fn view(&self) -> SolutionView {
        SolutionView {
            action: self.action@,
            description: self.description@,
            risk_level: self.risk_level@,
            command: optional_text(self.command),
        }
    }
}

impl DeepView for Solution {
    type V = SolutionView;

    open spec fn deep_view(&self) -> SolutionView {
        self@
    }
}

/// A file that is held open, with the processes that hold it and what can be
/// done.
#[derive(Clone, Debug, PartialEq, Eq)]
pub struct FileOccupancy {
    pub file_path: String,
    pub file_name: String,
    pub occupied_by: Vec<ProcessInfo>,
    pub reason: String,
    pub impact: String,
    pub solutions: Vec<Solution>,
}

/// The mathematical content of a `FileOccupancy`.
pub struct FileOccupancyView {
    pub file_path: Seq<char>,
    pub file_name: Seq<char>,
    pub occupied_by: Seq<ProcessInfoView>,
    pub reason: Seq<char>,
    pub impact: Seq<char>,
    pub solutions: Seq<SolutionView>,
}

impl View for FileOccupancy {
    type V = FileOccupancyView;

    open spec fn view(&self) -> FileOccupancyView {
        FileOccupancyView {
            file_path: self.file_path@,
            file_name: self.file_name@,
            occupied_by: self.occupied_by.deep_view(),
            reason: self.reason@,
            impact: self.impact@,
            solutions: self.solutions.deep_view(),
        }
    }
}

/// The view of an optional occupancy.
pub open spec fn optional_occupancy(o: Option<FileOccupancy>) -> Option<FileOccupancyView> {
    match o {
        Some(f) => Some(f@),
        None => None,
    }
}

/// The process that is taken to hold a file of the given extension: a PDF
/// reader, a word processor or a spreadsheet, each under a made-up process id;
/// none for any other extension.
pub open spec fn holder_of(extension: Seq<char>) -> Option<ProcessInfoView> {
    if extension == "pdf"@ {
        Some(
            ProcessInfoView {
                pid: 9999,
                name: "AcroRd32.exe"@,
                friendly_name: "Adobe Acrobat Reader"@,
                exe_path: Some(
                    "C:\\Program Files (x86)\\Adobe\\Acrobat Reader DC\\Reader\\AcroRd32.exe"@,
                ),
            },
        )
    } else if extension == "docx"@ || extension == "doc"@ {
        Some(
            ProcessInfoView {
                pid: 9998,
                name: "WINWORD.EXE"@,
                friendly_name: "Microsoft Word"@,
                exe_path: Some("C:\\Program Files\\Microsoft Office\\root\\Office16\\WINWORD.EXE"@),
            },
        )
    } else if extension == "xlsx"@ || extension == "xls"@ {
        Some(
            ProcessInfoView {
                pid: 9997,
                name: "EXCEL.EXE"@,
                friendly_name: "Microsoft Excel"@,
                exe_path: Some("C:\\Program Files\\Microsoft Office\\root\\Office16\\EXCEL.EXE"@),
            },
        )
    } else {
        None
    }
}

/// The command that stops the process `pid` by force.
pub open spec fn force_command(pid: u32) -> Seq<char> {
    "taskkill /F /PID "@ + decimal(pid as nat)
}

/// A way to free a file by closing the application in the ordinary way.
pub open spec fn gentle(action: Seq<char>, description: Seq<char>) -> SolutionView {
    SolutionView { action, description, risk_level: "低"@, command: None }
}

/// A way to free a file by stopping the process `pid` by force.
pub open spec fn forced(description: Seq<char>, risk_level: Seq<char>, pid: u32) -> SolutionView {
    SolutionView {
        action: "强制关闭"@,
        description,
        risk_level,
        command: Some(force_command(pid)),
    }
}

/// Why a file cannot be changed while `processes` hold it, how bad that is,
/// and what can be done: all three go by the first of the processes.
pub open spec fn advice(processes: Seq<ProcessInfoView>) -> (
    Seq<char>,
    Seq<char>,
    Seq<SolutionView>,
) {
    if processes.len() == 0 {
        ("未知原因"@, "Low"@, Seq::empty())
    } else {
        let first = processes[0];
        if first.name == "AcroRd32.exe"@ {
            (
                "文件正在被PDF阅读器查看，无法删除或移动"@,
                "Medium"@,
                seq![
                    gentle("关闭PDF阅读器"@, "关闭Adobe Acrobat Reader后再进行文件操作"@),
                    forced("强制终止Adobe Reader进程，可能导致未保存的更改丢失"@, "中"@, first.pid),
                ],
            )
        } else if first.name == "WINWORD.EXE"@ {
            (
                "文件正在被Microsoft Word编辑，无法删除或移动"@,
                "High"@,
                seq![
                    gentle("保存并关闭Word"@, "在Word中保存文档并关闭后再进行文件操作"@),
                    forced("强制终止Word进程，可能导致未保存的更改丢失"@, "高"@, first.pid),
                ],
            )
        } else if first.name == "EXCEL.EXE"@ {
            (
                "文件正在被Microsoft Excel编辑，无法删除或移动"@,
                "High"@,
                seq![
                    gentle("保存并关闭Excel"@, "在Excel中保存文档并关闭后再进行文件操作"@),
                    forced("强制终止Excel进程，可能导致未保存的更改丢失"@, "高"@, first.pid),
                ],
            )
        } else {
            (
                "文件正在被"@ + first.friendly_name + "使用，无法删除或移动"@,
                "Medium"@,
                seq![
                    gentle("关闭应用"@, "关闭"@ + first.friendly_name + "后再进行文件操作"@),
                    forced(
                        "强制终止"@ + first.friendly_name + "进程，可能导致未保存的更改丢失"@,
                        "中"@,
                        first.pid,
                    ),
                ],
            )
        }
    }
}

/// What is said of the file at `file_path` whose name and extension are as
/// given: nothing where no application is taken to hold it. A file without a
/// name goes under the name `unknown`.
pub open spec fn occupancy(
    file_path: Seq<char>,
    file_name: Option<Seq<char>>,
    extension: Option<Seq<char>>,
) -> Option<FileOccupancyView> {
    let shown = match file_name {
        Some(name) => name,
        None => "unknown"@,
    };
    let suffix = match extension {
        Some(e) => e,
        None => Seq::empty(),
    };
    match holder_of(suffix) {
        Some(holder) => Some(
            FileOccupancyView {
                file_path,
                file_name: shown,
                occupied_by: seq![holder],
                reason: advice(seq![holder]).0,
                impact: advice(seq![holder]).1,
                solutions: advice(seq![holder]).2,
            },
        ),
        None => None,
    }
}

fn new_process(pid: u32, name: &str, friendly_name: &str, exe_path: &str) -> (r: ProcessInfo)
    ensures
        r@ == (ProcessInfoView {
            pid,
            name: name@,
            friendly_name: friendly_name@,
            exe_path: Some(exe_path@),
        }),
{
    ProcessInfo {
        pid,
        name: name.to_string(),
        friendly_name: friendly_name.to_string(),
        exe_path: Some(exe_path.to_string()),
    }
}

fn gentle_solution(action: &str, description: String) -> (r: Solution)
    ensures
        r@ == gentle(action@, description@),
{
    Solution { action: action.to_string(), description, risk_level: "低".to_string(), command: None }
}

fn forced_solution(description: String, risk_level: &str, pid: u32) -> (r: Solution)
    ensures
        r@ == forced(description@, risk_level@, pid),
{
    let mut command = "taskkill /F /PID ".to_string();
    let digits = decimal_text(pid);
    command.append(digits.as_str());
    Solution {
        action: "强制关闭".to_string(),
        description,
        risk_level: risk_level.to_string(),
        command: Some(command),
    }
}

fn two_solutions(first: Solution, second: Solution) -> (out: Vec<Solution>)
    ensures
        out.deep_view() == seq![first@, second@],
{
    let mut out: Vec<Solution> = Vec::new();
    out.push(first);
    out.push(second);
    assert(out.deep_view() =~= seq![first@, second@]);
    out
}

fn around(before: &str, middle: &str, after: &str) -> (out: String)
    ensures
        out@ == before@ + middle@ + after@,
{
    let mut out = before.to_string();
    out.append(middle);
    out.append(after);
    out
}

/// The process that is taken to hold a file of the given extension.
pub fn holder_for(extension: &str) -> (r: Option<ProcessInfo>)
    ensures
        r is Some == holder_of(extension@) is Some,
        r matches Some(p) ==> holder_of(extension@) == Some(p@),
{
    let chars = to_chars(extension);
    if chars_are(&chars, "pdf") {
        Some(
            new_process(
                9999,
                "AcroRd32.exe",
                "Adobe Acrobat Reader",
                "C:\\Program Files (x86)\\Adobe\\Acrobat Reader DC\\Reader\\AcroRd32.exe",
            ),
        )
    } else if chars_are(&chars, "docx") || chars_are(&chars, "doc") {
        Some(
            new_process(
                9998,
                "WINWORD.EXE",
                "Microsoft Word",
                "C:\\Program Files\\Microsoft Office\\root\\Office16\\WINWORD.EXE",
            ),
        )
    } else if chars_are(&chars, "xlsx") || chars_are(&chars, "xls") {
        Some(
            new_process(
                9997,
                "EXCEL.EXE",
                "Microsoft Excel",
                "C:\\Program Files\\Microsoft Office\\root\\Office16\\EXCEL.EXE",
            ),
        )
    } else {
        None
    }
}

/// The file monitor.
pub struct FileMonitor {
    system: sysinfo::System,
}

impl FileMonitor {
    /// A file monitor with a process table captured now.
    pub fn new() -> Self {
        FileMonitor { system: new_system() }
    }

    /// Captures the process table anew.
    pub fn refresh(&mut self) {
        refresh_system(&mut self.system);
    }

    /// Why a file cannot be changed while `processes` hold it, how bad that
    /// is, and what can be done.
    pub fn generate_reason_and_solutions(&self, _file_path: &str, processes: &Vec<ProcessInfo>) -> (r:
        (String, String, Vec<Solution>))
        ensures
            (r.0@, r.1@, r.2.deep_view()) == advice(processes.deep_view()),
    {
        if processes.len() == 0 {
            let none: Vec<Solution> = Vec::new();
            assert(none.deep_view() =~= Seq::<SolutionView>::empty());
            return ("未知原因".to_string(), "Low".to_string(), none);
        }
        let first: &ProcessInfo = &processes[0];
        assert(processes.deep_view()[0] == first@);
        let name = to_chars(first.name.as_str());
        if chars_are(&name, "AcroRd32.exe") {
            (
                "文件正在被PDF阅读器查看，无法删除或移动".to_string(),
                "Medium".to_string(),
                two_solutions(
                    gentle_solution(
                        "关闭PDF阅读器",
                        "关闭Adobe Acrobat Reader后再进行文件操作".to_string(),
                    ),
                    forced_solution(
                        "强制终止Adobe Reader进程，可能导致未保存的更改丢失".to_string(),
                        "中",
                        first.pid,
                    ),
                ),
            )
        } else if chars_are(&name, "WINWORD.EXE") {
            (
                "文件正在被Microsoft Word编辑，无法删除或移动".to_string(),
                "High".to_string(),
                two_solutions(
                    gentle_solution(
                        "保存并关闭Word",
                        "在Word中保存文档并关闭后再进行文件操作".to_string(),
                    ),
                    forced_solution(
                        "强制终止Word进程，可能导致未保存的更改丢失".to_string(),
                        "高",
                        first.pid,
                    ),
                ),
            )
        } else if chars_are(&name, "EXCEL.EXE") {
            (
                "文件正在被Microsoft Excel编辑，无法删除或移动".to_string(),
                "High".to_string(),
                two_solutions(
                    gentle_solution(
                        "保存并关闭Excel",
                        "在Excel中保存文档并关闭后再进行文件操作".to_string(),
                    ),
                    forced_solution(
                        "强制终止Excel进程，可能导致未保存的更改丢失".to_string(),
                        "高",
                        first.pid,
                    ),
                ),
            )
        } else {
            let friendly: &str = first.friendly_name.as_str();
            (
                around("文件正在被", friendly, "使用，无法删除或移动"),
                "Medium".to_string(),
                two_solutions(
                    gentle_solution("关闭应用", around("关闭", friendly, "后再进行文件操作")),
                    forced_solution(
                        around("强制终止", friendly, "进程，可能导致未保存的更改丢失"),
                        "中",
                        first.pid,
                    ),
                ),
            )
        }
    }

    /// What is said of the file at `file_path` whose name and extension are
    /// as given.
    pub fn occupancy_of(
        &self,
        file_path: &str,
        file_name: Option<String>,
        extension: Option<String>,
    ) -> (r: Option<FileOccupancy>)
        ensures
            optional_occupancy(r) == occupancy(
                file_path@,
                optional_text(file_name),
                optional_text(extension),
            ),
    {
        let shown: String = match file_name {
            Some(name) => name,
            None => "unknown".to_string(),
        };
        proof {
            reveal_strlit("");
            assert(""@ =~= Seq::<char>::empty());
        }
        let holder: Option<ProcessInfo> = match &extension {
            Some(e) => holder_for(e.as_str()),
            None => holder_for(""),
        };
        match holder {
            Some(process) => {
                let mut processes: Vec<ProcessInfo> = Vec::new();
                processes.push(process);
                assert(processes.deep_view() =~= seq![process@]);
                let (reason, impact, solutions) = self.generate_reason_and_solutions(
                    file_path,
                    &processes,
                );
                Some(
                    FileOccupancy {
                        file_path: file_path.to_string(),
                        file_name: shown,
                        occupied_by: processes,
                        reason,
                        impact,
                        solutions,
                    },
                )
            },
            None => None,
        }
    }

    /// What is said of the file at `file_path`: its name and its extension
    /// are those that the path shows.
    pub fn detect_file_occupancy(&self, file_path: &str) -> (r: Option<FileOccupancy>)
        ensures
            optional_occupancy(r) == occupancy(
                file_path@,
                path_file_name(file_path@),
                path_extension(file_path@),
            ),
    {
        let file_name = file_name_of(file_path);
        let extension = extension_of(file_path);
        self.occupancy_of(file_path, file_name, extension)
    }

    /// Captures the process table anew and says what holds the file at
    /// `file_path`. Of a file that is not there nothing is said; whether it is
    /// there is for the caller to find out.
    pub fn check_file_occupancy(&mut self, file_path: &str, present: bool) -> (r: Option<
        FileOccupancy,
    >)
        ensures
            present ==> optional_occupancy(r) == occupancy(
                file_path@,
                path_file_name(file_path@),
                path_extension(file_path@),
            ),
            !present ==> r is None,
    {
        self.refresh();
        if !present {
            return None;
        }
        self.detect_file_occupancy(file_path)
    }
}

} // verus!
