//! The records that a port query works with: the process that owns a port, the
//! project it was recognised as, and the actions suggested for it.

use vstd::prelude::*;

verus! {

/// How much harm a suggested action can do.
#[derive(Clone, Copy, Debug, PartialEq, Eq, Structural)]
pub enum RiskLevel {
    NoRisk,
    Low,
    Medium,
    High,
}

/// A process as the process table showed it at the last refresh.
#[derive(Clone, Debug, PartialEq, Eq)]
pub struct ProcessInfo {
    pub pid: u32,
    pub name: String,
    pub exe_path: Option<String>,
    pub cmd: Vec<String>,
}

/// The mathematical content of a `ProcessInfo`.
pub struct ProcessInfoView {
    pub pid: u32,
    pub name: Seq<char>,
    pub exe_path: Option<Seq<char>>,
    pub cmd: Seq<Seq<char>>,
}

/// What a process was recognised as.
#[derive(Clone, Debug, PartialEq, Eq)]
pub struct ProjectInfo {
    pub name: String,
    pub project_type: String,
    pub path: Option<String>,
    pub description: String,
}

/// The mathematical content of a `ProjectInfo`.
pub struct ProjectInfoView {
    pub name: Seq<char>,
    pub project_type: Seq<char>,
    pub path: Option<Seq<char>>,
    pub description: Seq<char>,
}

/// One action recommended for a port and its process.
#[derive(Clone, Debug, PartialEq, Eq)]
pub struct ActionSuggestion {
    pub action: String,
    pub description: String,
    pub risk_level: RiskLevel,
}

/// The mathematical content of an `ActionSuggestion`.
pub struct ActionSuggestionView {
    pub action: Seq<char>,
    pub description: Seq<char>,
    pub risk_level: RiskLevel,
}

/// The text of an optional string.
pub open spec fn optional_text(s: Option<String>) -> Option<Seq<char>> {
    match s {
        Some(t) => Some(t@),
        None => None,
    }
}

impl View for ProcessInfo {
    type V = ProcessInfoView;

    open spec fn view(&self) -> ProcessInfoView {
        ProcessInfoView {
            pid: self.pid,
            name: self.name@,
            exe_path: optional_text(self.exe_path),
            cmd: self.cmd.deep_view(),
        }
    }
}

impl DeepView for ProcessInfo {
    type V = ProcessInfoView;

    open spec fn deep_view(&self) -> ProcessInfoView {
        self@
    }
}

impl View for ProjectInfo {
    type V = ProjectInfoView;

    open spec fn view(&self) -> ProjectInfoView {
        ProjectInfoView {
            name: self.name@,
            project_type: self.project_type@,
            path: optional_text(self.path),
            description: self.description@,
        }
    }
}

impl DeepView for ProjectInfo {
    type V = ProjectInfoView;

    open spec fn deep_view(&self) -> ProjectInfoView {
        self@
    }
}

impl View for ActionSuggestion {
    type V = ActionSuggestionView;

    open spec fn view(&self) -> ActionSuggestionView {
        ActionSuggestionView {
            action: self.action@,
            description: self.description@,
            risk_level: self.risk_level,
        }
    }
}

impl DeepView for ActionSuggestion {
    type V = ActionSuggestionView;

    open spec fn deep_view(&self) -> ActionSuggestionView {
        self@
    }
}

impl RiskLevel {
    /// The label under which the level is shown.
    pub open spec fn label_text(self) -> Seq<char> {
        match self {
            RiskLevel::NoRisk => "无"@,
            RiskLevel::Low => "低"@,
            RiskLevel::Medium => "中"@,
            RiskLevel::High => "高"@,
        }
    }

    /// The label under which the level is shown.
    pub fn label(&self) -> (r: String)
        ensures
            r@ == self.label_text(),
    {
        match self {
            RiskLevel::NoRisk => "无".to_string(),
            RiskLevel::Low => "低".to_string(),
            RiskLevel::Medium => "中".to_string(),
            RiskLevel::High => "高".to_string(),
        }
    }
}

/// The view of an optional project.
pub open spec fn optional_project(p: Option<ProjectInfo>) -> Option<ProjectInfoView> {
    match p {
        Some(q) => Some(q@),
        None => None,
    }
}

} // verus!
