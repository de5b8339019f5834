//! The port monitor: reads a listing of network connections, finds the
//! process behind each listening TCP port, recognises it and suggests what
//! can be done with it.

use crate::monitor::process_table::{new_system, process_by_pid, process_table, refresh_system};
use crate::records::{
    optional_project, optional_text, ActionSuggestion, ActionSuggestionView, ProcessInfo, ProcessInfoView,
    ProjectInfo, ProjectInfoView, RiskLevel,
};
use crate::rules::process_rules::{default_rules, rule_named, ProcessRuleView, ProcessRules};
use crate::rules::project_detector::{
    default_signatures, detect_project_with_path, detection, extract_project_path, project_path,
};
use crate::text::{
    after_last, chars_after_last, chars_are, chars_lines, lines, read_u16, read_u32,
    split_whitespace, to_chars, tokens, unsigned16, unsigned32,
};
use crate::utils::process_utils::{is_system_name, is_system_process};
use vstd::prelude::*;

verus! {

/// The column layout of a connection listing. A listing is read by the layout
/// that the caller names, never by what its lines look like.
#[derive(Clone, Copy, Debug, PartialEq, Eq, Structural)]
pub enum ListingSchema {
    /// `netstat -ano`: protocol, local address, remote address, state, pid.
    Windows,
    /// `netstat -tlnp`: protocol, two queue lengths, local address, remote
    /// address, state, pid.
    Posix,
}

impl ListingSchema {
    /// The column that holds the protocol.
    pub open spec fn protocol_column(self) -> int {
        0
    }

    /// The column that holds the local address.
    pub open spec fn address_column(self) -> int {
        match self {
            ListingSchema::Windows => 1,
            ListingSchema::Posix => 3,
        }
    }

    /// The column that holds the state.
    pub open spec fn state_column(self) -> int {
        match self {
            ListingSchema::Windows => 3,
            ListingSchema::Posix => 5,
        }
    }

    /// The column that holds the process id.
    pub open spec fn pid_column(self) -> int {
        match self {
            ListingSchema::Windows => 4,
            ListingSchema::Posix => 6,
        }
    }

    /// How many columns a line must have at least.
    pub open spec fn width(self) -> int {
        self.pid_column() + 1
    }

    /// The columns of the local address, of the state and of the process id.
    pub fn columns(&self) -> (r: (usize, usize, usize))
        ensures
            r.0 == self.address_column(),
            r.1 == self.state_column(),
            r.2 == self.pid_column(),
    {
        match self {
            ListingSchema::Windows => (1, 3, 4),
            ListingSchema::Posix => (3, 5, 6),
        }
    }
}

/// One listening TCP port with the process behind it.
#[derive(Clone, Debug, PartialEq, Eq)]
pub struct PortInfo {
    pub port: u16,
    pub protocol: String,
    pub status: String,
    pub process: ProcessInfo,
    pub project: Option<ProjectInfo>,
    pub suggestions: Vec<ActionSuggestion>,
}

/// The mathematical content of a `PortInfo`.
pub struct PortInfoView {
    pub port: u16,
    pub protocol: Seq<char>,
    pub status: Seq<char>,
    pub process: ProcessInfoView,
    pub project: Option<ProjectInfoView>,
    pub suggestions: Seq<ActionSuggestionView>,
}

impl View for PortInfo {
    type V = PortInfoView;

    open spec fn view(&self) -> PortInfoView {
        PortInfoView {
            port: self.port,
            protocol: self.protocol@,
            status: self.status@,
            process: self.process@,
            project: optional_project(self.project),
            suggestions: self.suggestions.deep_view(),
        }
    }
}

impl DeepView for PortInfo {
    type V = PortInfoView;

    open spec fn deep_view(&self) -> PortInfoView {
        self@
    }
}

/// The view of an optional port record.
pub open spec fn optional_port(p: Option<PortInfo>) -> Option<PortInfoView> {
    match p {
        Some(q) => Some(q@),
        None => None,
    }
}

/// The view of an optional process.
pub open spec fn optional_process(p: Option<ProcessInfo>) -> Option<ProcessInfoView> {
    match p {
        Some(q) => Some(q@),
        None => None,
    }
}

/// The port that a local address names: the unsigned 16-bit number written
/// after its last colon, or by the whole address where it has no colon.
pub open spec fn port_of_address(address: Seq<char>) -> Option<u16> {
    unsigned16(after_last(address, ':'))
}

/// Whether a line of a listing shows a listening TCP socket: it has all the
/// columns of the schema, its protocol is `TCP` and its state `LISTENING`.
pub open spec fn is_listening_tcp(line: Seq<char>, schema: ListingSchema) -> bool {
    let fields = split_whitespace(line);
    &&& fields.len() >= schema.width()
    &&& fields[schema.protocol_column()] == "TCP"@
    &&& fields[schema.state_column()] == "LISTENING"@
}

/// The port and the process id that a line of a listing yields, if any: the
/// line must show a listening TCP socket, and both numbers must be readable.
pub open spec fn listing_entry(line: Seq<char>, schema: ListingSchema) -> Option<(u16, u32)> {
    let fields = split_whitespace(line);
    if is_listening_tcp(line, schema) {
        match (
            port_of_address(fields[schema.address_column()]),
            unsigned32(fields[schema.pid_column()]),
        ) {
            (Some(port), Some(pid)) => Some((port, pid)),
            _ => None,
        }
    } else {
        None
    }
}

/// A suggestion.
pub open spec fn suggestion(action: Seq<char>, description: Seq<char>, risk_level: RiskLevel)
    -> ActionSuggestionView {
    ActionSuggestionView { action, description, risk_level }
}

/// What an action label of a rule means: how it is described and how risky
/// it is. A label that is not known is described in general words and counts
/// as of medium risk.
pub open spec fn action_meaning(action: Seq<char>) -> (Seq<char>, RiskLevel) {
    if action == "停止服务"@ {
        ("终止进程释放端口"@, RiskLevel::Low)
    } else if action == "重启"@ {
        ("重启服务"@, RiskLevel::Low)
    } else if action == "查看日志"@ {
        ("查看应用日志"@, RiskLevel::NoRisk)
    } else if action == "关闭"@ {
        ("关闭应用"@, RiskLevel::Low)
    } else if action == "查看容器"@ {
        ("显示相关Docker容器信息"@, RiskLevel::NoRisk)
    } else if action == "停止容器"@ {
        ("停止Docker容器释放端口"@, RiskLevel::Medium)
    } else if action == "查看任务管理器"@ {
        ("查看浏览器任务管理器"@, RiskLevel::NoRisk)
    } else if action == "保存文档"@ {
        ("保存当前文档后关闭"@, RiskLevel::Low)
    } else if action == "查看服务详情"@ {
        ("查看Windows服务详情"@, RiskLevel::NoRisk)
    } else {
        ("执行操作"@, RiskLevel::Medium)
    }
}

/// The suggestions that a rule's action labels stand for, one for each label
/// and in the same order.
pub open spec fn rule_suggestions(actions: Seq<Seq<char>>) -> Seq<ActionSuggestionView> {
    Seq::new(
        actions.len(),
        |i: int| suggestion(actions[i], action_meaning(actions[i]).0, action_meaning(actions[i]).1),
    )
}

/// The suggestions for a process that no rule names, by its name alone and by
/// whether a project was recognised behind it.
pub open spec fn generic_suggestions(name: Seq<char>, classified: bool) -> Seq<
    ActionSuggestionView,
> {
    if name == "node.exe"@ || name == "node"@ {
        if classified {
            seq![
                suggestion("停止服务"@, "终止Node.js进程释放端口"@, RiskLevel::Low),
                suggestion("重启服务"@, "重启开发服务器"@, RiskLevel::Low),
                suggestion("打开浏览器"@, "在浏览器中查看应用"@, RiskLevel::NoRisk),
            ]
        } else {
            seq![suggestion("停止服务"@, "终止Node.js进程释放端口"@, RiskLevel::Low)]
        }
    } else if name == "docker-proxy.exe"@ || name == "docker-proxy"@ {
        seq![
            suggestion("查看容器"@, "显示相关Docker容器信息"@, RiskLevel::NoRisk),
            suggestion("停止容器"@, "停止Docker容器释放端口"@, RiskLevel::Medium),
        ]
    } else if is_system_name(name) {
        seq![suggestion("查看详情"@, "查看系统进程详细信息"@, RiskLevel::NoRisk)]
    } else {
        seq![suggestion("终止进程"@, "强制终止进程释放端口"@, RiskLevel::High)]
    }
}

/// The suggestions for a process called `name`: those of the rule that names
/// it, and only where no rule does, those by its name alone.
pub open spec fn suggestions_for(rules: Seq<ProcessRuleView>, name: Seq<char>, classified: bool)
    -> Seq<ActionSuggestionView> {
    match rule_named(rules, name) {
        Some(rule) => rule_suggestions(rule.actions),
        None => generic_suggestions(name, classified),
    }
}

/// The record of `port` and the process behind it, with `path` as the
/// directory of the project.
pub open spec fn port_record_with_path(
    rules: Seq<ProcessRuleView>,
    process: ProcessInfoView,
    port: u16,
    path: Option<Seq<char>>,
) -> PortInfoView {
    let project = detection(default_signatures(), process, port, path);
    PortInfoView {
        port,
        protocol: "TCP"@,
        status: "LISTENING"@,
        process,
        project,
        suggestions: suggestions_for(rules, process.name, project is Some),
    }
}

/// The record of `port` and the process behind it.
pub open spec fn port_record(rules: Seq<ProcessRuleView>, process: ProcessInfoView, port: u16)
    -> PortInfoView {
    port_record_with_path(rules, process, port, project_path(process.cmd))
}

/// The process that a process table holds under `pid`.
pub open spec fn table_process(
    table: Map<u32, (Seq<char>, Option<Seq<char>>, Seq<Seq<char>>)>,
    pid: u32,
) -> Option<ProcessInfoView> {
    if table.contains_key(pid) {
        Some(
            ProcessInfoView {
                pid,
                name: table[pid].0,
                exe_path: table[pid].1,
                cmd: table[pid].2,
            },
        )
    } else {
        None
    }
}

/// The record that one line of a listing yields: none where the line yields
/// no port and process id, and none where the table knows no such process.
pub open spec fn line_record(
    rules: Seq<ProcessRuleView>,
    table: Map<u32, (Seq<char>, Option<Seq<char>>, Seq<Seq<char>>)>,
    line: Seq<char>,
    schema: ListingSchema,
) -> Option<PortInfoView> {
    match listing_entry(line, schema) {
        Some((port, pid)) => match table_process(table, pid) {
            Some(process) => Some(port_record(rules, process, port)),
            None => None,
        },
        None => None,
    }
}

/// The records that the lines at or after `from` yield, in the order of the
/// lines.
pub open spec fn records_from(
    rules: Seq<ProcessRuleView>,
    table: Map<u32, (Seq<char>, Option<Seq<char>>, Seq<Seq<char>>)>,
    all: Seq<Seq<char>>,
    schema: ListingSchema,
    from: int,
) -> Seq<PortInfoView>
    decreases all.len() - from,
{
    if from < 0 || from >= all.len() {
        Seq::empty()
    } else {
        match line_record(rules, table, all[from], schema) {
            Some(record) => seq![record] + records_from(rules, table, all, schema, from + 1),
            None => records_from(rules, table, all, schema, from + 1),
        }
    }
}

/// The records that a listing yields: one for each line that shows a
/// listening TCP socket whose numbers can be read and whose process the table
/// knows, in the order of the lines.
pub open spec fn listing_records(
    rules: Seq<ProcessRuleView>,
    table: Map<u32, (Seq<char>, Option<Seq<char>>, Seq<Seq<char>>)>,
    listing: Seq<char>,
    schema: ListingSchema,
) -> Seq<PortInfoView> {
    records_from(rules, table, lines(listing), schema, 0)
}

/// The port that the characters of a local address name.
pub fn port_of(address: &Vec<char>) -> (r: Option<u16>)
    ensures
        r == port_of_address(address@),
{
    let tail = chars_after_last(address, ':');
    read_u16(&tail)
}

/// The port and the process id that the characters of a line yield.
pub fn entry_of(line: &Vec<char>, schema: ListingSchema) -> (r: Option<(u16, u32)>)
    ensures
        r == listing_entry(line@, schema),
{
    let fields = tokens(line);
    let (address, state, pid) = schema.columns();
    if fields.len() <= pid {
        return None;
    }
    assert(fields.deep_view()[0] == fields@[0]@);
    assert(fields.deep_view()[address as int] == fields@[address as int]@);
    assert(fields.deep_view()[state as int] == fields@[state as int]@);
    assert(fields.deep_view()[pid as int] == fields@[pid as int]@);
    if !chars_are(&fields[0], "TCP") || !chars_are(&fields[state], "LISTENING") {
        return None;
    }
    let port = port_of(&fields[address]);
    let owner = read_u32(&fields[pid]);
    match (port, owner) {
        (Some(port), Some(owner)) => Some((port, owner)),
        _ => None,
    }
}

/// The port and the process id that a line of a listing yields, if it shows a
/// listening TCP socket and both numbers can be read.
pub fn parse_listing_line(line: &str, schema: ListingSchema) -> (r: Option<(u16, u32)>)
    ensures
        r == listing_entry(line@, schema),
{
    let chars = to_chars(line);
    entry_of(&chars, schema)
}

/// How an action label of a rule is described and how risky it is.
pub fn meaning_of(action: &str) -> (r: (String, RiskLevel))
    ensures
        (r.0@, r.1) == action_meaning(action@),
{
    let label = to_chars(action);
    if chars_are(&label, "停止服务") {
        ("终止进程释放端口".to_string(), RiskLevel::Low)
    } else if chars_are(&label, "重启") {
        ("重启服务".to_string(), RiskLevel::Low)
    } else if chars_are(&label, "查看日志") {
        ("查看应用日志".to_string(), RiskLevel::NoRisk)
    } else if chars_are(&label, "关闭") {
        ("关闭应用".to_string(), RiskLevel::Low)
    } else if chars_are(&label, "查看容器") {
        ("显示相关Docker容器信息".to_string(), RiskLevel::NoRisk)
    } else if chars_are(&label, "停止容器") {
        ("停止Docker容器释放端口".to_string(), RiskLevel::Medium)
    } else if chars_are(&label, "查看任务管理器") {
        ("查看浏览器任务管理器".to_string(), RiskLevel::NoRisk)
    } else if chars_are(&label, "保存文档") {
        ("保存当前文档后关闭".to_string(), RiskLevel::Low)
    } else if chars_are(&label, "查看服务详情") {
        ("查看Windows服务详情".to_string(), RiskLevel::NoRisk)
    } else {
        ("执行操作".to_string(), RiskLevel::Medium)
    }
}

fn new_suggestion(action: &str, description: &str, risk_level: RiskLevel) -> (r: ActionSuggestion)
    ensures
        r@ == suggestion(action@, description@, risk_level),
{
    ActionSuggestion { action: action.to_string(), description: description.to_string(), risk_level }
}

/// The suggestions that the action labels of a rule stand for.
pub fn suggestions_of_rule(actions: &Vec<String>) -> (out: Vec<ActionSuggestion>)
    ensures
        out.deep_view() == rule_suggestions(actions.deep_view()),
{
    let mut out: Vec<ActionSuggestion> = Vec::new();
    let mut i: usize = 0;
    while i < actions.len()
        invariant
            i <= actions.len(),
            out.len() == i,
            forall|k: int|
                0 <= k < i ==> (#[trigger] out@[k])@ == rule_suggestions(actions.deep_view())[k],
        decreases actions.len() - i,
    {
        let (description, risk_level) = meaning_of(actions[i].as_str());
        assert(actions.deep_view()[i as int] == actions@[i as int]@);
        out.push(ActionSuggestion { action: actions[i].clone(), description, risk_level });
        i += 1;
    }
    assert(out.deep_view() =~= rule_suggestions(actions.deep_view()));
    out
}

/// The suggestions for a process that no rule names.
pub fn suggestions_by_name(name: &str, classified: bool) -> (out: Vec<ActionSuggestion>)
    ensures
        out.deep_view() == generic_suggestions(name@, classified),
{
    let chars = to_chars(name);
    let mut out: Vec<ActionSuggestion> = Vec::new();
    if chars_are(&chars, "node.exe") || chars_are(&chars, "node") {
        out.push(new_suggestion("停止服务", "终止Node.js进程释放端口", RiskLevel::Low));
        if classified {
            out.push(new_suggestion("重启服务", "重启开发服务器", RiskLevel::Low));
            out.push(new_suggestion("打开浏览器", "在浏览器中查看应用", RiskLevel::NoRisk));
        }
    } else if chars_are(&chars, "docker-proxy.exe") || chars_are(&chars, "docker-proxy") {
        out.push(new_suggestion("查看容器", "显示相关Docker容器信息", RiskLevel::NoRisk));
        out.push(new_suggestion("停止容器", "停止Docker容器释放端口", RiskLevel::Medium));
    } else if is_system_process(name) {
        out.push(new_suggestion("查看详情", "查看系统进程详细信息", RiskLevel::NoRisk));
    } else {
        out.push(new_suggestion("终止进程", "强制终止进程释放端口", RiskLevel::High));
    }
    assert(out.deep_view() =~= generic_suggestions(name@, classified));
    out
}

/// The port monitor: the process table and the rule catalogue that a listing
/// is read against.
pub struct PortMonitor {
    system: sysinfo::System,
    process_rules: ProcessRules,
}

impl PortMonitor {
    /// The rule catalogue of the monitor.
    pub closed spec fn rules(&self) -> Seq<ProcessRuleView> {
        self.process_rules@
    }

    /// The process table as the monitor last captured it.
    pub closed spec fn processes(&self) -> Map<
        u32,
        (Seq<char>, Option<Seq<char>>, Seq<Seq<char>>),
    > {
        process_table(self.system)
    }

    /// A monitor with the catalogue of well-known processes and a process
    /// table captured now.
    pub fn new() -> (r: Self)
        ensures
            r.rules() == default_rules(),
    {
        PortMonitor { system: new_system(), process_rules: ProcessRules::new() }
    }

    /// A monitor with the given rule catalogue and a process table captured
    /// now.
    pub fn with_rules(process_rules: ProcessRules) -> (r: Self)
        ensures
            r.rules() == process_rules@,
    {
        PortMonitor { system: new_system(), process_rules }
    }

    /// Captures the process table anew. The catalogue stays as it is.
    pub fn refresh(&mut self)
        ensures
            final(self).rules() == old(self).rules(),
    {
        refresh_system(&mut self.system);
    }

    /// The port that a local address names.
    pub fn extract_port_from_addr(&self, addr: &str) -> (r: Option<u16>)
        ensures
            r == port_of_address(addr@),
    {
        let chars = to_chars(addr);
        port_of(&chars)
    }

    /// The process that the table holds under `pid`, as of the last refresh.
    pub fn get_process_info_by_pid(&self, pid: u32) -> (r: Option<ProcessInfo>)
        ensures
            optional_process(r) == table_process(self.processes(), pid),
    {
        process_by_pid(&self.system, pid)
    }

    /// The suggestions for `process`: where the catalogue has a rule of
    /// exactly its name, the actions of that rule, each with its meaning, and
    /// nothing else; otherwise those by its name alone and by whether a
    /// project was recognised.
    pub fn generate_suggestions(&self, process: &ProcessInfo, project: &Option<ProjectInfo>) -> (out:
        Vec<ActionSuggestion>)
        ensures
            out.deep_view() == suggestions_for(self.rules(), process@.name, project is Some),
    {
        match self.process_rules.get_rule_by_name(process.name.as_str()) {
            Some(rule) => suggestions_of_rule(&rule.actions),
            None => suggestions_by_name(process.name.as_str(), project.is_some()),
        }
    }

    /// The record of `port` and the `process` behind it, with `path` as the
    /// directory of the project.
    pub fn port_info_with_path(&self, port: u16, process: ProcessInfo, path: Option<String>) -> (r:
        PortInfo)
        ensures
            r@ == port_record_with_path(
                self.rules(),
                process@,
                port,
                optional_text(path),
            ),
    {
        let project = detect_project_with_path(&process, port, path);
        let suggestions = self.generate_suggestions(&process, &project);
        PortInfo {
            port,
            protocol: "TCP".to_string(),
            status: "LISTENING".to_string(),
            process,
            project,
            suggestions,
        }
    }

    /// The record of `port` and the `process` behind it.
    pub fn port_info(&self, port: u16, process: ProcessInfo) -> (r: PortInfo)
        ensures
            r@ == port_record(self.rules(), process@, port),
    {
        let path = extract_project_path(&process.cmd);
        self.port_info_with_path(port, process, path)
    }

    fn record_of(&self, line: &Vec<char>, schema: ListingSchema) -> (r: Option<PortInfo>)
        ensures
            optional_port(r) == line_record(self.rules(), self.processes(), line@, schema),
    {
        match entry_of(line, schema) {
            Some((port, pid)) => match self.get_process_info_by_pid(pid) {
                Some(process) => Some(self.port_info(port, process)),
                None => None,
            },
            None => None,
        }
    }

    /// The record that one line of a listing yields: none where the line does
    /// not show a listening TCP socket with readable numbers, and none where
    /// the process table knows no process of that id.
    pub fn parse_netstat_line(&self, line: &str, schema: ListingSchema) -> (r: Option<PortInfo>)
        ensures
            optional_port(r) == line_record(self.rules(), self.processes(), line@, schema),
    {
        let chars = to_chars(line);
        self.record_of(&chars, schema)
    }

    /// The records that a listing yields against the process table as it was
    /// last captured, in the order of the lines. A line that yields nothing
    /// is passed over; it never stops the rest.
    ///
    /// The table is not captured anew here: a caller who wants table and
    /// listing to show the same moment calls `refresh` once, just before it
    /// obtains the listing.
    pub fn get_listening_ports(&self, listing: &str, schema: ListingSchema) -> (ports: Vec<PortInfo>)
        ensures
            ports.deep_view() == listing_records(
                self.rules(),
                self.processes(),
                listing@,
                schema,
            ),
    {
        let text = to_chars(listing);
        let all = chars_lines(&text);
        let mut ports: Vec<PortInfo> = Vec::new();
        let mut i: usize = 0;
        while i < all.len()
            invariant
                i <= all.len(),
                all.deep_view() == lines(listing@),
                listing_records(self.rules(), self.processes(), listing@, schema)
                    == ports.deep_view() + records_from(
                    self.rules(),
                    self.processes(),
                    lines(listing@),
                    schema,
                    i as int,
                ),
            decreases all.len() - i,
        {
            assert(all.deep_view()[i as int] =~= all@[i as int]@);
            let ghost shown = ports.deep_view();
            let ghost rest = records_from(
                self.rules(),
                self.processes(),
                lines(listing@),
                schema,
                i + 1,
            );
            match self.record_of(&all[i], schema) {
                Some(record) => {
                    ports.push(record);
                    assert(ports.deep_view() =~= shown.push(record@));
                    assert(shown + (seq![record@] + rest) =~= shown.push(record@) + rest);
                },
                None => {},
            }
            i += 1;
        }
        assert(ports.deep_view() + Seq::<PortInfoView>::empty() =~= ports.deep_view());
        ports
    }
}

} // verus!
