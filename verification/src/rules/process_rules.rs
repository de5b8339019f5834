//! The rule catalogue: what is known of a process by its exact name.

use vstd::hash_map::StringHashMap;
use vstd::prelude::*;

verus! {

/// The kind of application that a rule describes.
#[derive(Clone, Copy, Debug, PartialEq, Eq, Structural)]
pub enum ProcessCategory {
    Development,
    Browser,
    Database,
    System,
    Docker,
    Office,
    Media,
    Other,
}

/// What is known of the processes that run under one name.
#[derive(Clone, Debug, PartialEq, Eq)]
pub struct ProcessRule {
    pub process_name: String,
    pub app_name: String,
    pub description: String,
    pub category: ProcessCategory,
    pub port_ranges: Option<Vec<(u16, u16)>>,
    pub actions: Vec<String>,
}

/// The mathematical content of a `ProcessRule`.
pub struct ProcessRuleView {
    pub process_name: Seq<char>,
    pub app_name: Seq<char>,
    pub description: Seq<char>,
    pub category: ProcessCategory,
    pub port_ranges: Option<Seq<(u16, u16)>>,
    pub actions: Seq<Seq<char>>,
}

/// The ranges of an optional list of port ranges.
pub open spec fn optional_ranges(r: Option<Vec<(u16, u16)>>) -> Option<Seq<(u16, u16)>> {
    match r {
        Some(v) => Some(v@),
        None => None,
    }
}

impl View for ProcessRule {
    type V = ProcessRuleView;

    open spec fn view(&self) -> ProcessRuleView {
        ProcessRuleView {
            process_name: self.process_name@,
            app_name: self.app_name@,
            description: self.description@,
            category: self.category,
            port_ranges: optional_ranges(self.port_ranges),
            actions: self.actions.deep_view(),
        }
    }
}

impl DeepView for ProcessRule {
    type V = ProcessRuleView;

    open spec fn deep_view(&self) -> ProcessRuleView {
        self@
    }
}

/// Whether `port` lies in one of `ranges`. A range holds both of its bounds.
pub open spec fn in_ranges(ranges: Seq<(u16, u16)>, port: u16) -> bool {
    exists|i: int| 0 <= i < ranges.len() && (#[trigger] ranges[i]).0 <= port <= ranges[i].1
}

/// Whether a rule lists port ranges and `port` lies in one of them.
pub open spec fn rule_covers(rule: ProcessRuleView, port: u16) -> bool {
    rule.port_ranges matches Some(ranges) && in_ranges(ranges, port)
}

/// Position of the first rule at or after `from` whose name is exactly `name`.
pub open spec fn first_named(rules: Seq<ProcessRuleView>, name: Seq<char>, from: int) -> Option<
    int,
>
    decreases rules.len() - from,
{
    if from < 0 || from >= rules.len() {
        None
    } else if rules[from].process_name == name {
        Some(from)
    } else {
        first_named(rules, name, from + 1)
    }
}

/// The rule for the process name `name`: the first one of that exact name.
pub open spec fn rule_named(rules: Seq<ProcessRuleView>, name: Seq<char>) -> Option<
    ProcessRuleView,
> {
    match first_named(rules, name, 0) {
        Some(i) => Some(rules[i]),
        None => None,
    }
}

/// Position of the first rule at or after `from` that covers `port`.
pub open spec fn first_covering(rules: Seq<ProcessRuleView>, port: u16, from: int) -> Option<int>
    decreases rules.len() - from,
{
    if from < 0 || from >= rules.len() {
        None
    } else if rule_covers(rules[from], port) {
        Some(from)
    } else {
        first_covering(rules, port, from + 1)
    }
}

/// The rule for `port`: the first one that covers it.
pub open spec fn rule_for_port(rules: Seq<ProcessRuleView>, port: u16) -> Option<ProcessRuleView> {
    match first_covering(rules, port, 0) {
        Some(i) => Some(rules[i]),
        None => None,
    }
}

/// The rule at position `i` of the catalogue that a new `ProcessRules` starts
/// with.
pub open spec fn default_rule(i: int) -> ProcessRuleView {
    if i == 0 {
        ProcessRuleView {
                process_name: "node.exe"@,
                app_name: "Node.js"@,
                description: "JavaScript运行时环境，用于开发Web应用"@,
                category: ProcessCategory::Development,
                port_ranges: Some(seq![(3000u16, 3999u16), (8000u16, 8999u16)]),
                actions: seq!["停止服务"@, "重启"@, "查看日志"@],
            }
    } else if i == 1 {
        ProcessRuleView {
                process_name: "java.exe"@,
                app_name: "Java应用"@,
                description: "Java运行时环境，用于运行Java应用"@,
                category: ProcessCategory::Development,
                port_ranges: Some(seq![(8080u16, 8099u16), (9000u16, 9999u16)]),
                actions: seq!["停止服务"@, "重启"@, "查看日志"@],
            }
    } else if i == 2 {
        ProcessRuleView {
                process_name: "python.exe"@,
                app_name: "Python应用"@,
                description: "Python解释器，用于运行Python应用"@,
                category: ProcessCategory::Development,
                port_ranges: Some(seq![(5000u16, 5999u16), (8000u16, 8999u16)]),
                actions: seq!["停止服务"@, "重启"@, "查看日志"@],
            }
    } else if i == 3 {
        ProcessRuleView {
                process_name: "chrome.exe"@,
                app_name: "Google Chrome"@,
                description: "Google Chrome浏览器"@,
                category: ProcessCategory::Browser,
                port_ranges: None,
                actions: seq!["关闭"@, "查看任务管理器"@],
            }
    } else if i == 4 {
        ProcessRuleView {
                process_name: "firefox.exe"@,
                app_name: "Mozilla Firefox"@,
                description: "Mozilla Firefox浏览器"@,
                category: ProcessCategory::Browser,
                port_ranges: None,
                actions: seq!["关闭"@, "查看任务管理器"@],
            }
    } else if i == 5 {
        ProcessRuleView {
                process_name: "msedge.exe"@,
                app_name: "Microsoft Edge"@,
                description: "Microsoft Edge浏览器"@,
                category: ProcessCategory::Browser,
                port_ranges: None,
                actions: seq!["关闭"@, "查看任务管理器"@],
            }
    } else if i == 6 {
        ProcessRuleView {
                process_name: "mysqld.exe"@,
                app_name: "MySQL数据库"@,
                description: "MySQL数据库服务器"@,
                category: ProcessCategory::Database,
                port_ranges: Some(seq![(3306u16, 3306u16)]),
                actions: seq!["停止服务"@, "重启"@, "查看日志"@],
            }
    } else if i == 7 {
        ProcessRuleView {
                process_name: "postgres.exe"@,
                app_name: "PostgreSQL数据库"@,
                description: "PostgreSQL数据库服务器"@,
                category: ProcessCategory::Database,
                port_ranges: Some(seq![(5432u16, 5432u16)]),
                actions: seq!["停止服务"@, "重启"@, "查看日志"@],
            }
    } else if i == 8 {
        ProcessRuleView {
                process_name: "mongod.exe"@,
                app_name: "MongoDB数据库"@,
                description: "MongoDB数据库服务器"@,
                category: ProcessCategory::Database,
                port_ranges: Some(seq![(27017u16, 27017u16)]),
                actions: seq!["停止服务"@, "重启"@, "查看日志"@],
            }
    } else if i == 9 {
        ProcessRuleView {
                process_name: "docker.exe"@,
                app_name: "Docker引擎"@,
                description: "Docker容器化平台"@,
                category: ProcessCategory::Docker,
                port_ranges: None,
                actions: seq!["查看容器"@, "查看镜像"@, "重启Docker"@],
            }
    } else if i == 10 {
        ProcessRuleView {
                process_name: "docker-proxy.exe"@,
                app_name: "Docker容器"@,
                description: "Docker容器端口映射代理"@,
                category: ProcessCategory::Docker,
                port_ranges: None,
                actions: seq!["查看容器"@, "停止容器"@, "查看日志"@],
            }
    } else if i == 11 {
        ProcessRuleView {
                process_name: "svchost.exe"@,
                app_name: "Windows系统服务"@,
                description: "Windows系统服务宿主进程"@,
                category: ProcessCategory::System,
                port_ranges: None,
                actions: seq!["查看服务详情"@],
            }
    } else if i == 12 {
        ProcessRuleView {
                process_name: "System"@,
                app_name: "Windows系统"@,
                description: "Windows操作系统内核"@,
                category: ProcessCategory::System,
                port_ranges: None,
                actions: Seq::empty(),
            }
    } else if i == 13 {
        ProcessRuleView {
                process_name: "WINWORD.EXE"@,
                app_name: "Microsoft Word"@,
                description: "Microsoft Office Word文档处理软件"@,
                category: ProcessCategory::Office,
                port_ranges: None,
                actions: seq!["关闭"@, "保存文档"@],
            }
    } else if i == 14 {
        ProcessRuleView {
                process_name: "EXCEL.EXE"@,
                app_name: "Microsoft Excel"@,
                description: "Microsoft Office Excel电子表格软件"@,
                category: ProcessCategory::Office,
                port_ranges: None,
                actions: seq!["关闭"@, "保存文档"@],
            }
    } else {
        ProcessRuleView {
                process_name: "vlc.exe"@,
                app_name: "VLC媒体播放器"@,
                description: "开源跨平台媒体播放器"@,
                category: ProcessCategory::Media,
                port_ranges: None,
                actions: seq!["关闭"@],
            }
    }
}

/// How many rules the default catalogue holds.
pub open spec fn default_rule_count() -> nat {
    16
}

/// The catalogue that a new `ProcessRules` starts with.
pub open spec fn default_rules() -> Seq<ProcessRuleView> {
    Seq::new(default_rule_count(), |i: int| default_rule(i))
}

/// What `first_named` finds: the earliest rule of that name at or after
/// `from`, and `None` only where no rule from there on has it.
pub proof fn lemma_first_named(rules: Seq<ProcessRuleView>, name: Seq<char>, from: int)
    requires
        0 <= from <= rules.len(),
    ensures
        match first_named(rules, name, from) {
            Some(k) => {
                &&& from <= k < rules.len()
                &&& rules[k].process_name == name
                &&& forall|j: int| from <= j < k ==> (#[trigger] rules[j]).process_name != name
            },
            None => forall|j: int|
                from <= j < rules.len() ==> (#[trigger] rules[j]).process_name != name,
        },
    decreases rules.len() - from,
{
    if from < rules.len() && rules[from].process_name != name {
        lemma_first_named(rules, name, from + 1);
    }
}

/// Whether `port` lies in one of `ranges`.
pub fn port_in_ranges(ranges: &Vec<(u16, u16)>, port: u16) -> (r: bool)
    ensures
        r == in_ranges(ranges@, port),
{
    let mut i: usize = 0;
    while i < ranges.len()
        invariant
            i <= ranges.len(),
            forall|j: int| 0 <= j < i ==> !((#[trigger] ranges@[j]).0 <= port <= ranges@[j].1),
        decreases ranges.len() - i,
    {
        if ranges[i].0 <= port && port <= ranges[i].1 {
            return true;
        }
        i += 1;
    }
    false
}

fn no_labels() -> (out: Vec<String>)
    ensures
        out.deep_view() == Seq::<Seq<char>>::empty(),
{
    let out: Vec<String> = Vec::new();
    assert(out.deep_view() =~= Seq::<Seq<char>>::empty());
    out
}

pub(crate) fn labels1(a: &str) -> (out: Vec<String>)
    ensures
        out.deep_view() == seq![a@],
{
    let mut out: Vec<String> = Vec::new();
    out.push(a.to_string());
    assert(out.deep_view() =~= seq![a@]);
    out
}

pub(crate) fn labels2(a: &str, b: &str) -> (out: Vec<String>)
    ensures
        out.deep_view() == seq![a@, b@],
{
    let mut out: Vec<String> = Vec::new();
    out.push(a.to_string());
    out.push(b.to_string());
    assert(out.deep_view() =~= seq![a@, b@]);
    out
}

fn labels3(a: &str, b: &str, c: &str) -> (out: Vec<String>)
    ensures
        out.deep_view() == seq![a@, b@, c@],
{
    let mut out: Vec<String> = Vec::new();
    out.push(a.to_string());
    out.push(b.to_string());
    out.push(c.to_string());
    assert(out.deep_view() =~= seq![a@, b@, c@]);
    out
}

pub(crate) fn one_range(low: u16, high: u16) -> (out: Vec<(u16, u16)>)
    ensures
        out@ == seq![(low, high)],
{
    let mut out: Vec<(u16, u16)> = Vec::new();
    out.push((low, high));
    assert(out@ =~= seq![(low, high)]);
    out
}

pub(crate) fn two_ranges(low: u16, high: u16, low2: u16, high2: u16) -> (out: Vec<(u16, u16)>)
    ensures
        out@ == seq![(low, high), (low2, high2)],
{
    let mut out: Vec<(u16, u16)> = Vec::new();
    out.push((low, high));
    out.push((low2, high2));
    assert(out@ =~= seq![(low, high), (low2, high2)]);
    out
}

fn rule(
    process_name: &str,
    app_name: &str,
    description: &str,
    category: ProcessCategory,
    port_ranges: Option<Vec<(u16, u16)>>,
    actions: Vec<String>,
) -> (r: ProcessRule)
    ensures
        r@ == (ProcessRuleView {
            process_name: process_name@,
            app_name: app_name@,
            description: description@,
            category,
            port_ranges: optional_ranges(port_ranges),
            actions: actions.deep_view(),
        }),
{
    ProcessRule {
        process_name: process_name.to_string(),
        app_name: app_name.to_string(),
        description: description.to_string(),
        category,
        port_ranges,
        actions,
    }
}

/// The catalogue of well-known processes, in the order in which it is
/// searched.
pub fn create_default_rules() -> (rules: Vec<ProcessRule>)
    ensures
        rules.deep_view() == default_rules(),
{
    let mut rules: Vec<ProcessRule> = Vec::new();
    rules.push(
        rule("node.exe", "Node.js", "JavaScript运行时环境，用于开发Web应用", ProcessCategory::Development, Some(two_ranges(3000, 3999, 8000, 8999)), labels3("停止服务", "重启", "查看日志")),
    );
    assert(rules@[0]@ == default_rule(0));
    rules.push(
        rule("java.exe", "Java应用", "Java运行时环境，用于运行Java应用", ProcessCategory::Development, Some(two_ranges(8080, 8099, 9000, 9999)), labels3("停止服务", "重启", "查看日志")),
    );
    assert(rules@[1]@ == default_rule(1));
    rules.push(
        rule("python.exe", "Python应用", "Python解释器，用于运行Python应用", ProcessCategory::Development, Some(two_ranges(5000, 5999, 8000, 8999)), labels3("停止服务", "重启", "查看日志")),
    );
    assert(rules@[2]@ == default_rule(2));
    rules.push(
        rule("chrome.exe", "Google Chrome", "Google Chrome浏览器", ProcessCategory::Browser, None, labels2("关闭", "查看任务管理器")),
    );
    assert(rules@[3]@ == default_rule(3));
    rules.push(
        rule("firefox.exe", "Mozilla Firefox", "Mozilla Firefox浏览器", ProcessCategory::Browser, None, labels2("关闭", "查看任务管理器")),
    );
    assert(rules@[4]@ == default_rule(4));
    rules.push(
        rule("msedge.exe", "Microsoft Edge", "Microsoft Edge浏览器", ProcessCategory::Browser, None, labels2("关闭", "查看任务管理器")),
    );
    assert(rules@[5]@ == default_rule(5));
    rules.push(
        rule("mysqld.exe", "MySQL数据库", "MySQL数据库服务器", ProcessCategory::Database, Some(one_range(3306, 3306)), labels3("停止服务", "重启", "查看日志")),
    );
    assert(rules@[6]@ == default_rule(6));
    rules.push(
        rule("postgres.exe", "PostgreSQL数据库", "PostgreSQL数据库服务器", ProcessCategory::Database, Some(one_range(5432, 5432)), labels3("停止服务", "重启", "查看日志")),
    );
    assert(rules@[7]@ == default_rule(7));
    rules.push(
        rule("mongod.exe", "MongoDB数据库", "MongoDB数据库服务器", ProcessCategory::Database, Some(one_range(27017, 27017)), labels3("停止服务", "重启", "查看日志")),
    );
    assert(rules@[8]@ == default_rule(8));
    rules.push(
        rule("docker.exe", "Docker引擎", "Docker容器化平台", ProcessCategory::Docker, None, labels3("查看容器", "查看镜像", "重启Docker")),
    );
    assert(rules@[9]@ == default_rule(9));
    rules.push(
        rule("docker-proxy.exe", "Docker容器", "Docker容器端口映射代理", ProcessCategory::Docker, None, labels3("查看容器", "停止容器", "查看日志")),
    );
    assert(rules@[10]@ == default_rule(10));
    rules.push(
        rule("svchost.exe", "Windows系统服务", "Windows系统服务宿主进程", ProcessCategory::System, None, labels1("查看服务详情")),
    );
    assert(rules@[11]@ == default_rule(11));
    rules.push(
        rule("System", "Windows系统", "Windows操作系统内核", ProcessCategory::System, None, no_labels()),
    );
    assert(rules@[12]@ == default_rule(12));
    rules.push(
        rule("WINWORD.EXE", "Microsoft Word", "Microsoft Office Word文档处理软件", ProcessCategory::Office, None, labels2("关闭", "保存文档")),
    );
    assert(rules@[13]@ == default_rule(13));
    rules.push(
        rule("EXCEL.EXE", "Microsoft Excel", "Microsoft Office Excel电子表格软件", ProcessCategory::Office, None, labels2("关闭", "保存文档")),
    );
    assert(rules@[14]@ == default_rule(14));
    rules.push(
        rule("vlc.exe", "VLC媒体播放器", "开源跨平台媒体播放器", ProcessCategory::Media, None, labels1("关闭")),
    );
    assert(rules@[15]@ == default_rule(15));
    assert(rules.deep_view() =~= default_rules());
    rules
}

/// Whether `index` sends each name that occurs in `rules` to the position of
/// the first rule of that name, and holds no other name.
pub open spec fn indexes(index: Map<Seq<char>, usize>, rules: Seq<ProcessRuleView>) -> bool {
    &&& forall|name: Seq<char>| #[trigger]
        index.contains_key(name) ==> first_named(rules, name, 0) == Some(index[name] as int)
    &&& forall|j: int|
        0 <= j < rules.len() ==> index.contains_key((#[trigger] rules[j]).process_name)
}

/// The rule catalogue: an ordered list of rules and an index of it by
/// process name.
pub struct ProcessRules {
    rules: Vec<ProcessRule>,
    name_map: StringHashMap<usize>,
}

impl View for ProcessRules {
    type V = Seq<ProcessRuleView>;

    closed spec fn view(&self) -> Seq<ProcessRuleView> {
        self.rules.deep_view()
    }
}

impl ProcessRules {
    #[verifier::type_invariant]
    spec fn well_indexed(self) -> bool {
        indexes(self.name_map@, self.rules.deep_view())
    }

    /// The catalogue of well-known processes.
    pub fn new() -> (r: Self)
        ensures
            r@ == default_rules(),
    {
        ProcessRules::from_rules(create_default_rules())
    }

    /// A catalogue of the given rules, searched in the given order. Where two
    /// rules have the same name, only the earlier one is found by name.
    pub fn from_rules(rules: Vec<ProcessRule>) -> (r: Self)
        ensures
            r@ == rules.deep_view(),
    {
        let mut name_map: StringHashMap<usize> = StringHashMap::new();
        let ghost all = rules.deep_view();
        let mut i: usize = 0;
        while i < rules.len()
            invariant
                i <= rules.len(),
                all == rules.deep_view(),
                forall|name: Seq<char>| #[trigger]
                    name_map@.contains_key(name) ==> {
                        &&& name_map@[name] < i
                        &&& first_named(all, name, 0) == Some(name_map@[name] as int)
                    },
                forall|j: int|
                    0 <= j < i ==> name_map@.contains_key((#[trigger] all[j]).process_name),
            decreases rules.len() - i,
        {
            let name: &String = &rules[i].process_name;
            assert(all[i as int].process_name == name@);
            if !name_map.contains_key(name.as_str()) {
                proof {
                    lemma_first_named(all, name@, 0);
                }
                name_map.insert(name.clone(), i);
            }
            i += 1;
        }
        ProcessRules { rules, name_map }
    }

    /// The rules, in the order in which they are searched.
    pub fn rules(&self) -> (r: &Vec<ProcessRule>)
        ensures
            r.deep_view() == self@,
    {
        &self.rules
    }

    /// The rule for the process name `process_name`, matched exactly.
    pub fn get_rule_by_name(&self, process_name: &str) -> (r: Option<&ProcessRule>)
        ensures
            match r {
                Some(rule) => rule_named(self@, process_name@) == Some(rule@),
                None => rule_named(self@, process_name@) is None,
            },
    {
        proof {
            use_type_invariant(self);
            lemma_first_named(self@, process_name@, 0);
        }
        match self.name_map.get(process_name) {
            Some(i) => Some(&self.rules[*i]),
            None => None,
        }
    }

    /// The first rule whose port ranges hold `port`.
    pub fn get_rule_by_port(&self, port: u16) -> (r: Option<&ProcessRule>)
        ensures
            match r {
                Some(rule) => rule_for_port(self@, port) == Some(rule@),
                None => rule_for_port(self@, port) is None,
            },
    {
        let mut i: usize = 0;
        while i < self.rules.len()
            invariant
                i <= self.rules.len(),
                first_covering(self@, port, 0) == first_covering(self@, port, i as int),
            decreases self.rules.len() - i,
        {
            let rule: &ProcessRule = &self.rules[i];
            assert(self@[i as int] == rule@);
            let covers: bool = match &rule.port_ranges {
                Some(ranges) => port_in_ranges(ranges, port),
                None => false,
            };
            if covers {
                return Some(rule);
            }
            i += 1;
        }
        None
    }
}

} // verus!
