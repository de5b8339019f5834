use portwatch::monitor::port::{
    meaning_of, parse_listing_line, suggestions_by_name, suggestions_of_rule, ListingSchema,
    PortMonitor,
};
use portwatch::records::{ActionSuggestion, ProcessInfo, ProjectInfo, RiskLevel};
use portwatch::rules::process_rules::{ProcessCategory, ProcessRule, ProcessRules};
use portwatch::rules::project_detector::detect_project;

fn process(pid: u32, name: &str, cmd: &[&str]) -> ProcessInfo {
    ProcessInfo {
        pid,
        name: name.to_string(),
        exe_path: None,
        cmd: cmd.iter().map(|s| s.to_string()).collect(),
    }
}

fn shown(suggestions: &[ActionSuggestion]) -> Vec<(&str, &str, RiskLevel)> {
    suggestions.iter().map(|s| (s.action.as_str(), s.description.as_str(), s.risk_level)).collect()
}

fn some_project() -> Option<ProjectInfo> {
    Some(ProjectInfo {
        name: "n".to_string(),
        project_type: "t".to_string(),
        path: None,
        description: "d".to_string(),
    })
}

fn without_rules() -> PortMonitor {
    PortMonitor::with_rules(ProcessRules::from_rules(Vec::new()))
}

#[test]
fn every_known_label_has_its_meaning() {
    let expected = [
        ("停止服务", "终止进程释放端口", RiskLevel::Low),
        ("重启", "重启服务", RiskLevel::Low),
        ("查看日志", "查看应用日志", RiskLevel::NoRisk),
        ("关闭", "关闭应用", RiskLevel::Low),
        ("查看容器", "显示相关Docker容器信息", RiskLevel::NoRisk),
        ("停止容器", "停止Docker容器释放端口", RiskLevel::Medium),
        ("查看任务管理器", "查看浏览器任务管理器", RiskLevel::NoRisk),
        ("保存文档", "保存当前文档后关闭", RiskLevel::Low),
        ("查看服务详情", "查看Windows服务详情", RiskLevel::NoRisk),
    ];
    for (label, description, risk) in expected {
        assert_eq!(meaning_of(label), (description.to_string(), risk));
    }
}

#[test]
fn unknown_label_gets_the_general_meaning() {
    for label in ["查看镜像", "重启Docker", "", "stop", "停止服务 "] {
        assert_eq!(meaning_of(label), ("执行操作".to_string(), RiskLevel::Medium));
    }
}

#[test]
fn risk_levels_have_their_labels() {
    assert_eq!(RiskLevel::NoRisk.label(), "无");
    assert_eq!(RiskLevel::Low.label(), "低");
    assert_eq!(RiskLevel::Medium.label(), "中");
    assert_eq!(RiskLevel::High.label(), "高");
}

#[test]
fn rule_actions_become_suggestions_one_for_one() {
    let actions = vec!["查看容器".to_string(), "查看镜像".to_string(), "重启Docker".to_string()];
    let suggestions = suggestions_of_rule(&actions);
    assert_eq!(
        shown(&suggestions),
        vec![
            ("查看容器", "显示相关Docker容器信息", RiskLevel::NoRisk),
            ("查看镜像", "执行操作", RiskLevel::Medium),
            ("重启Docker", "执行操作", RiskLevel::Medium),
        ]
    );
    assert!(suggestions_of_rule(&Vec::new()).is_empty());
}

#[test]
fn rule_decides_alone_for_a_named_process() {
    let monitor = PortMonitor::new();
    let node = process(1, "node.exe", &["node", "react-scripts"]);
    let expected = vec![
        ("停止服务", "终止进程释放端口", RiskLevel::Low),
        ("重启", "重启服务", RiskLevel::Low),
        ("查看日志", "查看应用日志", RiskLevel::NoRisk),
    ];
    assert_eq!(shown(&monitor.generate_suggestions(&node, &some_project())), expected);
    assert_eq!(shown(&monitor.generate_suggestions(&node, &None)), expected);
}

#[test]
fn rule_without_actions_gives_no_suggestion() {
    let monitor = PortMonitor::new();
    let system = process(4, "System", &[]);
    assert!(monitor.generate_suggestions(&system, &None).is_empty());
    assert!(monitor.generate_suggestions(&system, &some_project()).is_empty());
}

#[test]
fn every_rule_of_the_catalogue_gives_exactly_its_actions() {
    let monitor = PortMonitor::new();
    let catalogue = ProcessRules::new();
    for rule in catalogue.rules() {
        let p = process(9, &rule.process_name, &[]);
        for project in [None, some_project()] {
            let suggestions = monitor.generate_suggestions(&p, &project);
            let actions: Vec<&str> = suggestions.iter().map(|s| s.action.as_str()).collect();
            assert_eq!(actions, rule.actions);
            for s in &suggestions {
                assert_eq!((s.description.clone(), s.risk_level), meaning_of(&s.action));
            }
        }
    }
}

#[test]
fn node_without_rule_gets_generic_suggestions() {
    let expected_with_project = vec![
        ("停止服务", "终止Node.js进程释放端口", RiskLevel::Low),
        ("重启服务", "重启开发服务器", RiskLevel::Low),
        ("打开浏览器", "在浏览器中查看应用", RiskLevel::NoRisk),
    ];
    let expected_alone = vec![("停止服务", "终止Node.js进程释放端口", RiskLevel::Low)];
    for name in ["node", "node.exe"] {
        assert_eq!(shown(&suggestions_by_name(name, true)), expected_with_project);
        assert_eq!(shown(&suggestions_by_name(name, false)), expected_alone);
    }
    let monitor = PortMonitor::new();
    let node = process(1, "node", &[]);
    assert_eq!(shown(&monitor.generate_suggestions(&node, &some_project())), expected_with_project);
    assert_eq!(shown(&monitor.generate_suggestions(&node, &None)), expected_alone);
}

#[test]
fn docker_proxy_without_rule_gets_container_suggestions() {
    let expected = vec![
        ("查看容器", "显示相关Docker容器信息", RiskLevel::NoRisk),
        ("停止容器", "停止Docker容器释放端口", RiskLevel::Medium),
    ];
    assert_eq!(shown(&suggestions_by_name("docker-proxy", true)), expected);
    assert_eq!(shown(&suggestions_by_name("docker-proxy", false)), expected);
    assert_eq!(shown(&suggestions_by_name("docker-proxy.exe", false)), expected);
    let monitor = PortMonitor::new();
    let proxy = process(1, "docker-proxy", &[]);
    assert_eq!(shown(&monitor.generate_suggestions(&proxy, &None)), expected);
    let named = process(1, "docker-proxy.exe", &[]);
    assert_eq!(
        shown(&monitor.generate_suggestions(&named, &None)),
        vec![
            ("查看容器", "显示相关Docker容器信息", RiskLevel::NoRisk),
            ("停止容器", "停止Docker容器释放端口", RiskLevel::Medium),
            ("查看日志", "查看应用日志", RiskLevel::NoRisk),
        ]
    );
}

#[test]
fn system_process_is_only_looked_at() {
    let expected = vec![("查看详情", "查看系统进程详细信息", RiskLevel::NoRisk)];
    for name in ["svchost.exe", "lsass.exe", "explorer.exe", "Memory Compression", "Idle"] {
        assert_eq!(shown(&suggestions_by_name(name, false)), expected);
        assert_eq!(shown(&suggestions_by_name(name, true)), expected);
    }
}

#[test]
fn any_other_process_may_be_terminated() {
    let expected = vec![("终止进程", "强制终止进程释放端口", RiskLevel::High)];
    for name in ["nginx", "unknown.exe", "", "Svchost.exe", "java", "python"] {
        assert_eq!(shown(&suggestions_by_name(name, false)), expected);
        assert_eq!(shown(&suggestions_by_name(name, true)), expected);
    }
}

#[test]
fn listening_node_with_react_scripts() {
    let line = "TCP  0.0.0.0:3000  0.0.0.0:0  LISTENING  4321";
    let (port, pid) = parse_listing_line(line, ListingSchema::Windows).unwrap();
    assert_eq!((port, pid), (3000, 4321));
    let owner = process(pid, "node.exe", &["node", "C:\\proj\\react-scripts\\start.js"]);
    let record = without_rules().port_info(port, owner.clone());
    assert_eq!(record.port, 3000);
    assert_eq!(record.protocol, "TCP");
    assert_eq!(record.status, "LISTENING");
    assert_eq!(record.process, owner);
    assert_eq!(record.process.name, "node.exe");
    assert_eq!(record.project.as_ref().unwrap().project_type, "React");
    assert_eq!(
        shown(&record.suggestions),
        vec![
            ("停止服务", "终止Node.js进程释放端口", RiskLevel::Low),
            ("重启服务", "重启开发服务器", RiskLevel::Low),
            ("打开浏览器", "在浏览器中查看应用", RiskLevel::NoRisk),
        ]
    );
}

#[test]
fn listening_node_under_the_default_catalogue() {
    let owner = process(4321, "node.exe", &["node", "C:\\proj\\react-scripts\\start.js"]);
    let record = PortMonitor::new().port_info(3000, owner);
    assert_eq!(record.project.as_ref().unwrap().project_type, "React");
    let actions: Vec<&str> = record.suggestions.iter().map(|s| s.action.as_str()).collect();
    assert_eq!(actions, vec!["停止服务", "重启", "查看日志"]);
}

#[test]
fn listening_svchost_without_rule() {
    let line = "TCP  0.0.0.0:3000  0.0.0.0:0  LISTENING  4321";
    let (port, pid) = parse_listing_line(line, ListingSchema::Windows).unwrap();
    let owner = process(pid, "svchost.exe", &["svchost.exe", "-k", "netsvcs"]);
    let record = without_rules().port_info(port, owner);
    assert_eq!(record.port, 3000);
    assert_eq!(record.process.pid, 4321);
    assert_eq!(record.project, None);
    assert_eq!(
        shown(&record.suggestions),
        vec![("查看详情", "查看系统进程详细信息", RiskLevel::NoRisk)]
    );
}

#[test]
fn listening_svchost_under_the_default_catalogue() {
    let owner = process(4321, "svchost.exe", &[]);
    let record = PortMonitor::new().port_info(3000, owner);
    assert_eq!(record.project, None);
    assert_eq!(
        shown(&record.suggestions),
        vec![("查看服务详情", "查看Windows服务详情", RiskLevel::NoRisk)]
    );
}

#[test]
fn record_uses_the_given_path() {
    let owner = process(7, "python", &["python", "-m", "flask", "run"]);
    let record = without_rules().port_info_with_path(5000, owner, Some("/srv/api".to_string()));
    let project = record.project.unwrap();
    assert_eq!(project.project_type, "Flask");
    assert_eq!(project.path, Some("/srv/api".to_string()));
    assert_eq!(
        shown(&record.suggestions),
        vec![("终止进程", "强制终止进程释放端口", RiskLevel::High)]
    );
}

#[test]
fn record_agrees_with_its_parts() {
    let monitor = PortMonitor::new();
    let owner = process(7, "java", &["java", "-jar", "/opt/shop/spring-boot-app.jar"]);
    let project = detect_project(&owner, 8080);
    let suggestions = monitor.generate_suggestions(&owner, &project);
    let record = monitor.port_info(8080, owner.clone());
    assert_eq!(record.project, project);
    assert_eq!(record.suggestions, suggestions);
    assert_eq!(record.project.unwrap().path, Some("/opt/shop".to_string()));
}

#[test]
fn custom_rule_takes_the_place_of_generic_suggestions() {
    let rule = ProcessRule {
        process_name: "nginx".to_string(),
        app_name: "nginx".to_string(),
        description: "web server".to_string(),
        category: ProcessCategory::Other,
        port_ranges: Some(vec![(80, 80), (443, 443)]),
        actions: vec!["重启".to_string(), "reload".to_string()],
    };
    let monitor = PortMonitor::with_rules(ProcessRules::from_rules(vec![rule]));
    let suggestions = monitor.generate_suggestions(&process(1, "nginx", &[]), &None);
    assert_eq!(
        shown(&suggestions),
        vec![("重启", "重启服务", RiskLevel::Low), ("reload", "执行操作", RiskLevel::Medium)]
    );
}
