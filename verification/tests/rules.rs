use portwatch::rules::process_rules::{
    create_default_rules, port_in_ranges, ProcessCategory, ProcessRule, ProcessRules,
};

fn simple_rule(name: &str, app: &str, ranges: Option<Vec<(u16, u16)>>) -> ProcessRule {
    ProcessRule {
        process_name: name.to_string(),
        app_name: app.to_string(),
        description: String::new(),
        category: ProcessCategory::Other,
        port_ranges: ranges,
        actions: Vec::new(),
    }
}

#[test]
fn default_catalogue_has_sixteen_rules_in_order() {
    let rules = create_default_rules();
    assert_eq!(rules.len(), 16);
    assert_eq!(rules[0].process_name, "node.exe");
    assert_eq!(rules[0].app_name, "Node.js");
    assert_eq!(rules[0].category, ProcessCategory::Development);
    assert_eq!(rules[0].port_ranges, Some(vec![(3000, 3999), (8000, 8999)]));
    assert_eq!(rules[0].actions, vec!["停止服务", "重启", "查看日志"]);
    assert_eq!(rules[12].process_name, "System");
    assert!(rules[12].actions.is_empty());
    assert_eq!(rules[15].process_name, "vlc.exe");
    assert_eq!(rules[15].category, ProcessCategory::Media);
}

#[test]
fn default_catalogue_names_are_distinct() {
    let rules = create_default_rules();
    for i in 0..rules.len() {
        for j in 0..i {
            assert_ne!(rules[i].process_name, rules[j].process_name);
        }
    }
}

#[test]
fn lookup_by_name_is_exact() {
    let catalogue = ProcessRules::new();
    let rule = catalogue.get_rule_by_name("mysqld.exe").unwrap();
    assert_eq!(rule.app_name, "MySQL数据库");
    assert_eq!(rule.category, ProcessCategory::Database);
    assert_eq!(rule.port_ranges, Some(vec![(3306, 3306)]));
    assert!(catalogue.get_rule_by_name("MYSQLD.EXE").is_none());
    assert!(catalogue.get_rule_by_name("mysqld").is_none());
    assert!(catalogue.get_rule_by_name("mysqld.exe ").is_none());
    assert!(catalogue.get_rule_by_name("").is_none());
    assert!(catalogue.get_rule_by_name("winword.exe").is_none());
    assert!(catalogue.get_rule_by_name("WINWORD.EXE").is_some());
}

#[test]
fn lookup_by_name_answers_every_rule_of_the_catalogue() {
    let catalogue = ProcessRules::new();
    for rule in create_default_rules() {
        assert_eq!(catalogue.get_rule_by_name(&rule.process_name), Some(&rule));
    }
}

#[test]
fn same_name_gives_the_same_answer() {
    let catalogue = ProcessRules::new();
    let other = ProcessRules::new();
    for name in ["node.exe", "svchost.exe", "unknown.exe", ""] {
        assert_eq!(catalogue.get_rule_by_name(name), catalogue.get_rule_by_name(name));
        assert_eq!(catalogue.get_rule_by_name(name), other.get_rule_by_name(name));
    }
}

#[test]
fn earliest_rule_of_a_name_wins() {
    let catalogue = ProcessRules::from_rules(vec![
        simple_rule("a.exe", "first", None),
        simple_rule("b.exe", "other", None),
        simple_rule("a.exe", "second", None),
    ]);
    assert_eq!(catalogue.rules().len(), 3);
    assert_eq!(catalogue.get_rule_by_name("a.exe").unwrap().app_name, "first");
    assert_eq!(catalogue.get_rule_by_name("b.exe").unwrap().app_name, "other");
}

#[test]
fn empty_catalogue_knows_nothing() {
    let catalogue = ProcessRules::from_rules(Vec::new());
    assert!(catalogue.get_rule_by_name("node.exe").is_none());
    assert!(catalogue.get_rule_by_port(3000).is_none());
}

#[test]
fn range_bounds_are_included() {
    let ranges = vec![(3000, 3999), (8000, 8999)];
    assert!(port_in_ranges(&ranges, 3000));
    assert!(port_in_ranges(&ranges, 3999));
    assert!(port_in_ranges(&ranges, 8000));
    assert!(port_in_ranges(&ranges, 8999));
    assert!(port_in_ranges(&ranges, 3500));
    assert!(!port_in_ranges(&ranges, 2999));
    assert!(!port_in_ranges(&ranges, 4000));
    assert!(!port_in_ranges(&ranges, 7999));
    assert!(!port_in_ranges(&ranges, 9000));
    assert!(!port_in_ranges(&ranges, 0));
    assert!(!port_in_ranges(&ranges, 65535));
}

#[test]
fn single_port_range_holds_that_port_only() {
    let ranges = vec![(3306, 3306)];
    assert!(port_in_ranges(&ranges, 3306));
    assert!(!port_in_ranges(&ranges, 3305));
    assert!(!port_in_ranges(&ranges, 3307));
}

#[test]
fn full_range_and_reversed_range() {
    assert!(port_in_ranges(&vec![(0, 65535)], 0));
    assert!(port_in_ranges(&vec![(0, 65535)], 65535));
    assert!(!port_in_ranges(&vec![(5, 3)], 3));
    assert!(!port_in_ranges(&vec![(5, 3)], 4));
    assert!(!port_in_ranges(&vec![(5, 3)], 5));
    assert!(!port_in_ranges(&Vec::new(), 80));
}

#[test]
fn lookup_by_port_takes_the_first_rule_that_covers() {
    let catalogue = ProcessRules::new();
    assert_eq!(catalogue.get_rule_by_port(3000).unwrap().process_name, "node.exe");
    assert_eq!(catalogue.get_rule_by_port(3999).unwrap().process_name, "node.exe");
    assert_eq!(catalogue.get_rule_by_port(8080).unwrap().process_name, "node.exe");
    assert_eq!(catalogue.get_rule_by_port(9000).unwrap().process_name, "java.exe");
    assert_eq!(catalogue.get_rule_by_port(9999).unwrap().process_name, "java.exe");
    assert_eq!(catalogue.get_rule_by_port(5000).unwrap().process_name, "python.exe");
    assert_eq!(catalogue.get_rule_by_port(5432).unwrap().process_name, "python.exe");
    assert_eq!(catalogue.get_rule_by_port(3306).unwrap().process_name, "node.exe");
    assert_eq!(catalogue.get_rule_by_port(27017).unwrap().process_name, "mongod.exe");
    assert!(catalogue.get_rule_by_port(4000).is_none());
    assert!(catalogue.get_rule_by_port(80).is_none());
    assert!(catalogue.get_rule_by_port(10000).is_none());
}

#[test]
fn lookup_by_port_passes_over_rules_without_ranges() {
    let catalogue = ProcessRules::from_rules(vec![
        simple_rule("a.exe", "a", None),
        simple_rule("b.exe", "b", Some(Vec::new())),
        simple_rule("c.exe", "c", Some(vec![(10, 20)])),
        simple_rule("d.exe", "d", Some(vec![(15, 30)])),
    ]);
    assert_eq!(catalogue.get_rule_by_port(10).unwrap().process_name, "c.exe");
    assert_eq!(catalogue.get_rule_by_port(20).unwrap().process_name, "c.exe");
    assert_eq!(catalogue.get_rule_by_port(21).unwrap().process_name, "d.exe");
    assert_eq!(catalogue.get_rule_by_port(30).unwrap().process_name, "d.exe");
    assert!(catalogue.get_rule_by_port(31).is_none());
    assert!(catalogue.get_rule_by_port(9).is_none());
}
