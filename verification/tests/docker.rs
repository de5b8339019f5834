use portwatch::monitor::docker::{
    container_side_of, host_port, port_of_mapping, DockerContainer, DockerMonitor, DockerPort,
};

fn port(host_port: u16, container_port: u16, protocol: &str) -> DockerPort {
    DockerPort { container_port, host_port, protocol: protocol.to_string() }
}

fn container(id: &str, ports: Vec<DockerPort>) -> DockerContainer {
    DockerContainer {
        id: id.to_string(),
        name: format!("name-{}", id),
        image: "image".to_string(),
        status: "Up".to_string(),
        ports,
        created: "now".to_string(),
    }
}

#[test]
fn mapping_with_protocol() {
    assert_eq!(port_of_mapping("0.0.0.0:8080->80/tcp"), Some(port(8080, 80, "tcp")));
    assert_eq!(port_of_mapping(":::8080->80/tcp"), Some(port(8080, 80, "tcp")));
    assert_eq!(port_of_mapping("[::]:53->5353/udp"), Some(port(53, 5353, "udp")));
}

#[test]
fn mapping_without_protocol_is_tcp() {
    assert_eq!(port_of_mapping("127.0.0.1:9000->9000"), Some(port(9000, 9000, "tcp")));
}

#[test]
fn mapping_without_host_port_is_passed_over() {
    assert_eq!(port_of_mapping("80/tcp"), None);
    assert_eq!(port_of_mapping("8080->80/tcp"), None);
    assert_eq!(port_of_mapping("0.0.0.0:->80/tcp"), None);
    assert_eq!(port_of_mapping("0.0.0.0:x->80/tcp"), None);
    assert_eq!(port_of_mapping("0.0.0.0:70000->80/tcp"), None);
    assert_eq!(port_of_mapping(""), None);
    assert_eq!(port_of_mapping("->"), None);
}

#[test]
fn unreadable_container_port_counts_as_zero() {
    assert_eq!(port_of_mapping("0.0.0.0:1->abc/tcp"), Some(port(1, 0, "tcp")));
    assert_eq!(port_of_mapping("0.0.0.0:1->/tcp"), Some(port(1, 0, "tcp")));
    assert_eq!(port_of_mapping("0.0.0.0:1->99999"), Some(port(1, 0, "tcp")));
    assert_eq!(port_of_mapping("0.0.0.0:1->"), Some(port(1, 0, "tcp")));
    assert_eq!(port_of_mapping("0.0.0.0:1->80-81/tcp"), Some(port(1, 0, "tcp")));
}

#[test]
fn first_arrow_and_first_slash_split_the_mapping() {
    assert_eq!(port_of_mapping("a:1->2->3/x/y"), Some(port(1, 0, "x/y")));
    assert_eq!(port_of_mapping("a:1->2/"), Some(port(1, 2, "")));
    assert_eq!(port_of_mapping("a:5:6->7/sctp"), Some(port(6, 7, "sctp")));
}

#[test]
fn host_side_and_container_side() {
    assert_eq!(host_port("0.0.0.0:8080"), Some(8080));
    assert_eq!(host_port(":::443"), Some(443));
    assert_eq!(host_port("8080"), None);
    assert_eq!(host_port(""), None);
    assert_eq!(host_port("host:"), None);
    assert_eq!(host_port("host:+7"), Some(7));
    assert_eq!(container_side_of("80/tcp"), (80, "tcp".to_string()));
    assert_eq!(container_side_of("80"), (80, "tcp".to_string()));
    assert_eq!(container_side_of("x/udp"), (0, "udp".to_string()));
    assert_eq!(container_side_of(""), (0, "tcp".to_string()));
    assert_eq!(container_side_of("/"), (0, String::new()));
    assert_eq!(container_side_of("65535/协议"), (65535, "协议".to_string()));
}

#[test]
fn port_list_is_split_at_commas_and_trimmed() {
    let monitor = DockerMonitor::new();
    let ports = monitor.parse_docker_ports("0.0.0.0:8080->80/tcp, :::8080->80/tcp");
    assert_eq!(ports, vec![port(8080, 80, "tcp"), port(8080, 80, "tcp")]);
    let ports = monitor.parse_docker_ports("  0.0.0.0:5432->5432/tcp  ,,  , 3306/tcp,\t[::]:6379->6379/tcp\t");
    assert_eq!(ports, vec![port(5432, 5432, "tcp"), port(6379, 6379, "tcp")]);
}

#[test]
fn port_list_without_mappings_is_empty() {
    let monitor = DockerMonitor::new();
    assert!(monitor.parse_docker_ports("").is_empty());
    assert!(monitor.parse_docker_ports("   ").is_empty());
    assert!(monitor.parse_docker_ports(",,,").is_empty());
    assert!(monitor.parse_docker_ports("80/tcp, 443/tcp").is_empty());
}

#[test]
fn inner_whitespace_of_a_mapping_is_kept() {
    let monitor = DockerMonitor::new();
    assert!(monitor.parse_docker_ports("0.0.0.0: 80->80/tcp").is_empty());
    assert_eq!(monitor.parse_docker_ports("0.0.0.0:80->80/t cp"), vec![port(80, 80, "t cp")]);
}

#[test]
fn container_line_has_six_fields() {
    let monitor = DockerMonitor::new();
    let line = "3f2a|web|nginx:latest|Up 2 hours|0.0.0.0:8080->80/tcp|2024-05-01 10:00:00 +0000 UTC";
    let found = monitor.parse_container_line(line).unwrap();
    assert_eq!(found.id, "3f2a");
    assert_eq!(found.name, "web");
    assert_eq!(found.image, "nginx:latest");
    assert_eq!(found.status, "Up 2 hours");
    assert_eq!(found.ports, vec![port(8080, 80, "tcp")]);
    assert_eq!(found.created, "2024-05-01 10:00:00 +0000 UTC");
}

#[test]
fn short_container_lines_are_passed_over() {
    let monitor = DockerMonitor::new();
    assert_eq!(monitor.parse_container_line(""), None);
    assert_eq!(monitor.parse_container_line("a|b|c|d|e"), None);
    assert_eq!(monitor.parse_container_line("no bars at all"), None);
}

#[test]
fn further_fields_and_empty_fields() {
    let monitor = DockerMonitor::new();
    let found = monitor.parse_container_line("|||||").unwrap();
    assert_eq!(found, DockerContainer {
        id: String::new(),
        name: String::new(),
        image: String::new(),
        status: String::new(),
        ports: Vec::new(),
        created: String::new(),
    });
    let found = monitor.parse_container_line("a|b|c|d||f|g|h").unwrap();
    assert_eq!(found.created, "f");
    assert!(found.ports.is_empty());
}

#[test]
fn listing_gives_one_container_for_each_good_line() {
    let monitor = DockerMonitor::new();
    let listing = "1|db|postgres|Up|0.0.0.0:5432->5432/tcp|t1\r\n\r\nbroken line\n2|web|nginx|Exited (0)||t2\n3|c|redis|Up|:::6379->6379/tcp, 0.0.0.0:6379->6379/tcp|t3";
    let found = monitor.get_containers(listing);
    assert_eq!(found.len(), 3);
    assert_eq!(found[0].id, "1");
    assert_eq!(found[0].created, "t1");
    assert_eq!(found[0].ports, vec![port(5432, 5432, "tcp")]);
    assert_eq!(found[1].name, "web");
    assert!(found[1].ports.is_empty());
    assert_eq!(found[2].ports.len(), 2);
    assert_eq!(found[2].created, "t3");
    assert!(monitor.get_containers("").is_empty());
}

#[test]
fn carriage_return_inside_a_line_stays() {
    let monitor = DockerMonitor::new();
    let found = monitor.get_containers("1|a|b|c||t\r");
    assert_eq!(found[0].created, "t\r");
    let found = monitor.get_containers("1|a|b|c||t\r\n");
    assert_eq!(found[0].created, "t");
}

#[test]
fn container_is_found_by_host_port() {
    let monitor = DockerMonitor::new();
    let all = vec![
        container("a", vec![port(80, 8080, "tcp")]),
        container("b", Vec::new()),
        container("c", vec![port(5432, 5432, "tcp"), port(8080, 80, "tcp")]),
        container("d", vec![port(8080, 81, "tcp")]),
    ];
    assert_eq!(monitor.get_container_by_port(all.clone(), 8080).unwrap().id, "c");
    assert_eq!(monitor.get_container_by_port(all.clone(), 80).unwrap().id, "a");
    assert_eq!(monitor.get_container_by_port(all.clone(), 5432), Some(all[2].clone()));
    assert_eq!(monitor.get_container_by_port(all.clone(), 81), None);
    assert_eq!(monitor.get_container_by_port(Vec::new(), 80), None);
    assert!(monitor.container_publishes(&all[2], 8080));
    assert!(!monitor.container_publishes(&all[2], 80));
    assert!(!monitor.container_publishes(&all[1], 0));
}

fn expected_ports(ports_str: &str) -> Vec<DockerPort> {
    let mut ports = Vec::new();
    for port_mapping in ports_str.split(',') {
        let port_mapping = port_mapping.trim();
        if port_mapping.is_empty() {
            continue;
        }
        if let Some(arrow_pos) = port_mapping.find("->") {
            let host_part = &port_mapping[..arrow_pos];
            let container_part = &port_mapping[arrow_pos + 2..];
            let host_port = if let Some(colon_pos) = host_part.rfind(':') {
                host_part[colon_pos + 1..].parse::<u16>().ok()
            } else {
                None
            };
            let container_port;
            let mut protocol = "tcp".to_string();
            if let Some(slash_pos) = container_part.find('/') {
                container_port = container_part[..slash_pos].parse::<u16>().unwrap_or(0);
                protocol = container_part[slash_pos + 1..].to_string();
            } else {
                container_port = container_part.parse::<u16>().unwrap_or(0);
            }
            if let Some(host_port) = host_port {
                ports.push(DockerPort { container_port, host_port, protocol });
            }
        }
    }
    ports
}

fn expected_containers(listing: &str) -> Vec<DockerContainer> {
    let mut containers = Vec::new();
    for line in listing.lines() {
        if line.is_empty() {
            continue;
        }
        let parts: Vec<&str> = line.split('|').collect();
        if parts.len() < 6 {
            continue;
        }
        containers.push(DockerContainer {
            id: parts[0].to_string(),
            name: parts[1].to_string(),
            image: parts[2].to_string(),
            status: parts[3].to_string(),
            ports: expected_ports(parts[4]),
            created: parts[5].to_string(),
        });
    }
    containers
}

#[test]
fn port_lists_are_read_piece_by_piece() {
    let monitor = DockerMonitor::new();
    let lists = [
        "",
        ",",
        "0.0.0.0:8080->80/tcp, :::8080->80/tcp",
        "0.0.0.0:5432->5432/tcp,[::]:5432->5432/tcp,3306/tcp, 33060/tcp",
        " a:1->2 , b:3->4/udp ,c->5, :6->, ->7/x, d:8->9/, e:+10->+11/tcp ",
        "x:65536->1/tcp,x:65535->65536/tcp,x:0->0",
        "端口:80->80/协议,a:1->2->3/4/5,->->",
        "a:1- >2/tcp,a:1 ->2/tcp,a: 1->2/tcp",
        "0.0.0.0:49153-49154->8000-8001/tcp",
    ];
    for list in lists {
        assert_eq!(monitor.parse_docker_ports(list), expected_ports(list), "{:?}", list);
    }
}

#[test]
fn listings_are_read_line_by_line() {
    let monitor = DockerMonitor::new();
    let listings = [
        "",
        "\n\n",
        "1|db|postgres|Up|0.0.0.0:5432->5432/tcp|t1\r\n\r\nbroken\n2|web|nginx|Exited||t2\n",
        "a|b|c|d|e\n|||||\n||||x:1->2|\r\na|b|c|d|e|f|g|h",
        "id|名字|镜像|状态| 0.0.0.0:80->80/tcp , :::443->443/tcp |创建\r",
    ];
    for listing in listings {
        assert_eq!(monitor.get_containers(listing), expected_containers(listing), "{:?}", listing);
    }
}
