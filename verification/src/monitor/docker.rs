//! The Docker monitor: reads the container listing that `docker ps` prints
//! and finds the container that publishes a port.

use crate::text::{
    after_last, chars_after_last, chars_find, chars_find_text, chars_have, copy_range, find_char,
    find_text, has_char, lines, read_u16, split_on, split_text, text_lines, to_chars, trim,
    trim_text, unsigned16,
};
use vstd::prelude::*;

verus! {

/// One port that a container publishes on the host.
#[derive(Clone, Debug, PartialEq, Eq)]
pub struct DockerPort {
    pub container_port: u16,
    pub host_port: u16,
    pub protocol: String,
}

/// The mathematical content of a `DockerPort`.
pub struct DockerPortView {
    pub container_port: u16,
    pub host_port: u16,
    pub protocol: Seq<char>,
}

impl View for DockerPort {
    type V = DockerPortView;

    open spec fn view(&self) -> DockerPortView {
        DockerPortView {
            container_port: self.container_port,
            host_port: self.host_port,
            protocol: self.protocol@,
        }
    }
}

impl DeepView for DockerPort {
    type V = DockerPortView;

    open spec fn deep_view(&self) -> DockerPortView {
        self@
    }
}

/// One container of the listing.
#[derive(Clone, Debug, PartialEq, Eq)]
pub struct DockerContainer {
    pub id: String,
    pub name: String,
    pub image: String,
    pub status: String,
    pub ports: Vec<DockerPort>,
    pub created: String,
}

/// The mathematical content of a `DockerContainer`.
pub struct DockerContainerView {
    pub id: Seq<char>,
    pub name: Seq<char>,
    pub image: Seq<char>,
    pub status: Seq<char>,
    pub ports: Seq<DockerPortView>,
    pub created: Seq<char>,
}

impl View for DockerContainer {
    type V = DockerContainerView;

    open spec fn view(&self) -> DockerContainerView {
        DockerContainerView {
            id: self.id@,
            name: self.name@,
            image: self.image@,
            status: self.status@,
            ports: self.ports.deep_view(),
            created: self.created@,
        }
    }
}

impl DeepView for DockerContainer {
    type V = DockerContainerView;

    open spec fn deep_view(&self) -> DockerContainerView {
        self@
    }
}

/// The view of an optional container.
pub open spec fn optional_container(c: Option<DockerContainer>) -> Option<DockerContainerView> {
    match c {
        Some(d) => Some(d@),
        None => None,
    }
}

/// The host port that the host side of a mapping names: the number after its
/// last colon. A host side without a colon names none.
pub open spec fn host_port_of(host: Seq<char>) -> Option<u16> {
    if has_char(host, ':') {
        unsigned16(after_last(host, ':'))
    } else {
        None
    }
}

/// The number that `s` writes, and `0` where it writes none.
pub open spec fn number_or_zero(s: Seq<char>) -> u16 {
    match unsigned16(s) {
        Some(n) => n,
        None => 0,
    }
}

/// The container port and the protocol that the container side of a mapping
/// names: the number before its first slash and the text after it; without a
/// slash the protocol is `tcp`. An unreadable number counts as `0`.
pub open spec fn container_side(container: Seq<char>) -> (u16, Seq<char>) {
    let slash = find_char(container, '/', 0);
    if slash < container.len() {
        (
            number_or_zero(container.subrange(0, slash)),
            container.subrange(slash + 1, container.len() as int),
        )
    } else {
        (number_or_zero(container), "tcp"@)
    }
}

/// The port that one mapping of the form `host:port->port/protocol`
/// publishes: none where it has no `->` or its host side names no port.
pub open spec fn mapping_port(mapping: Seq<char>) -> Option<DockerPortView> {
    match find_text(mapping, "->"@, 0) {
        Some(arrow) => match host_port_of(mapping.subrange(0, arrow)) {
            Some(host_port) => {
                let side = container_side(
                    mapping.subrange(arrow + "->"@.len(), mapping.len() as int),
                );
                Some(DockerPortView { container_port: side.0, host_port, protocol: side.1 })
            },
            None => None,
        },
        None => None,
    }
}

/// The ports that the mappings at or after `from` publish, in their order.
/// Each mapping is read without the whitespace around it.
pub open spec fn ports_from(mappings: Seq<Seq<char>>, from: int) -> Seq<DockerPortView>
    decreases mappings.len() - from,
{
    if from < 0 || from >= mappings.len() {
        Seq::empty()
    } else {
        match mapping_port(trim(mappings[from])) {
            Some(port) => seq![port] + ports_from(mappings, from + 1),
            None => ports_from(mappings, from + 1),
        }
    }
}

/// The ports that a list of mappings, separated by commas, publishes.
pub open spec fn docker_ports(ports: Seq<char>) -> Seq<DockerPortView> {
    ports_from(split_on(ports, ','), 0)
}

/// The container that one line of the listing describes: its fields are
/// separated by `|` and stand for id, name, image, status, ports and time of
/// creation. A line with fewer than six fields describes none.
pub open spec fn line_container(line: Seq<char>) -> Option<DockerContainerView> {
    let fields = split_on(line, '|');
    if fields.len() < 6 {
        None
    } else {
        Some(
            DockerContainerView {
                id: fields[0],
                name: fields[1],
                image: fields[2],
                status: fields[3],
                ports: docker_ports(fields[4]),
                created: fields[5],
            },
        )
    }
}

/// The containers that the lines at or after `from` describe, in their order.
pub open spec fn containers_from(all: Seq<Seq<char>>, from: int) -> Seq<DockerContainerView>
    decreases all.len() - from,
{
    if from < 0 || from >= all.len() {
        Seq::empty()
    } else {
        match line_container(all[from]) {
            Some(container) => seq![container] + containers_from(all, from + 1),
            None => containers_from(all, from + 1),
        }
    }
}

/// The containers that a listing describes.
pub open spec fn listed_containers(listing: Seq<char>) -> Seq<DockerContainerView> {
    containers_from(lines(listing), 0)
}

/// Whether a container publishes the host port `port`.
pub open spec fn publishes(container: DockerContainerView, port: u16) -> bool {
    exists|i: int| 0 <= i < container.ports.len() && (#[trigger] container.ports[i]).host_port == port
}

/// Position of the first container at or after `from` that publishes `port`.
pub open spec fn first_publishing(containers: Seq<DockerContainerView>, port: u16, from: int)
    -> Option<int>
    decreases containers.len() - from,
{
    if from < 0 || from >= containers.len() {
        None
    } else if publishes(containers[from], port) {
        Some(from)
    } else {
        first_publishing(containers, port, from + 1)
    }
}

/// The first container that publishes `port`.
pub open spec fn container_publishing(containers: Seq<DockerContainerView>, port: u16) -> Option<
    DockerContainerView,
> {
    match first_publishing(containers, port, 0) {
        Some(i) => Some(containers[i]),
        None => None,
    }
}

/// The host port that the host side of a mapping names.
pub fn host_port(host: &str) -> (r: Option<u16>)
    ensures
        r == host_port_of(host@),
{
    let chars = to_chars(host);
    if chars_have(&chars, ':') {
        let tail = chars_after_last(&chars, ':');
        read_u16(&tail)
    } else {
        None
    }
}

/// The container port and the protocol that the container side of a mapping
/// names.
pub fn container_side_of(container: &str) -> (r: (u16, String))
    ensures
        (r.0, r.1@) == container_side(container@),
{
    let chars = to_chars(container);
    let slash: usize = chars_find(&chars, '/', 0);
    if slash < chars.len() {
        let digits = copy_range(&chars, 0, slash);
        let number: u16 = match read_u16(&digits) {
            Some(n) => n,
            None => 0,
        };
        let protocol = container.substring_char(slash + 1, chars.len()).to_string();
        (number, protocol)
    } else {
        let number: u16 = match read_u16(&chars) {
            Some(n) => n,
            None => 0,
        };
        (number, "tcp".to_string())
    }
}

/// The port that one mapping publishes.
pub fn port_of_mapping(mapping: &str) -> (r: Option<DockerPort>)
    ensures
        r is Some == mapping_port(mapping@) is Some,
        r matches Some(p) ==> mapping_port(mapping@) == Some(p@),
{
    let chars = to_chars(mapping);
    let arrow_text = to_chars("->");
    match chars_find_text(&chars, &arrow_text) {
        Some(arrow) => {
            let host: &str = mapping.substring_char(0, arrow);
            match host_port(host) {
                Some(host_port) => {
                    let container: &str = mapping.substring_char(
                        arrow + arrow_text.len(),
                        chars.len(),
                    );
                    let (container_port, protocol) = container_side_of(container);
                    Some(DockerPort { container_port, host_port, protocol })
                },
                None => None,
            }
        },
        None => None,
    }
}

/// The Docker monitor.
pub struct DockerMonitor;

impl DockerMonitor {
    /// A Docker monitor.
    pub fn new() -> (r: Self) {
        DockerMonitor
    }

    /// The ports that a list of mappings publishes. The mappings are separated
    /// by commas and have the form `0.0.0.0:8080->80/tcp`; one that does not
    /// name a host port is passed over.
    pub fn parse_docker_ports(&self, ports_str: &str) -> (ports: Vec<DockerPort>)
        ensures
            ports.deep_view() == docker_ports(ports_str@),
    {
        let mappings = split_text(ports_str, ',');
        let mut ports: Vec<DockerPort> = Vec::new();
        let mut i: usize = 0;
        while i < mappings.len()
            invariant
                i <= mappings.len(),
                mappings.deep_view() == split_on(ports_str@, ','),
                docker_ports(ports_str@) == ports.deep_view() + ports_from(
                    split_on(ports_str@, ','),
                    i as int,
                ),
            decreases mappings.len() - i,
        {
            assert(mappings.deep_view()[i as int] == mappings@[i as int]@);
            let ghost shown = ports.deep_view();
            let ghost rest = ports_from(split_on(ports_str@, ','), i + 1);
            let mapping = trim_text(mappings[i]);
            match port_of_mapping(mapping) {
                Some(port) => {
                    ports.push(port);
                    assert(ports.deep_view() =~= shown.push(port@));
                    assert(shown + (seq![port@] + rest) =~= shown.push(port@) + rest);
                },
                None => {},
            }
            i += 1;
        }
        assert(ports.deep_view() + Seq::<DockerPortView>::empty() =~= ports.deep_view());
        ports
    }

    /// The container that one line of the listing describes.
    pub fn parse_container_line(&self, line: &str) -> (r: Option<DockerContainer>)
        ensures
            optional_container(r) == line_container(line@),
    {
        let fields = split_text(line, '|');
        if fields.len() < 6 {
            return None;
        }
        assert(fields.deep_view()[0] == fields@[0]@);
        assert(fields.deep_view()[1] == fields@[1]@);
        assert(fields.deep_view()[2] == fields@[2]@);
        assert(fields.deep_view()[3] == fields@[3]@);
        assert(fields.deep_view()[4] == fields@[4]@);
        assert(fields.deep_view()[5] == fields@[5]@);
        let ports = self.parse_docker_ports(fields[4]);
        Some(
            DockerContainer {
                id: fields[0].to_string(),
                name: fields[1].to_string(),
                image: fields[2].to_string(),
                status: fields[3].to_string(),
                ports,
                created: fields[5].to_string(),
            },
        )
    }

    /// The containers that a listing describes, one for each line of six or
    /// more fields, in the order of the lines.
    pub fn get_containers(&self, listing: &str) -> (containers: Vec<DockerContainer>)
        ensures
            containers.deep_view() == listed_containers(listing@),
    {
        let all = text_lines(listing);
        let mut containers: Vec<DockerContainer> = Vec::new();
        let mut i: usize = 0;
        while i < all.len()
            invariant
                i <= all.len(),
                all.deep_view() == lines(listing@),
                listed_containers(listing@) == containers.deep_view() + containers_from(
                    lines(listing@),
                    i as int,
                ),
            decreases all.len() - i,
        {
            assert(all.deep_view()[i as int] == all@[i as int]@);
            let ghost shown = containers.deep_view();
            let ghost rest = containers_from(lines(listing@), i + 1);
            match self.parse_container_line(all[i]) {
                Some(container) => {
                    containers.push(container);
                    assert(containers.deep_view() =~= shown.push(container@));
                    assert(shown + (seq![container@] + rest) =~= shown.push(container@) + rest);
                },
                None => {},
            }
            i += 1;
        }
        assert(containers.deep_view() + Seq::<DockerContainerView>::empty()
            =~= containers.deep_view());
        containers
    }

    /// Whether `container` publishes the host port `port`.
    pub fn container_publishes(&self, container: &DockerContainer, port: u16) -> (r: bool)
        ensures
            r == publishes(container@, port),
    {
        let mut i: usize = 0;
        while i < container.ports.len()
            invariant
                i <= container.ports.len(),
                forall|k: int| 0 <= k < i ==> (#[trigger] container@.ports[k]).host_port != port,
            decreases container.ports.len() - i,
        {
            assert(container@.ports[i as int] == container.ports@[i as int]@);
            if container.ports[i].host_port == port {
                return true;
            }
            i += 1;
        }
        false
    }

    /// The first of `containers` that publishes the host port `port`.
    pub fn get_container_by_port(&self, containers: Vec<DockerContainer>, port: u16) -> (r: Option<
        DockerContainer,
    >)
        ensures
            optional_container(r) == container_publishing(containers.deep_view(), port),
    {
        let mut list = containers;
        let mut i: usize = 0;
        while i < list.len()
            invariant
                i <= list.len(),
                list == containers,
                first_publishing(containers.deep_view(), port, 0) == first_publishing(
                    containers.deep_view(),
                    port,
                    i as int,
                ),
            decreases list.len() - i,
        {
            assert(list.deep_view()[i as int] == list@[i as int]@);
            if self.container_publishes(&list[i], port) {
                return Some(list.swap_remove(i));
            }
            i += 1;
        }
        None
    }
}

} // verus!
