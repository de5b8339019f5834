//! What holds of the library as a whole, stated over the same spec functions
//! as the contracts of its functions and proved from their definitions.

use crate::monitor::port::{
    is_listening_tcp, line_record, listing_entry, listing_records, port_record, records_from,
    rule_suggestions, suggestions_for, table_process, ListingSchema, PortMonitor,
};
use crate::records::ProcessInfoView;
use crate::rules::process_rules::{
    default_rule, default_rule_count, default_rules, first_covering, first_named, in_ranges,
    lemma_first_named, rule_covers, rule_for_port, rule_named, ProcessRuleView, ProcessRules,
};
use crate::rules::project_detector::{
    any_in_tokens, any_part_of, detection, first_matching, generic_project, project,
    signature_matches, ProjectSignatureView,
};
use crate::text::{all_digits, digits_value, split_whitespace};
use crate::text_laws::{
    is_layout, lemma_digits_parse, lemma_rfind_before_tail, lemma_tokens_of_spaced, spaced,
};
use vstd::prelude::*;

verus! {

/// A line that shows a listening TCP socket and whose two numbers can be read
/// yields exactly one pair: the port written after the last colon of the local
/// address, and the process id.
///
/// The line is given by its fields and the whitespace around them; the local
/// address is any text, a colon and the digits of the port.
pub proof fn law_listening_line_yields_its_port(
    fields: Seq<Seq<char>>,
    gaps: Seq<Seq<char>>,
    schema: ListingSchema,
    host: Seq<char>,
    port_digits: Seq<char>,
    pid_digits: Seq<char>,
)
    requires
        is_layout(fields, gaps),
        fields.len() >= schema.width(),
        fields[schema.protocol_column()] == "TCP"@,
        fields[schema.state_column()] == "LISTENING"@,
        fields[schema.address_column()] == host + seq![':'] + port_digits,
        fields[schema.pid_column()] == pid_digits,
        port_digits.len() > 0,
        all_digits(port_digits),
        digits_value(port_digits) <= 0xFFFF,
        pid_digits.len() > 0,
        all_digits(pid_digits),
        digits_value(pid_digits) <= 0xFFFF_FFFF,
    ensures
        listing_entry(spaced(fields, gaps), schema) == Some(
            (digits_value(port_digits) as u16, digits_value(pid_digits) as u32),
        ),
{
    lemma_tokens_of_spaced(fields, gaps);
    lemma_digits_parse(port_digits, 0xFFFF);
    lemma_digits_parse(pid_digits, 0xFFFF_FFFF);
    lemma_rfind_before_tail(host, ':', port_digits);
}

/// A line whose protocol is not `TCP` or whose state is not `LISTENING`
/// yields nothing, whatever else it holds and whatever the process table
/// knows.
pub proof fn law_other_lines_yield_nothing(
    rules: Seq<ProcessRuleView>,
    table: Map<u32, (Seq<char>, Option<Seq<char>>, Seq<Seq<char>>)>,
    line: Seq<char>,
    schema: ListingSchema,
)
    requires
        split_whitespace(line).len() >= schema.width() ==> split_whitespace(
            line,
        )[schema.protocol_column()] != "TCP"@ || split_whitespace(line)[schema.state_column()]
            != "LISTENING"@,
    ensures
        !is_listening_tcp(line, schema),
        listing_entry(line, schema) is None,
        line_record(rules, table, line, schema) is None,
{
}

/// A line written as fields with whitespace between them yields nothing if
/// its protocol field is not `TCP` or its state field is not `LISTENING`.
pub proof fn law_other_fields_yield_nothing(
    fields: Seq<Seq<char>>,
    gaps: Seq<Seq<char>>,
    schema: ListingSchema,
)
    requires
        is_layout(fields, gaps),
        fields.len() >= schema.width() ==> fields[schema.protocol_column()] != "TCP"@
            || fields[schema.state_column()] != "LISTENING"@,
    ensures
        listing_entry(spaced(fields, gaps), schema) is None,
{
    lemma_tokens_of_spaced(fields, gaps);
}

/// A port range holds both of its bounds: a port equal to the lower or to the
/// upper bound of one of the ranges lies in the ranges.
pub proof fn law_range_holds_its_bounds(ranges: Seq<(u16, u16)>, i: int)
    requires
        0 <= i < ranges.len(),
        ranges[i].0 <= ranges[i].1,
    ensures
        in_ranges(ranges, ranges[i].0),
        in_ranges(ranges, ranges[i].1),
{
}

/// What `first_covering` finds: the earliest rule at or after `from` that
/// covers the port, and `None` only where no rule from there on covers it.
pub proof fn lemma_first_covering(rules: Seq<ProcessRuleView>, port: u16, from: int)
    requires
        0 <= from <= rules.len(),
    ensures
        match first_covering(rules, port, from) {
            Some(k) => {
                &&& from <= k < rules.len()
                &&& rule_covers(rules[k], port)
                &&& forall|j: int| from <= j < k ==> !rule_covers(#[trigger] rules[j], port)
            },
            None => forall|j: int|
                from <= j < rules.len() ==> !rule_covers(#[trigger] rules[j], port),
        },
    decreases rules.len() - from,
{
    if from < rules.len() && !rule_covers(rules[from], port) {
        lemma_first_covering(rules, port, from + 1);
    }
}

/// A lookup by port finds a rule for a port that is a bound of one of the
/// ranges of a rule, and the rule found covers the port.
pub proof fn law_lookup_by_port_holds_bounds(rules: Seq<ProcessRuleView>, k: int, i: int)
    requires
        0 <= k < rules.len(),
        rules[k].port_ranges is Some,
        0 <= i < rules[k].port_ranges->0.len(),
        rules[k].port_ranges->0[i].0 <= rules[k].port_ranges->0[i].1,
    ensures
        rule_for_port(rules, rules[k].port_ranges->0[i].0) matches Some(found) && rule_covers(
            found,
            rules[k].port_ranges->0[i].0,
        ),
        rule_for_port(rules, rules[k].port_ranges->0[i].1) matches Some(found) && rule_covers(
            found,
            rules[k].port_ranges->0[i].1,
        ),
{
    let ranges = rules[k].port_ranges->0;
    law_range_holds_its_bounds(ranges, i);
    assert(rule_covers(rules[k], ranges[i].0));
    assert(rule_covers(rules[k], ranges[i].1));
    lemma_first_covering(rules, ranges[i].0, 0);
    lemma_first_covering(rules, ranges[i].1, 0);
}

/// A lookup by name depends on the rules and on the name alone: two
/// catalogues of the same rules answer the same name alike.
pub proof fn law_lookup_by_name_is_a_function(
    first: &ProcessRules,
    second: &ProcessRules,
    name: Seq<char>,
    again: Seq<char>,
)
    requires
        first@ == second@,
        name == again,
    ensures
        rule_named(first@, name) == rule_named(second@, again),
{
}

/// A lookup by name finds a rule exactly where some rule has that name, and
/// then the earliest such rule.
pub proof fn law_lookup_by_name_finds_the_earliest(rules: Seq<ProcessRuleView>, name: Seq<char>)
    ensures
        rule_named(rules, name) is Some <==> exists|j: int|
            0 <= j < rules.len() && (#[trigger] rules[j]).process_name == name,
        rule_named(rules, name) matches Some(rule) ==> rule.process_name == name,
        first_named(rules, name, 0) matches Some(k) ==> forall|j: int|
            0 <= j < k ==> (#[trigger] rules[j]).process_name != name,
{
    lemma_first_named(rules, name, 0);
}

/// What `first_matching` finds: the earliest signature at or after `from`
/// that recognises the process, and `None` only where none from there on
/// does.
pub proof fn lemma_first_matching(
    signatures: Seq<ProjectSignatureView>,
    name: Seq<char>,
    cmd: Seq<Seq<char>>,
    port: u16,
    from: int,
)
    requires
        0 <= from <= signatures.len(),
    ensures
        match first_matching(signatures, name, cmd, port, from) {
            Some(k) => {
                &&& from <= k < signatures.len()
                &&& signature_matches(signatures[k], name, cmd, port)
                &&& forall|j: int|
                    from <= j < k ==> !signature_matches(#[trigger] signatures[j], name, cmd, port)
            },
            None => forall|j: int|
                from <= j < signatures.len() ==> !signature_matches(
                    #[trigger] signatures[j],
                    name,
                    cmd,
                    port,
                ),
        },
    decreases signatures.len() - from,
{
    if from < signatures.len() && !signature_matches(signatures[from], name, cmd, port) {
        lemma_first_matching(signatures, name, cmd, port, from + 1);
    }
}

/// A process is described by a signature only if that signature passes all
/// its tests at once: one of its process names occurs in the name, one of its
/// command patterns occurs in the command line, and the port lies in its port
/// ranges where it has any. The signature that describes it is the first such
/// one; where there is none, the process family alone decides.
pub proof fn law_signature_passes_all_tests(
    signatures: Seq<ProjectSignatureView>,
    process: ProcessInfoView,
    port: u16,
    path: Option<Seq<char>>,
)
    ensures
        match first_matching(signatures, process.name, process.cmd, port, 0) {
            Some(k) => {
                &&& 0 <= k < signatures.len()
                &&& any_part_of(signatures[k].process_names, process.name)
                &&& any_in_tokens(signatures[k].command_patterns, process.cmd)
                &&& signatures[k].port_ranges matches Some(ranges) ==> in_ranges(ranges, port)
                &&& forall|j: int|
                    0 <= j < k ==> !signature_matches(
                        #[trigger] signatures[j],
                        process.name,
                        process.cmd,
                        port,
                    )
                &&& detection(signatures, process, port, path) == Some(
                    project(
                        signatures[k].name,
                        signatures[k].project_type,
                        path,
                        signatures[k].description,
                    ),
                )
            },
            None => {
                &&& forall|j: int|
                    0 <= j < signatures.len() ==> !signature_matches(
                        #[trigger] signatures[j],
                        process.name,
                        process.cmd,
                        port,
                    )
                &&& detection(signatures, process, port, path) == generic_project(
                    process.name,
                    process.cmd,
                    path,
                )
            },
        },
{
    lemma_first_matching(signatures, process.name, process.cmd, port, 0);
}

/// Where a rule has exactly the name of a process, the suggestions are the
/// actions of that rule, each with its meaning, one for one and in order; what
/// would be suggested by the name alone plays no part, nor does it matter
/// whether a project was recognised.
pub proof fn law_rule_decides_alone(
    rules: Seq<ProcessRuleView>,
    process: ProcessInfoView,
    port: u16,
    classified: bool,
)
    requires
        rule_named(rules, process.name) is Some,
    ensures
        suggestions_for(rules, process.name, classified) == rule_suggestions(
            rule_named(rules, process.name)->0.actions,
        ),
        port_record(rules, process, port).suggestions == rule_suggestions(
            rule_named(rules, process.name)->0.actions,
        ),
        suggestions_for(rules, process.name, classified).len() == rule_named(
            rules,
            process.name,
        )->0.actions.len(),
        forall|i: int|
            0 <= i < rule_named(rules, process.name)->0.actions.len() ==> (
            #[trigger] suggestions_for(rules, process.name, classified)[i]).action == rule_named(
                rules,
                process.name,
            )->0.actions[i],
{
}

/// Two readings of one listing give the same records as long as the process
/// table and the catalogue are the same.
pub proof fn law_same_table_same_records(
    first: &PortMonitor,
    second: &PortMonitor,
    listing: Seq<char>,
    schema: ListingSchema,
)
    requires
        first.rules() == second.rules(),
        first.processes() == second.processes(),
    ensures
        listing_records(first.rules(), first.processes(), listing, schema) == listing_records(
            second.rules(),
            second.processes(),
            listing,
            schema,
        ),
{
}

/// A record always has its process: the record of a line holds the port and
/// the process id that the line yields, and its process is the one that the
/// table holds under that id.
pub proof fn law_record_has_its_process(
    rules: Seq<ProcessRuleView>,
    table: Map<u32, (Seq<char>, Option<Seq<char>>, Seq<Seq<char>>)>,
    line: Seq<char>,
    schema: ListingSchema,
)
    ensures
        line_record(rules, table, line, schema) matches Some(record) ==> {
            &&& listing_entry(line, schema) == Some((record.port, record.process.pid))
            &&& table.contains_key(record.process.pid)
            &&& table_process(table, record.process.pid) == Some(record.process)
            &&& record == port_record(rules, record.process, record.port)
        },
{
}

/// A line whose process id the table does not know yields no record.
pub proof fn law_unknown_process_drops_the_line(
    rules: Seq<ProcessRuleView>,
    table: Map<u32, (Seq<char>, Option<Seq<char>>, Seq<Seq<char>>)>,
    line: Seq<char>,
    schema: ListingSchema,
)
    requires
        listing_entry(line, schema) matches Some(entry) && !table.contains_key(entry.1),
    ensures
        line_record(rules, table, line, schema) is None,
{
}

/// A listing yields at most one record for each of its lines.
pub proof fn law_at_most_one_record_for_each_line(
    rules: Seq<ProcessRuleView>,
    table: Map<u32, (Seq<char>, Option<Seq<char>>, Seq<Seq<char>>)>,
    all: Seq<Seq<char>>,
    schema: ListingSchema,
    from: int,
)
    requires
        0 <= from <= all.len(),
    ensures
        records_from(rules, table, all, schema, from).len() <= all.len() - from,
    decreases all.len() - from,
{
    if from < all.len() {
        law_at_most_one_record_for_each_line(rules, table, all, schema, from + 1);
    }
}

/// In the catalogue of well-known processes no name occurs twice, so each of
/// its rules is the one that a lookup by its name finds.
pub proof fn law_default_rules_are_found_by_name(i: int)
    requires
        0 <= i < default_rule_count(),
    ensures
        forall|j: int|
            0 <= j < default_rule_count() && j != i ==> default_rule(j).process_name
                != default_rule(i).process_name,
        rule_named(default_rules(), default_rule(i).process_name) == Some(default_rule(i)),
{
    reveal_strlit("node.exe");
    reveal_strlit("java.exe");
    reveal_strlit("python.exe");
    reveal_strlit("chrome.exe");
    reveal_strlit("firefox.exe");
    reveal_strlit("msedge.exe");
    reveal_strlit("mysqld.exe");
    reveal_strlit("postgres.exe");
    reveal_strlit("mongod.exe");
    reveal_strlit("docker.exe");
    reveal_strlit("docker-proxy.exe");
    reveal_strlit("svchost.exe");
    reveal_strlit("System");
    reveal_strlit("WINWORD.EXE");
    reveal_strlit("EXCEL.EXE");
    reveal_strlit("vlc.exe");
    assert("node.exe"@.len() == 8);
    assert("java.exe"@.len() == 8);
    assert("python.exe"@.len() == 10);
    assert("chrome.exe"@.len() == 10);
    assert("firefox.exe"@.len() == 11);
    assert("msedge.exe"@.len() == 10);
    assert("mysqld.exe"@.len() == 10);
    assert("postgres.exe"@.len() == 12);
    assert("mongod.exe"@.len() == 10);
    assert("docker.exe"@.len() == 10);
    assert("docker-proxy.exe"@.len() == 16);
    assert("svchost.exe"@.len() == 11);
    assert("System"@.len() == 6);
    assert("WINWORD.EXE"@.len() == 11);
    assert("EXCEL.EXE"@.len() == 9);
    assert("vlc.exe"@.len() == 7);
    assert("node.exe"@[0] != "java.exe"@[0]);
    assert("python.exe"@[0] != "chrome.exe"@[0]);
    assert("python.exe"@[0] != "msedge.exe"@[0]);
    assert("chrome.exe"@[0] != "msedge.exe"@[0]);
    assert("python.exe"@[0] != "mysqld.exe"@[0]);
    assert("chrome.exe"@[0] != "mysqld.exe"@[0]);
    assert("msedge.exe"@[1] != "mysqld.exe"@[1]);
    assert("python.exe"@[0] != "mongod.exe"@[0]);
    assert("chrome.exe"@[0] != "mongod.exe"@[0]);
    assert("msedge.exe"@[1] != "mongod.exe"@[1]);
    assert("mysqld.exe"@[1] != "mongod.exe"@[1]);
    assert("python.exe"@[0] != "docker.exe"@[0]);
    assert("chrome.exe"@[0] != "docker.exe"@[0]);
    assert("msedge.exe"@[0] != "docker.exe"@[0]);
    assert("mysqld.exe"@[0] != "docker.exe"@[0]);
    assert("mongod.exe"@[0] != "docker.exe"@[0]);
    assert("firefox.exe"@[0] != "svchost.exe"@[0]);
    assert("firefox.exe"@[0] != "WINWORD.EXE"@[0]);
    assert("svchost.exe"@[0] != "WINWORD.EXE"@[0]);
    assert forall|j: int| 0 <= j < default_rule_count() && j != i implies default_rule(
        j,
    ).process_name != default_rule(i).process_name by {}
    assert forall|j: int| 0 <= j < default_rule_count() implies #[trigger] default_rules()[j]
        == default_rule(j) by {}
    let name = default_rule(i).process_name;
    lemma_first_named(default_rules(), name, 0);
    assert(default_rules()[i].process_name == name);
    match first_named(default_rules(), name, 0) {
        Some(k) => {
            assert(default_rules()[k] == default_rule(k));
            assert(k == i);
        },
        None => {},
    }
}

} // verus!
