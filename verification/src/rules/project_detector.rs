//! The signature catalogue: heuristics that recognise the project behind a
//! process from its name, its command line and its port, and the fallback by
//! process family for what no signature recognises.

use crate::paths::{parent_directory, path_parent};
use crate::records::{
    optional_project, optional_text, ProcessInfo, ProcessInfoView, ProjectInfo, ProjectInfoView,
};
use crate::rules::process_rules::{
    in_ranges, labels1, labels2, one_range, optional_ranges, port_in_ranges, two_ranges,
};
use crate::text::{chars_contain, chars_have, contains, has_char, same_text, to_chars};
use vstd::prelude::*;

verus! {

/// A heuristic that recognises one kind of project.
#[derive(Clone, Debug, PartialEq, Eq)]
pub struct ProjectSignature {
    pub name: String,
    pub project_type: String,
    pub description: String,
    pub process_names: Vec<String>,
    pub command_patterns: Vec<String>,
    pub port_ranges: Option<Vec<(u16, u16)>>,
}

/// The mathematical content of a `ProjectSignature`.
pub struct ProjectSignatureView {
    pub name: Seq<char>,
    pub project_type: Seq<char>,
    pub description: Seq<char>,
    pub process_names: Seq<Seq<char>>,
    pub command_patterns: Seq<Seq<char>>,
    pub port_ranges: Option<Seq<(u16, u16)>>,
}

impl View for ProjectSignature {
    type V = ProjectSignatureView;

    open spec fn view(&self) -> ProjectSignatureView {
        ProjectSignatureView {
            name: self.name@,
            project_type: self.project_type@,
            description: self.description@,
            process_names: self.process_names.deep_view(),
            command_patterns: self.command_patterns.deep_view(),
            port_ranges: optional_ranges(self.port_ranges),
        }
    }
}

impl DeepView for ProjectSignature {
    type V = ProjectSignatureView;

    open spec fn deep_view(&self) -> ProjectSignatureView {
        self@
    }
}

/// Whether one of `patterns` occurs in `text`.
pub open spec fn any_part_of(patterns: Seq<Seq<char>>, text: Seq<char>) -> bool {
    exists|i: int| 0 <= i < patterns.len() && contains(text, #[trigger] patterns[i])
}

/// Whether `pattern` occurs in one of `tokens`.
pub open spec fn some_token_contains(tokens: Seq<Seq<char>>, pattern: Seq<char>) -> bool {
    exists|j: int| 0 <= j < tokens.len() && contains(#[trigger] tokens[j], pattern)
}

/// Whether one of `patterns` occurs in one of `tokens`.
pub open spec fn any_in_tokens(patterns: Seq<Seq<char>>, tokens: Seq<Seq<char>>) -> bool {
    exists|i: int| 0 <= i < patterns.len() && some_token_contains(tokens, #[trigger] patterns[i])
}

/// Whether a signature recognises a process: one of its process names occurs
/// in the name, one of its command patterns occurs in a token of the command
/// line, and the port lies in its port ranges if it has any.
pub open spec fn signature_matches(
    signature: ProjectSignatureView,
    name: Seq<char>,
    cmd: Seq<Seq<char>>,
    port: u16,
) -> bool {
    &&& any_part_of(signature.process_names, name)
    &&& any_in_tokens(signature.command_patterns, cmd)
    &&& signature.port_ranges matches Some(ranges) ==> in_ranges(ranges, port)
}

/// Position of the first signature at or after `from` that recognises the
/// process.
pub open spec fn first_matching(
    signatures: Seq<ProjectSignatureView>,
    name: Seq<char>,
    cmd: Seq<Seq<char>>,
    port: u16,
    from: int,
) -> Option<int>
    decreases signatures.len() - from,
{
    if from < 0 || from >= signatures.len() {
        None
    } else if signature_matches(signatures[from], name, cmd, port) {
        Some(from)
    } else {
        first_matching(signatures, name, cmd, port, from + 1)
    }
}

/// The signature at position `i` of the catalogue.
pub open spec fn default_signature(i: int) -> ProjectSignatureView {
    if i == 0 {
        ProjectSignatureView {
            name: "React开发服务器"@,
            project_type: "React"@,
            description: "前端React开发项目，提供热重载和开发服务"@,
            process_names: seq!["node"@],
            command_patterns: seq!["react-scripts"@, "webpack"@],
            port_ranges: Some(seq![(3000u16, 3999u16)]),
        }
    } else if i == 1 {
        ProjectSignatureView {
            name: "Vue开发服务器"@,
            project_type: "Vue"@,
            description: "前端Vue开发项目"@,
            process_names: seq!["node"@],
            command_patterns: seq!["vue-cli"@, "vite"@],
            port_ranges: Some(seq![(5173u16, 5173u16), (8080u16, 8080u16)]),
        }
    } else if i == 2 {
        ProjectSignatureView {
            name: "Next.js开发服务器"@,
            project_type: "Next.js"@,
            description: "React框架Next.js开发项目"@,
            process_names: seq!["node"@],
            command_patterns: seq!["next"@],
            port_ranges: Some(seq![(3000u16, 3000u16)]),
        }
    } else if i == 3 {
        ProjectSignatureView {
            name: "Spring Boot应用"@,
            project_type: "Spring"@,
            description: "Java Spring Boot后端服务"@,
            process_names: seq!["java"@],
            command_patterns: seq!["spring-boot"@],
            port_ranges: Some(seq![(8080u16, 8080u16)]),
        }
    } else if i == 4 {
        ProjectSignatureView {
            name: "Flask应用"@,
            project_type: "Flask"@,
            description: "Python Flask Web应用"@,
            process_names: seq!["python"@],
            command_patterns: seq!["flask"@],
            port_ranges: Some(seq![(5000u16, 5000u16)]),
        }
    } else {
        ProjectSignatureView {
            name: "Django应用"@,
            project_type: "Django"@,
            description: "Python Django Web应用"@,
            process_names: seq!["python"@],
            command_patterns: seq!["django"@, "runserver"@],
            port_ranges: Some(seq![(8000u16, 8000u16)]),
        }
    }
}

/// How many signatures the catalogue holds.
pub open spec fn default_signature_count() -> nat {
    6
}

/// The signature catalogue, in the order in which it is searched.
pub open spec fn default_signatures() -> Seq<ProjectSignatureView> {
    Seq::new(default_signature_count(), |i: int| default_signature(i))
}

/// A project description.
pub open spec fn project(
    name: Seq<char>,
    project_type: Seq<char>,
    path: Option<Seq<char>>,
    description: Seq<char>,
) -> ProjectInfoView {
    ProjectInfoView { name, project_type, path, description }
}

/// What a process is taken for by its family alone, with `path` as the
/// project's directory: the exact process name picks the family, and the first
/// marker found in the command line refines it.
pub open spec fn generic_project(
    name: Seq<char>,
    cmd: Seq<Seq<char>>,
    path: Option<Seq<char>>,
) -> Option<ProjectInfoView> {
    if name == "node.exe"@ || name == "node"@ {
        if some_token_contains(cmd, "react-scripts"@) {
            Some(project("React开发服务器"@, "React"@, path, "前端React开发项目，提供热重载和开发服务"@))
        } else if some_token_contains(cmd, "vue-cli"@) {
            Some(project("Vue开发服务器"@, "Vue"@, path, "前端Vue开发项目"@))
        } else if some_token_contains(cmd, "next"@) {
            Some(project("Next.js开发服务器"@, "Next.js"@, path, "React框架Next.js开发项目"@))
        } else {
            Some(project("Node.js应用"@, "Node.js"@, path, "Node.js后端服务或工具"@))
        }
    } else if name == "java.exe"@ || name == "java"@ {
        if some_token_contains(cmd, "spring"@) {
            Some(project("Spring Boot应用"@, "Spring"@, path, "Java Spring Boot后端服务"@))
        } else {
            Some(project("Java应用"@, "Java"@, path, "Java应用程序"@))
        }
    } else if name == "python.exe"@ || name == "python"@ || name == "python3"@ {
        if some_token_contains(cmd, "flask"@) {
            Some(project("Flask应用"@, "Flask"@, path, "Python Flask Web应用"@))
        } else if some_token_contains(cmd, "django"@) {
            Some(project("Django应用"@, "Django"@, path, "Python Django Web应用"@))
        } else {
            Some(project("Python应用"@, "Python"@, path, "Python应用程序"@))
        }
    } else if name == "docker-proxy.exe"@ || name == "docker-proxy"@ {
        Some(project("Docker容器"@, "Docker"@, None, "Docker容器端口映射"@))
    } else {
        None
    }
}

/// What a process on `port` is recognised as, with `path` as the project's
/// directory: what the first signature that recognises it says, else what its
/// family says.
pub open spec fn detection(
    signatures: Seq<ProjectSignatureView>,
    process: ProcessInfoView,
    port: u16,
    path: Option<Seq<char>>,
) -> Option<ProjectInfoView> {
    match first_matching(signatures, process.name, process.cmd, port, 0) {
        Some(i) => Some(
            project(signatures[i].name, signatures[i].project_type, path, signatures[i].description),
        ),
        None => generic_project(process.name, process.cmd, path),
    }
}

/// Whether a command-line token holds a path separator of either kind.
pub open spec fn has_separator(token: Seq<char>) -> bool {
    has_char(token, '\\') || has_char(token, '/')
}

/// The project directory that the command line shows at or after `from`: the
/// parent directory of the first token that holds a path separator and has a
/// parent.
pub open spec fn project_path_from(cmd: Seq<Seq<char>>, from: int) -> Option<Seq<char>>
    decreases cmd.len() - from,
{
    if from < 0 || from >= cmd.len() {
        None
    } else if has_separator(cmd[from]) && path_parent(cmd[from]) is Some {
        path_parent(cmd[from])
    } else {
        project_path_from(cmd, from + 1)
    }
}

/// The project directory that the command line shows.
pub open spec fn project_path(cmd: Seq<Seq<char>>) -> Option<Seq<char>> {
    project_path_from(cmd, 0)
}

fn signature(
    name: &str,
    project_type: &str,
    description: &str,
    process_names: Vec<String>,
    command_patterns: Vec<String>,
    port_ranges: Option<Vec<(u16, u16)>>,
) -> (r: ProjectSignature)
    ensures
        r@ == (ProjectSignatureView {
            name: name@,
            project_type: project_type@,
            description: description@,
            process_names: process_names.deep_view(),
            command_patterns: command_patterns.deep_view(),
            port_ranges: optional_ranges(port_ranges),
        }),
{
    ProjectSignature {
        name: name.to_string(),
        project_type: project_type.to_string(),
        description: description.to_string(),
        process_names,
        command_patterns,
        port_ranges,
    }
}

/// The signature catalogue, in the order in which it is searched.
pub fn get_project_signatures() -> (signatures: Vec<ProjectSignature>)
    ensures
        signatures.deep_view() == default_signatures(),
{
    let mut signatures: Vec<ProjectSignature> = Vec::new();
    signatures.push(
        signature("React开发服务器", "React", "前端React开发项目，提供热重载和开发服务", labels1("node"), labels2("react-scripts", "webpack"), Some(one_range(3000, 3999))),
    );
    assert(signatures@[0]@ == default_signature(0));
    signatures.push(
        signature("Vue开发服务器", "Vue", "前端Vue开发项目", labels1("node"), labels2("vue-cli", "vite"), Some(two_ranges(5173, 5173, 8080, 8080))),
    );
    assert(signatures@[1]@ == default_signature(1));
    signatures.push(
        signature("Next.js开发服务器", "Next.js", "React框架Next.js开发项目", labels1("node"), labels1("next"), Some(one_range(3000, 3000))),
    );
    assert(signatures@[2]@ == default_signature(2));
    signatures.push(
        signature("Spring Boot应用", "Spring", "Java Spring Boot后端服务", labels1("java"), labels1("spring-boot"), Some(one_range(8080, 8080))),
    );
    assert(signatures@[3]@ == default_signature(3));
    signatures.push(
        signature("Flask应用", "Flask", "Python Flask Web应用", labels1("python"), labels1("flask"), Some(one_range(5000, 5000))),
    );
    assert(signatures@[4]@ == default_signature(4));
    signatures.push(
        signature("Django应用", "Django", "Python Django Web应用", labels1("python"), labels2("django", "runserver"), Some(one_range(8000, 8000))),
    );
    assert(signatures@[5]@ == default_signature(5));
    assert(signatures.deep_view() =~= default_signatures());
    signatures
}

/// Whether one of `patterns` occurs in `text`.
pub fn text_has_any(patterns: &Vec<String>, text: &str) -> (r: bool)
    ensures
        r == any_part_of(patterns.deep_view(), text@),
{
    let hay = to_chars(text);
    let mut i: usize = 0;
    while i < patterns.len()
        invariant
            i <= patterns.len(),
            hay@ == text@,
            forall|k: int| 0 <= k < i ==> !contains(text@, #[trigger] patterns.deep_view()[k]),
        decreases patterns.len() - i,
    {
        let needle = to_chars(patterns[i].as_str());
        assert(patterns.deep_view()[i as int] == needle@);
        if chars_contain(&hay, &needle) {
            return true;
        }
        i += 1;
    }
    false
}

/// Whether `pattern` occurs in one of `tokens`.
pub fn token_with(tokens: &Vec<String>, pattern: &str) -> (r: bool)
    ensures
        r == some_token_contains(tokens.deep_view(), pattern@),
{
    let needle = to_chars(pattern);
    let mut j: usize = 0;
    while j < tokens.len()
        invariant
            j <= tokens.len(),
            needle@ == pattern@,
            forall|k: int| 0 <= k < j ==> !contains(#[trigger] tokens.deep_view()[k], pattern@),
        decreases tokens.len() - j,
    {
        let hay = to_chars(tokens[j].as_str());
        assert(tokens.deep_view()[j as int] == hay@);
        if chars_contain(&hay, &needle) {
            return true;
        }
        j += 1;
    }
    false
}

/// Whether one of `patterns` occurs in one of `tokens`.
pub fn tokens_have_any(patterns: &Vec<String>, tokens: &Vec<String>) -> (r: bool)
    ensures
        r == any_in_tokens(patterns.deep_view(), tokens.deep_view()),
{
    let mut i: usize = 0;
    while i < patterns.len()
        invariant
            i <= patterns.len(),
            forall|k: int|
                0 <= k < i ==> !some_token_contains(
                    tokens.deep_view(),
                    #[trigger] patterns.deep_view()[k],
                ),
        decreases patterns.len() - i,
    {
        assert(patterns.deep_view()[i as int] == patterns[i as int]@);
        if token_with(tokens, patterns[i].as_str()) {
            return true;
        }
        i += 1;
    }
    false
}

/// Whether `signature` recognises `process` on `port`.
pub fn signature_recognises(signature: &ProjectSignature, process: &ProcessInfo, port: u16) -> (r:
    bool)
    ensures
        r == signature_matches(signature@, process@.name, process@.cmd, port),
{
    if !text_has_any(&signature.process_names, process.name.as_str()) {
        return false;
    }
    if !tokens_have_any(&signature.command_patterns, &process.cmd) {
        return false;
    }
    match &signature.port_ranges {
        Some(ranges) => port_in_ranges(ranges, port),
        None => true,
    }
}

fn new_project(name: &str, project_type: &str, path: Option<String>, description: &str) -> (r:
    ProjectInfo)
    ensures
        r@ == project(name@, project_type@, optional_text(path), description@),
{
    ProjectInfo {
        name: name.to_string(),
        project_type: project_type.to_string(),
        path,
        description: description.to_string(),
    }
}

/// The texts of a list of optional strings.
pub open spec fn optional_texts(list: Seq<Option<String>>) -> Seq<Option<Seq<char>>> {
    Seq::new(list.len(), |i: int| optional_text(list[i]))
}

/// The first parent directory at or after `from` that belongs to a token with
/// a path separator, where `parents` gives for each token of the command line
/// its parent directory, if it has one.
pub open spec fn first_parent_from(
    cmd: Seq<Seq<char>>,
    parents: Seq<Option<Seq<char>>>,
    from: int,
) -> Option<Seq<char>>
    decreases cmd.len() - from,
{
    if from < 0 || from >= cmd.len() {
        None
    } else if has_separator(cmd[from]) && from < parents.len() && parents[from] is Some {
        parents[from]
    } else {
        first_parent_from(cmd, parents, from + 1)
    }
}

/// With the parent directory of each token that holds a path separator at
/// hand, the first of them is the project directory that the command line
/// shows.
pub proof fn lemma_first_parent_is_project_path(
    cmd: Seq<Seq<char>>,
    parents: Seq<Option<Seq<char>>>,
    from: int,
)
    requires
        parents.len() == cmd.len(),
        forall|j: int|
            0 <= j < cmd.len() && has_separator(#[trigger] cmd[j]) ==> parents[j] == path_parent(
                cmd[j],
            ),
    ensures
        first_parent_from(cmd, parents, from) == project_path_from(cmd, from),
    decreases cmd.len() - from,
{
    if 0 <= from < cmd.len() {
        lemma_first_parent_is_project_path(cmd, parents, from + 1);
    }
}

/// The first of `parents` that belongs to a token of `cmd` with `\` or `/`
/// in it. A token and its parent directory stand at the same position.
pub fn first_parent(cmd: &Vec<String>, parents: &Vec<Option<String>>) -> (r: Option<String>)
    ensures
        optional_text(r) == first_parent_from(cmd.deep_view(), optional_texts(parents@), 0),
{
    let mut i: usize = 0;
    while i < cmd.len()
        invariant
            i <= cmd.len(),
            first_parent_from(cmd.deep_view(), optional_texts(parents@), 0) == first_parent_from(
                cmd.deep_view(),
                optional_texts(parents@),
                i as int,
            ),
        decreases cmd.len() - i,
    {
        let token = to_chars(cmd[i].as_str());
        assert(cmd.deep_view()[i as int] == token@);
        if (chars_have(&token, '\\') || chars_have(&token, '/')) && i < parents.len() {
            assert(optional_texts(parents@)[i as int] == optional_text(parents@[i as int]));
            match &parents[i] {
                Some(parent) => {
                    return Some(parent.clone());
                },
                None => {},
            }
        }
        i += 1;
    }
    None
}

/// The project directory that the command line `cmd` shows: the parent
/// directory of the first token that holds `\` or `/` and has a parent.
pub fn extract_project_path(cmd: &Vec<String>) -> (r: Option<String>)
    ensures
        optional_text(r) == project_path(cmd.deep_view()),
{
    let mut parents: Vec<Option<String>> = Vec::new();
    let mut i: usize = 0;
    while i < cmd.len()
        invariant
            i <= cmd.len(),
            parents.len() == i,
            forall|j: int|
                0 <= j < i && has_separator(#[trigger] cmd.deep_view()[j]) ==> optional_text(
                    parents@[j],
                ) == path_parent(cmd.deep_view()[j]),
        decreases cmd.len() - i,
    {
        let token = to_chars(cmd[i].as_str());
        assert(cmd.deep_view()[i as int] == token@);
        if chars_have(&token, '\\') || chars_have(&token, '/') {
            parents.push(parent_directory(cmd[i].as_str()));
        } else {
            parents.push(None);
        }
        i += 1;
    }
    proof {
        assert forall|j: int|
            0 <= j < cmd.len() && has_separator(
                #[trigger] cmd.deep_view()[j],
            ) implies optional_texts(parents@)[j] == path_parent(cmd.deep_view()[j]) by {
            assert(optional_texts(parents@)[j] == optional_text(parents@[j]));
        }
        lemma_first_parent_is_project_path(cmd.deep_view(), optional_texts(parents@), 0);
    }
    first_parent(cmd, &parents)
}

/// What `process` is taken for by its family alone, with `path` as the
/// project's directory.
pub fn generic_project_with_path(process: &ProcessInfo, path: Option<String>) -> (r: Option<
    ProjectInfo,
>)
    ensures
        optional_project(r) == generic_project(process@.name, process@.cmd, optional_text(path)),
{
    let name: &str = process.name.as_str();
    if same_text(name, "node.exe") || same_text(name, "node") {
        if token_with(&process.cmd, "react-scripts") {
            Some(new_project("React开发服务器", "React", path, "前端React开发项目，提供热重载和开发服务"))
        } else if token_with(&process.cmd, "vue-cli") {
            Some(new_project("Vue开发服务器", "Vue", path, "前端Vue开发项目"))
        } else if token_with(&process.cmd, "next") {
            Some(new_project("Next.js开发服务器", "Next.js", path, "React框架Next.js开发项目"))
        } else {
            Some(new_project("Node.js应用", "Node.js", path, "Node.js后端服务或工具"))
        }
    } else if same_text(name, "java.exe") || same_text(name, "java") {
        if token_with(&process.cmd, "spring") {
            Some(new_project("Spring Boot应用", "Spring", path, "Java Spring Boot后端服务"))
        } else {
            Some(new_project("Java应用", "Java", path, "Java应用程序"))
        }
    } else if same_text(name, "python.exe") || same_text(name, "python") || same_text(name, "python3") {
        if token_with(&process.cmd, "flask") {
            Some(new_project("Flask应用", "Flask", path, "Python Flask Web应用"))
        } else if token_with(&process.cmd, "django") {
            Some(new_project("Django应用", "Django", path, "Python Django Web应用"))
        } else {
            Some(new_project("Python应用", "Python", path, "Python应用程序"))
        }
    } else if same_text(name, "docker-proxy.exe") || same_text(name, "docker-proxy") {
        Some(new_project("Docker容器", "Docker", None, "Docker容器端口映射"))
    } else {
        None
    }
}

/// What `process` is taken for by its family alone. The port plays no part.
pub fn detect_generic_project(process: &ProcessInfo, _port: u16) -> (r: Option<ProjectInfo>)
    ensures
        optional_project(r) == generic_project(
            process@.name,
            process@.cmd,
            project_path(process@.cmd),
        ),
{
    let path = extract_project_path(&process.cmd);
    generic_project_with_path(process, path)
}

/// What `process` on `port` is recognised as, with `path` as the project's
/// directory: the first signature of the catalogue that recognises it decides;
/// where none does, the process family decides; `None` where that knows
/// nothing either.
pub fn detect_project_with_path(process: &ProcessInfo, port: u16, path: Option<String>) -> (r:
    Option<ProjectInfo>)
    ensures
        optional_project(r) == detection(
            default_signatures(),
            process@,
            port,
            optional_text(path),
        ),
{
    let signatures = get_project_signatures();
    let mut i: usize = 0;
    while i < signatures.len()
        invariant
            i <= signatures.len(),
            signatures.deep_view() == default_signatures(),
            first_matching(default_signatures(), process@.name, process@.cmd, port, 0)
                == first_matching(default_signatures(), process@.name, process@.cmd, port, i as int),
        decreases signatures.len() - i,
    {
        let candidate: &ProjectSignature = &signatures[i];
        assert(signatures.deep_view()[i as int] == candidate@);
        if signature_recognises(candidate, process, port) {
            return Some(
                ProjectInfo {
                    name: candidate.name.clone(),
                    project_type: candidate.project_type.clone(),
                    path,
                    description: candidate.description.clone(),
                },
            );
        }
        i += 1;
    }
    generic_project_with_path(process, path)
}

/// What `process` on `port` is recognised as. The project's directory is the
/// one that the command line shows.
pub fn detect_project(process: &ProcessInfo, port: u16) -> (r: Option<ProjectInfo>)
    ensures
        optional_project(r) == detection(
            default_signatures(),
            process@,
            port,
            project_path(process@.cmd),
        ),
{
    let path = extract_project_path(&process.cmd);
    detect_project_with_path(process, port, path)
}

} // verus!
