//! Editor launch and build-task configurations for the runtime's components.
//!
//! The configurations this module writes are recognised by their names (launch
//! configurations) and labels (tasks); every run replaces them and keeps all others.
use crate::json::{
    entries_get, entries_or_insert, entries_set, entries_view, get_field, items_view, jstr,
    lemma_get_after_push, lemma_get_after_set, lemma_get_after_set_other, lemma_set_at_first_index,
    lemma_set_existing_value, Json, JsonV,
};
use crate::text::{eq_ignore_ascii_case, eq_ignore_case, has_prefix, starts_with, str_eq, trim};
use vstd::prelude::*;

verus! {

/// The build profile the configurations point at.
#[derive(Clone, Copy, Debug, PartialEq, Eq, Structural)]
pub enum LaunchProfile {
    Release,
    Debug,
}

/// How a component of the runtime is present under the runtime root.
#[derive(Clone, Copy, Debug, PartialEq, Eq, Structural)]
pub enum ComponentKind {
    /// A source tree with a `CMakeLists.txt`.
    Source,
    /// A built binary.
    Binary,
    /// Neither.
    Missing,
}

/// A component of the runtime: its key, its source directory and its binary's name.
#[derive(Clone, Debug, PartialEq)]
pub struct ComponentSpec {
    pub key: String,
    pub component_dir: String,
    pub binary_name: String,
}

/// A component and how it is present. `binary_path` is the path of its binary when it
/// has one, and empty otherwise.
#[derive(Clone, Debug, PartialEq)]
pub struct ComponentState {
    pub spec: ComponentSpec,
    pub kind: ComponentKind,
    pub binary_path: String,
}

/// The mathematical form of a [`ComponentState`].
pub struct ComponentStateView {
    pub key: Seq<char>,
    pub component_dir: Seq<char>,
    pub binary_name: Seq<char>,
    pub kind: ComponentKind,
    pub binary_path: Seq<char>,
}

impl View for ComponentState {
    type V = ComponentStateView;

    open spec fn view(&self) -> ComponentStateView {
        ComponentStateView {
            key: self.spec.key@,
            component_dir: self.spec.component_dir@,
            binary_name: self.spec.binary_name@,
            kind: self.kind,
            binary_path: self.binary_path@,
        }
    }
}

/// The title of a component: `Client`, `Server`, or `Component` for any other key.
pub open spec fn component_title(key: Seq<char>) -> Seq<char> {
    if key == "client"@ {
        "Client"@
    } else if key == "server"@ {
        "Server"@
    } else {
        "Component"@
    }
}

/// The CMake build type of a profile.
pub open spec fn build_type_of(p: LaunchProfile) -> Seq<char> {
    match p {
        LaunchProfile::Release => "Release"@,
        LaunchProfile::Debug => "Debug"@,
    }
}

/// The suffix a profile gives configuration names.
pub open spec fn launch_suffix_of(p: LaunchProfile) -> Seq<char> {
    build_type_of(p)
}

/// The name of a component's launch configuration: `Germina <Title> (<Suffix>)`.
pub open spec fn launch_name(title: Seq<char>, suffix: Seq<char>) -> Seq<char> {
    "Germina "@ + title + " ("@ + suffix + ")"@
}

/// The label of a component's build task: `Germina Build <Title> (<Suffix>)`.
pub open spec fn task_label_of(title: Seq<char>, suffix: Seq<char>) -> Seq<char> {
    "Germina Build "@ + title + " ("@ + suffix + ")"@
}

/// A text that starts with one of two prefixes.
pub open spec fn managed_by(t: Seq<char>, p1: Seq<char>, p2: Seq<char>) -> bool {
    has_prefix(t, p1) || has_prefix(t, p2)
}

/// A launch configuration name that this module writes.
pub open spec fn is_managed_launch(name: Seq<char>) -> bool {
    managed_by(name, "Germina Client ("@, "Germina Server ("@)
}

/// A task label that this module writes.
pub open spec fn is_managed_task(label: Seq<char>) -> bool {
    managed_by(label, "Germina Build Client ("@, "Germina Build Server ("@)
}

/// The text of field `field` of an object, when it is a string.
pub open spec fn field_text(v: JsonV, field: Seq<char>) -> Option<Seq<char>> {
    match get_field(v, field) {
        Some(JsonV::Str(s)) => Some(s),
        _ => None,
    }
}

/// `v` is an entry written by this module: its `field` is a text that starts with
/// `p1` or `p2`.
pub open spec fn is_managed_item(v: JsonV, field: Seq<char>, p1: Seq<char>, p2: Seq<char>) -> bool {
    match field_text(v, field) {
        Some(t) => managed_by(t, p1, p2),
        None => false,
    }
}

/// The items that this module did not write, in their order.
pub open spec fn keep_unmanaged(s: Seq<JsonV>, field: Seq<char>, p1: Seq<char>, p2: Seq<char>) -> Seq<
    JsonV,
>
    decreases s.len(),
{
    if s.len() == 0 {
        s
    } else if is_managed_item(s.last(), field, p1, p2) {
        keep_unmanaged(s.drop_last(), field, p1, p2)
    } else {
        keep_unmanaged(s.drop_last(), field, p1, p2).push(s.last())
    }
}

/// A configuration document brought up to date: it must be an object; `version` is
/// added when missing; the list under `list_key` (added empty when missing) must be an
/// array, loses the items this module wrote and gains `new_items` at its end.
pub open spec fn sync_document_spec(
    doc: JsonV,
    version: Seq<char>,
    list_key: Seq<char>,
    root_error: Seq<char>,
    list_error: Seq<char>,
    field: Seq<char>,
    p1: Seq<char>,
    p2: Seq<char>,
    new_items: Seq<JsonV>,
) -> Result<JsonV, Seq<char>> {
    match doc {
        JsonV::Object(es) => {
            let es1 = entries_or_insert(es, "version"@, JsonV::Str(version));
            let es2 = entries_or_insert(es1, list_key, JsonV::Array(seq![]));
            match entries_get(es2, list_key) {
                Some(JsonV::Array(items)) => Ok(
                    JsonV::Object(
                        entries_set(
                            es2,
                            list_key,
                            JsonV::Array(keep_unmanaged(items, field, p1, p2) + new_items),
                        ),
                    ),
                ),
                _ => Err(list_error),
            }
        },
        _ => Err(root_error),
    }
}

/// The launch configuration of a component built from source.
pub open spec fn source_config_spec(
    c: ComponentStateView,
    profile: LaunchProfile,
    endpoint: Seq<char>,
    windows: bool,
) -> JsonV {
    let title = component_title(c.key);
    let suffix = launch_suffix_of(profile);
    let program = "${workspaceFolder}/"@ + c.component_dir + "/build/"@ + build_type_of(profile)
        + "/"@ + c.binary_name + (if windows {
        ".exe"@
    } else {
        Seq::empty()
    });
    JsonV::Object(
        seq![
            ("name"@, jstr(launch_name(title, suffix))),
            ("type"@, jstr("lldb"@)),
            ("request"@, jstr("launch"@)),
            ("program"@, jstr(program)),
            ("cwd"@, jstr("${workspaceFolder}/"@ + c.component_dir)),
            ("args"@, JsonV::Array(seq![jstr("--cli"@), jstr(endpoint)])),
            ("preLaunchTask"@, jstr(task_label_of(title, suffix))),
        ],
    )
}

/// The launch configuration that attaches to a component's running binary.
pub open spec fn attach_config_spec(c: ComponentStateView, profile: LaunchProfile) -> JsonV {
    let base = seq![
        ("name"@, jstr(launch_name(component_title(c.key), launch_suffix_of(profile)))),
        ("type"@, jstr("lldb"@)),
        ("request"@, jstr("attach"@)),
        ("pid"@, jstr("${command:pickProcess}"@)),
    ];
    JsonV::Object(
        if c.binary_path.len() == 0 {
            base
        } else {
            base.push(("program"@, jstr(c.binary_path)))
        },
    )
}

/// The shell command of a component's build task: configure with CMake, then build.
pub open spec fn build_command(dir: Seq<char>, bt: Seq<char>) -> Seq<char> {
    let component_path = "${workspaceFolder}/"@ + dir;
    let build_path = component_path + "/build/"@ + bt;
    "cmake -S \""@ + component_path + "\" -B \""@ + build_path + "\" -DCMAKE_BUILD_TYPE="@ + bt
        + " -DCMAKE_C_COMPILER=clang -DCMAKE_CXX_COMPILER=clang++"@ + "; "@
        + "cmake --build \""@ + build_path + "\" --config "@ + bt
}

/// The build task of a component built from source.
pub open spec fn build_task_spec(c: ComponentStateView, profile: LaunchProfile) -> JsonV {
    JsonV::Object(
        seq![
            ("label"@, jstr(task_label_of(component_title(c.key), launch_suffix_of(profile)))),
            ("type"@, jstr("shell"@)),
            ("command"@, jstr(build_command(c.component_dir, build_type_of(profile)))),
            ("options"@, JsonV::Object(seq![("cwd"@, jstr("${workspaceFolder}"@))])),
            ("problemMatcher"@, JsonV::Array(seq![])),
        ],
    )
}

/// The launch configurations of the components, in order: a launch configuration for
/// each component built from source, an attaching one for each component with a binary.
pub open spec fn launch_configs_spec(
    cs: Seq<ComponentStateView>,
    profile: LaunchProfile,
    endpoint: Seq<char>,
    windows: bool,
) -> Seq<JsonV>
    decreases cs.len(),
{
    if cs.len() == 0 {
        seq![]
    } else {
        let rest = launch_configs_spec(cs.drop_last(), profile, endpoint, windows);
        match cs.last().kind {
            ComponentKind::Source => rest.push(
                source_config_spec(cs.last(), profile, endpoint, windows),
            ),
            ComponentKind::Binary => rest.push(attach_config_spec(cs.last(), profile)),
            ComponentKind::Missing => rest,
        }
    }
}

/// The build tasks of the components built from source, in order.
pub open spec fn build_tasks_spec(cs: Seq<ComponentStateView>, profile: LaunchProfile) -> Seq<
    JsonV,
>
    decreases cs.len(),
{
    if cs.len() == 0 {
        seq![]
    } else {
        let rest = build_tasks_spec(cs.drop_last(), profile);
        match cs.last().kind {
            ComponentKind::Source => rest.push(build_task_spec(cs.last(), profile)),
            _ => rest,
        }
    }
}

/// The views of a list of component states.
pub open spec fn states_view(cs: Seq<ComponentState>) -> Seq<ComponentStateView> {
    cs.map_values(|c: ComponentState| c@)
}

/// `launch.json` brought up to date for the components.
pub open spec fn launch_document_spec(
    doc: JsonV,
    cs: Seq<ComponentStateView>,
    profile: LaunchProfile,
    endpoint: Seq<char>,
    windows: bool,
) -> Result<JsonV, Seq<char>> {
    sync_document_spec(
        doc,
        "0.2.0"@,
        "configurations"@,
        "launch.json root must be an object"@,
        "launch.json field 'configurations' must be an array"@,
        "name"@,
        "Germina Client ("@,
        "Germina Server ("@,
        launch_configs_spec(cs, profile, endpoint, windows),
    )
}

/// `tasks.json` brought up to date for the components.
pub open spec fn tasks_document_spec(
    doc: JsonV,
    cs: Seq<ComponentStateView>,
    profile: LaunchProfile,
) -> Result<JsonV, Seq<char>> {
    sync_document_spec(
        doc,
        "2.0.0"@,
        "tasks"@,
        "tasks.json root must be an object"@,
        "tasks.json field 'tasks' must be an array"@,
        "label"@,
        "Germina Build Client ("@,
        "Germina Build Server ("@,
        build_tasks_spec(cs, profile),
    )
}

/// The runtime's components: the client and the server.
pub fn components() -> (r: Vec<ComponentSpec>)
    ensures
        r.len() == 2,
        r[0].key@ == "client"@,
        r[0].component_dir@ == "germina-client"@,
        r[0].binary_name@ == "germina-client"@,
        r[1].key@ == "server"@,
        r[1].component_dir@ == "germina-server"@,
        r[1].binary_name@ == "germina-server"@,
{
    let mut r: Vec<ComponentSpec> = Vec::new();
    r.push(
        ComponentSpec {
            key: String::from_str("client"),
            component_dir: String::from_str("germina-client"),
            binary_name: String::from_str("germina-client"),
        },
    );
    r.push(
        ComponentSpec {
            key: String::from_str("server"),
            component_dir: String::from_str("germina-server"),
            binary_name: String::from_str("germina-server"),
        },
    );
    r
}

impl ComponentSpec {
    /// The title of this component.
    pub fn title(&self) -> (r: String)
        ensures
            r@ == component_title(self.key@),
    {
        if str_eq(self.key.as_str(), "client") {
            String::from_str("Client")
        } else if str_eq(self.key.as_str(), "server") {
            String::from_str("Server")
        } else {
            String::from_str("Component")
        }
    }
}

impl LaunchProfile {
    /// The CMake build type of this profile.
    pub fn build_type(self) -> (r: String)
        ensures
            r@ == build_type_of(self),
    {
        match self {
            LaunchProfile::Release => String::from_str("Release"),
            LaunchProfile::Debug => String::from_str("Debug"),
        }
    }

    /// The suffix this profile gives configuration names.
    pub fn launch_suffix(self) -> (r: String)
        ensures
            r@ == launch_suffix_of(self),
    {
        match self {
            LaunchProfile::Release => String::from_str("Release"),
            LaunchProfile::Debug => String::from_str("Debug"),
        }
    }
}

/// The profile a build names: `Release` when the build profile is `release` in any
/// case, `Debug` otherwise.
pub fn detect_launch_profile(build_profile: Option<&str>) -> (r: LaunchProfile)
    ensures
        r == (match build_profile {
            Some(p) => if eq_ignore_case(p@, "release"@) {
                LaunchProfile::Release
            } else {
                LaunchProfile::Debug
            },
            None => LaunchProfile::Debug,
        }),
{
    match build_profile {
        Some(p) => if eq_ignore_ascii_case(p, "release") {
            LaunchProfile::Release
        } else {
            LaunchProfile::Debug
        },
        None => LaunchProfile::Debug,
    }
}

/// Whether a launch configuration name is one this module writes.
pub fn is_managed_launch_name(name: &str) -> (r: bool)
    ensures
        r == is_managed_launch(name@),
{
    starts_with(name, "Germina Client (") || starts_with(name, "Germina Server (")
}

/// Whether a task label is one this module writes.
pub fn is_managed_task_label(label: &str) -> (r: bool)
    ensures
        r == is_managed_task(label@),
{
    starts_with(label, "Germina Build Client (") || starts_with(label, "Germina Build Server (")
}

/// How a component is present: from source when its directory holds a
/// `CMakeLists.txt`, as a binary when one of its binary candidates is a file.
pub fn detect_component_kind(has_cmake_source: bool, has_binary: bool) -> (r: ComponentKind)
    ensures
        r == if has_cmake_source {
            ComponentKind::Source
        } else if has_binary {
            ComponentKind::Binary
        } else {
            ComponentKind::Missing
        },
{
    if has_cmake_source {
        ComponentKind::Source
    } else if has_binary {
        ComponentKind::Binary
    } else {
        ComponentKind::Missing
    }
}

/// A path separator: `/`, and on Windows also `\`.
pub open spec fn is_separator(c: char, windows: bool) -> bool {
    c == '/' || (windows && c == '\\')
}

/// A bare Windows drive such as `C:`: a letter and a colon.
pub open spec fn is_bare_drive(root: Seq<char>) -> bool {
    &&& root.len() == 2
    &&& root[1] == ':'
    &&& (('a' <= root[0] && root[0] <= 'z') || ('A' <= root[0] && root[0] <= 'Z'))
}

/// `root` joined with a relative `name` that has no root, as `Path::join` joins them:
/// the platform's separator (`\` on Windows, `/` elsewhere) goes between the two unless
/// `root` is empty, already ends with a separator, or (on Windows) is a bare drive.
pub open spec fn join_path_spec(root: Seq<char>, name: Seq<char>, windows: bool) -> Seq<char> {
    if root.len() == 0 || is_separator(root.last(), windows) || (windows && is_bare_drive(root)) {
        root + name
    } else if windows {
        root + "\\"@ + name
    } else {
        root + "/"@ + name
    }
}

/// `root` joined with a relative `name` that has no root, with the separator of Windows
/// (`windows`) or of the other platforms.
pub fn join_path(root: &str, name: &str, windows: bool) -> (r: String)
    ensures
        r@ == join_path_spec(root@, name@, windows),
{
    let rv = crate::text::chars_of(root);
    let n = rv.len();
    let mut s = String::from_str(root);
    let ends_with_separator = n > 0 && (rv[n - 1] == '/' || (windows && rv[n - 1] == '\\'));
    let bare_drive = n == 2 && rv[1] == ':' && ((rv[0] >= 'a' && rv[0] <= 'z') || (rv[0] >= 'A'
        && rv[0] <= 'Z'));
    if n == 0 || ends_with_separator || (windows && bare_drive) {
        s.append(name);
    } else if windows {
        s.append("\\");
        s.append(name);
    } else {
        s.append("/");
        s.append(name);
    }
    s
}

/// The paths where a component's binary may be: `<root>\<name>.exe` then
/// `<root>\<name>` on Windows, `<root>/<name>` elsewhere.
pub fn binary_candidates(root: &str, binary_name: &str, windows: bool) -> (r: Vec<String>)
    ensures
        windows ==> r.len() == 2 && r[0]@ == join_path_spec(root@, binary_name@ + ".exe"@, true)
            && r[1]@ == join_path_spec(root@, binary_name@, true),
        !windows ==> r.len() == 1 && r[0]@ == join_path_spec(root@, binary_name@, false),
{
    let mut r: Vec<String> = Vec::new();
    if windows {
        let mut exe = String::from_str(binary_name);
        exe.append(".exe");
        r.push(join_path(root, exe.as_str(), true));
    }
    r.push(join_path(root, binary_name, windows));
    r
}

/// The label of a component's build task.
pub fn build_task_label(component: &ComponentState, profile: LaunchProfile) -> (r: String)
    ensures
        r@ == task_label_of(component_title(component@.key), launch_suffix_of(profile)),
{
    let mut s = String::from_str("Germina Build ");
    s.append(component.spec.title().as_str());
    s.append(" (");
    s.append(profile.launch_suffix().as_str());
    s.append(")");
    s
}

/// The name of a component's launch configuration.
fn launch_config_name(component: &ComponentState, profile: LaunchProfile) -> (r: String)
    ensures
        r@ == launch_name(component_title(component@.key), launch_suffix_of(profile)),
{
    let mut s = String::from_str("Germina ");
    s.append(component.spec.title().as_str());
    s.append(" (");
    s.append(profile.launch_suffix().as_str());
    s.append(")");
    s
}

/// An object entry holding a string.
fn str_entry(key: &str, value: String) -> (r: (String, Json))
    ensures
        r.0@ == key@,
        r.1@ == jstr(value@),
{
    (String::from_str(key), Json::Str(value))
}

/// The launch configuration of a component built from source.
pub fn source_launch_config(
    component: &ComponentState,
    profile: LaunchProfile,
    cli_endpoint: &str,
    windows: bool,
) -> (r: Json)
    ensures
        r@ == source_config_spec(component@, profile, cli_endpoint@, windows),
{
    let mut program = String::from_str("${workspaceFolder}/");
    program.append(component.spec.component_dir.as_str());
    program.append("/build/");
    program.append(profile.build_type().as_str());
    program.append("/");
    program.append(component.spec.binary_name.as_str());
    if windows {
        program.append(".exe");
    }
    let mut cwd = String::from_str("${workspaceFolder}/");
    cwd.append(component.spec.component_dir.as_str());
    let mut args: Vec<Json> = Vec::new();
    args.push(Json::string("--cli"));
    args.push(Json::string(cli_endpoint));
    let args_json = Json::array(args);
    assert(items_view(args@) =~= seq![jstr("--cli"@), jstr(cli_endpoint@)]);
    let mut es: Vec<(String, Json)> = Vec::new();
    es.push(str_entry("name", launch_config_name(component, profile)));
    es.push(str_entry("type", String::from_str("lldb")));
    es.push(str_entry("request", String::from_str("launch")));
    es.push(str_entry("program", program));
    es.push(str_entry("cwd", cwd));
    es.push((String::from_str("args"), args_json));
    es.push(str_entry("preLaunchTask", build_task_label(component, profile)));
    let r = Json::object(es);
    proof {
        let s = source_config_spec(component@, profile, cli_endpoint@, windows);
        if let JsonV::Object(x) = s {
            assert(entries_view(es@) =~= x);
        }
    }
    r
}

/// The launch configuration that attaches to a component's running binary; it names the
/// binary when its path is known.
pub fn binary_attach_config(component: &ComponentState, profile: LaunchProfile) -> (r: Json)
    ensures
        r@ == attach_config_spec(component@, profile),
{
    let mut es: Vec<(String, Json)> = Vec::new();
    es.push(str_entry("name", launch_config_name(component, profile)));
    es.push(str_entry("type", String::from_str("lldb")));
    es.push(str_entry("request", String::from_str("attach")));
    es.push(str_entry("pid", String::from_str("${command:pickProcess}")));
    let ghost before = es@;
    let path = crate::text::chars_of(component.binary_path.as_str());
    if path.len() != 0 {
        es.push(str_entry("program", component.binary_path.clone()));
    }
    let r = Json::object(es);
    proof {
        let s = attach_config_spec(component@, profile);
        if let JsonV::Object(x) = s {
            assert(entries_view(es@) =~= x);
        }
    }
    r
}

/// The build task of a component built from source.
pub fn build_task(component: &ComponentState, profile: LaunchProfile) -> (r: Json)
    ensures
        r@ == build_task_spec(component@, profile),
{
    let build_type = profile.build_type();
    let mut component_path = String::from_str("${workspaceFolder}/");
    component_path.append(component.spec.component_dir.as_str());
    let mut build_path = component_path.clone();
    build_path.append("/build/");
    build_path.append(build_type.as_str());
    let mut command = String::from_str("cmake -S \"");
    command.append(component_path.as_str());
    command.append("\" -B \"");
    command.append(build_path.as_str());
    command.append("\" -DCMAKE_BUILD_TYPE=");
    command.append(build_type.as_str());
    command.append(" -DCMAKE_C_COMPILER=clang -DCMAKE_CXX_COMPILER=clang++");
    command.append("; ");
    command.append("cmake --build \"");
    command.append(build_path.as_str());
    command.append("\" --config ");
    command.append(build_type.as_str());
    let mut options: Vec<(String, Json)> = Vec::new();
    options.push(str_entry("cwd", String::from_str("${workspaceFolder}")));
    let options_json = Json::object(options);
    assert(entries_view(options@) =~= seq![("cwd"@, jstr("${workspaceFolder}"@))]);
    let matcher = Json::array(Vec::new());
    assert(items_view(Seq::<Json>::empty()) =~= Seq::<JsonV>::empty());
    let mut es: Vec<(String, Json)> = Vec::new();
    es.push(str_entry("label", build_task_label(component, profile)));
    es.push(str_entry("type", String::from_str("shell")));
    es.push(str_entry("command", command));
    es.push((String::from_str("options"), options_json));
    es.push((String::from_str("problemMatcher"), matcher));
    let r = Json::object(es);
    proof {
        let s = build_task_spec(component@, profile);
        if let JsonV::Object(x) = s {
            assert(entries_view(es@) =~= x);
        }
    }
    r
}

/// The name of a launch configuration, or the error for one that has none.
pub fn config_name(value: &Json) -> (r: Result<&str, String>)
    ensures
        match r {
            Ok(n) => field_text(value@, "name"@) == Some(n@),
            Err(e) => field_text(value@, "name"@) is None && e@
                == "launch configuration misses string field 'name'"@,
        },
{
    match value.get("name") {
        Some(v) => match v.as_str() {
            Some(s) => Ok(s),
            None => Err(String::from_str("launch configuration misses string field 'name'")),
        },
        None => Err(String::from_str("launch configuration misses string field 'name'")),
    }
}

/// The label of a task, if it has one.
pub fn task_label(value: &Json) -> (r: Option<&str>)
    ensures
        match r {
            Some(l) => field_text(value@, "label"@) == Some(l@),
            None => field_text(value@, "label"@) is None,
        },
{
    match value.get("label") {
        Some(v) => v.as_str(),
        None => None,
    }
}

/// Whether an item was written by this module: its `field` is a text starting with
/// `p1` or `p2`.
fn is_managed_entry(v: &Json, field: &str, p1: &str, p2: &str) -> (r: bool)
    ensures
        r == is_managed_item(v@, field@, p1@, p2@),
        r == (get_field(v@, field@) matches Some(JsonV::Str(t)) && (has_prefix(t, p1@) || has_prefix(
            t,
            p2@,
        ))),
{
    match v.get(field) {
        Some(f) => match f.as_str() {
            Some(t) => starts_with(t, p1) || starts_with(t, p2),
            None => false,
        },
        None => false,
    }
}

/// The views of a list of values.
pub open spec fn values_view(items: Seq<Json>) -> Seq<JsonV> {
    items_view(items)
}

/// Removes the items this module wrote, keeping the others in order.
pub fn remove_managed(items: &mut Vec<Json>, field: &str, p1: &str, p2: &str)
    ensures
        items_view(final(items)@) == keep_unmanaged(items_view(old(items)@), field@, p1@, p2@),
{
    let mut kept: Vec<Json> = Vec::new();
    let ghost all = items_view(items@);
    let mut n: usize = 0;
    let total = items.len();
    while items.len() > 0
        invariant
            all == items_view(old(items)@),
            total == all.len(),
            n + items.len() == total,
            items_view(items@) == all.subrange(n as int, total as int),
            items_view(kept@) == keep_unmanaged(all.subrange(0, n as int), field@, p1@, p2@),
        decreases items.len(),
    {
        let ghost pre = items@;
        let v = items.remove(0);
        proof {
            assert(items_view(pre)[0] == pre[0]@);
            assert(items_view(pre)[0] == all[n as int]);
            assert(v@ == all[n as int]);
            assert(items@ =~= pre.subrange(1, pre.len() as int));
            assert forall|k: int| 0 <= k < items@.len() implies #[trigger] items_view(items@)[k]
                == all.subrange(n + 1, total as int)[k] by {
                assert(items@[k] == pre[k + 1]);
                assert(items_view(pre)[k + 1] == pre[k + 1]@);
            }
            assert(items_view(items@) =~= all.subrange(n + 1, total as int));
            assert(all.subrange(0, n + 1).drop_last() =~= all.subrange(0, n as int));
            assert(all.subrange(0, n + 1).last() == v@);
        }
        if !is_managed_entry(&v, field, p1, p2) {
            let ghost before = kept@;
            kept.push(v);
            proof {
                assert(kept@.drop_last() =~= before);
                assert(items_view(kept@) =~= items_view(before).push(kept@.last()@));
            }
        }
        n = n + 1;
        assert(items_view(items@) =~= all.subrange(n as int, total as int));
    }
    assert(all.subrange(0, total as int) =~= all);
    *items = kept;
}

/// Removes the launch configurations this module wrote, keeping the others in order.
pub fn remove_managed_configurations(configs: &mut Vec<Json>)
    ensures
        items_view(final(configs)@) == keep_unmanaged(
            items_view(old(configs)@),
            "name"@,
            "Germina Client ("@,
            "Germina Server ("@,
        ),
{
    remove_managed(configs, "name", "Germina Client (", "Germina Server (");
}

/// Removes the build tasks this module wrote, keeping the others in order.
pub fn remove_managed_tasks(tasks: &mut Vec<Json>)
    ensures
        items_view(final(tasks)@) == keep_unmanaged(
            items_view(old(tasks)@),
            "label"@,
            "Germina Build Client ("@,
            "Germina Build Server ("@,
        ),
{
    remove_managed(tasks, "label", "Germina Build Client (", "Germina Build Server (");
}

/// Brings a configuration document up to date (see [`sync_document_spec`]).
pub fn sync_document(
    doc: Json,
    version: &str,
    list_key: &str,
    root_error: &str,
    list_error: &str,
    field: &str,
    p1: &str,
    p2: &str,
    new_items: Vec<Json>,
) -> (r: Result<Json, String>)
    ensures
        match r {
            Ok(d) => sync_document_spec(
                doc@,
                version@,
                list_key@,
                root_error@,
                list_error@,
                field@,
                p1@,
                p2@,
                items_view(new_items@),
            ) == Ok::<JsonV, Seq<char>>(d@),
            Err(e) => sync_document_spec(
                doc@,
                version@,
                list_key@,
                root_error@,
                list_error@,
                field@,
                p1@,
                p2@,
                items_view(new_items@),
            ) == Err::<JsonV, Seq<char>>(e@),
        },
{
    let mut es = match doc {
        Json::Object(es) => es,
        _ => {
            return Err(String::from_str(root_error));
        },
    };
    proof {
        crate::json::lemma_entries_view(es@);
    }
    let ghost es0 = entries_view(es@);
    match Json::entry_index(&es, "version") {
        Some(_) => {},
        None => {
            es.push((String::from_str("version"), Json::string(version)));
            assert(entries_view(es@) =~= es0.push(("version"@, JsonV::Str(version@))));
        },
    }
    let ghost es1 = entries_view(es@);
    assert(es1 == entries_or_insert(es0, "version"@, JsonV::Str(version@)));
    let idx = match Json::entry_index(&es, list_key) {
        Some(i) => i,
        None => {
            let ghost before = es@;
            es.push((String::from_str(list_key), Json::array(Vec::new())));
            assert(items_view(Seq::<Json>::empty()) =~= Seq::<JsonV>::empty());
            assert(entries_view(es@) =~= es1.push((list_key@, JsonV::Array(seq![]))));
            assert forall|j: int| 0 <= j < es@.len() - 1 implies (#[trigger] es@[j]).0@
                != list_key@ by {
                assert(es@[j] == before[j]);
            }
            es.len() - 1
        },
    };
    let ghost es2 = entries_view(es@);
    assert(es2 == entries_or_insert(es1, list_key@, JsonV::Array(seq![])));
    proof {
        assert forall|j: int| 0 <= j < idx implies (#[trigger] es2[j]).0 != list_key@ by {
            assert(es2[j].0 == es@[j].0@);
        }
        lemma_set_at_first_index(es2, list_key@, JsonV::Array(seq![]), idx as int);
    }
    let (key, value) = es.remove(idx);
    let mut items = match value {
        Json::Array(items) => items,
        _ => {
            return Err(String::from_str(list_error));
        },
    };
    proof {
        crate::json::lemma_items_view(items@);
    }
    let ghost old_items = items_view(items@);
    remove_managed(&mut items, field, p1, p2);
    let mut extra = new_items;
    let ghost kept = items_view(items@);
    items.append(&mut extra);
    assert(items_view(items@) =~= kept + items_view(new_items@));
    let new_list = Json::array(items);
    let ghost nv = new_list@;
    es.insert(idx, (key, new_list));
    let r = Json::object(es);
    proof {
        lemma_set_at_first_index(es2, list_key@, nv, idx as int);
        assert(entries_view(es@) =~= es2.update(idx as int, (list_key@, nv)));
    }
    Ok(r)
}

/// A document holding `version` and an empty list under `list_key`.
pub fn empty_document(version: &str, list_key: &str) -> (r: Json)
    ensures
        r@ == JsonV::Object(seq![("version"@, jstr(version@)), (list_key@, JsonV::Array(seq![]))]),
{
    let mut es: Vec<(String, Json)> = Vec::new();
    es.push(str_entry("version", String::from_str(version)));
    es.push((String::from_str(list_key), Json::array(Vec::new())));
    assert(items_view(Seq::<Json>::empty()) =~= Seq::<JsonV>::empty());
    let r = Json::object(es);
    assert(entries_view(es@) =~= seq![("version"@, jstr(version@)), (list_key@, JsonV::Array(seq![]))]);
    r
}

/// The `launch.json` used when there is none: `{"version": "0.2.0", "configurations": []}`.
pub fn default_launch_json() -> (r: Json)
    ensures
        r@ == JsonV::Object(
            seq![("version"@, jstr("0.2.0"@)), ("configurations"@, JsonV::Array(seq![]))],
        ),
{
    empty_document("0.2.0", "configurations")
}

/// The `tasks.json` used when there is none: `{"version": "2.0.0", "tasks": []}`.
pub fn default_tasks_json() -> (r: Json)
    ensures
        r@ == JsonV::Object(seq![("version"@, jstr("2.0.0"@)), ("tasks"@, JsonV::Array(seq![]))]),
{
    empty_document("2.0.0", "tasks")
}

/// Whether a stored document counts as absent: there is no file, or it holds only
/// whitespace. An absent document is replaced by the default one; any other is parsed.
pub fn document_is_blank(raw: Option<&str>) -> (r: bool)
    ensures
        r == match raw {
            Some(t) => trim(t@).len() == 0,
            None => true,
        },
{
    match raw {
        Some(t) => crate::text::trim_chars(&crate::text::chars_of(t)).len() == 0,
        None => true,
    }
}

/// The launch configurations of the components (see [`launch_configs_spec`]).
pub fn launch_configs(
    states: &Vec<ComponentState>,
    profile: LaunchProfile,
    cli_endpoint: &str,
    windows: bool,
) -> (r: Vec<Json>)
    ensures
        items_view(r@) == launch_configs_spec(states_view(states@), profile, cli_endpoint@, windows),
{
    let mut r: Vec<Json> = Vec::new();
    let ghost cs = states_view(states@);
    let mut i: usize = 0;
    while i < states.len()
        invariant
            i <= states.len(),
            cs == states_view(states@),
            items_view(r@) == launch_configs_spec(cs.subrange(0, i as int), profile, cli_endpoint@, windows),
        decreases states.len() - i,
    {
        let c = &states[i];
        proof {
            assert(cs.subrange(0, i + 1).drop_last() =~= cs.subrange(0, i as int));
            assert(cs.subrange(0, i + 1).last() == c@);
        }
        match c.kind {
            ComponentKind::Source => {
                r.push(source_launch_config(c, profile, cli_endpoint, windows));
                assert(items_view(r@) =~= items_view(r@.drop_last()).push(r@.last()@));
            },
            ComponentKind::Binary => {
                r.push(binary_attach_config(c, profile));
                assert(items_view(r@) =~= items_view(r@.drop_last()).push(r@.last()@));
            },
            ComponentKind::Missing => {},
        }
        i = i + 1;
    }
    assert(cs.subrange(0, states.len() as int) =~= cs);
    r
}

/// The build tasks of the components built from source (see [`build_tasks_spec`]).
pub fn build_tasks(states: &Vec<ComponentState>, profile: LaunchProfile) -> (r: Vec<Json>)
    ensures
        items_view(r@) == build_tasks_spec(states_view(states@), profile),
{
    let mut r: Vec<Json> = Vec::new();
    let ghost cs = states_view(states@);
    let mut i: usize = 0;
    while i < states.len()
        invariant
            i <= states.len(),
            cs == states_view(states@),
            items_view(r@) == build_tasks_spec(cs.subrange(0, i as int), profile),
        decreases states.len() - i,
    {
        let c = &states[i];
        proof {
            assert(cs.subrange(0, i + 1).drop_last() =~= cs.subrange(0, i as int));
            assert(cs.subrange(0, i + 1).last() == c@);
        }
        match c.kind {
            ComponentKind::Source => {
                r.push(build_task(c, profile));
                assert(items_view(r@) =~= items_view(r@.drop_last()).push(r@.last()@));
            },
            _ => {},
        }
        i = i + 1;
    }
    assert(cs.subrange(0, states.len() as int) =~= cs);
    r
}

/// Brings `launch.json` up to date for the components: launch configurations for the
/// components built from source, attaching ones for components with a binary.
pub fn update_launch_json(
    doc: Json,
    states: &Vec<ComponentState>,
    profile: LaunchProfile,
    cli_endpoint: &str,
    windows: bool,
) -> (r: Result<Json, String>)
    ensures
        match r {
            Ok(d) => launch_document_spec(doc@, states_view(states@), profile, cli_endpoint@, windows)
                == Ok::<JsonV, Seq<char>>(d@),
            Err(e) => launch_document_spec(doc@, states_view(states@), profile, cli_endpoint@, windows)
                == Err::<JsonV, Seq<char>>(e@),
        },
{
    let configs = launch_configs(states, profile, cli_endpoint, windows);
    sync_document(
        doc,
        "0.2.0",
        "configurations",
        "launch.json root must be an object",
        "launch.json field 'configurations' must be an array",
        "name",
        "Germina Client (",
        "Germina Server (",
        configs,
    )
}

/// Brings `tasks.json` up to date for the components: build tasks for the components
/// built from source.
pub fn update_tasks_json(doc: Json, states: &Vec<ComponentState>, profile: LaunchProfile) -> (r:
    Result<Json, String>)
    ensures
        match r {
            Ok(d) => tasks_document_spec(doc@, states_view(states@), profile) == Ok::<
                JsonV,
                Seq<char>,
            >(d@),
            Err(e) => tasks_document_spec(doc@, states_view(states@), profile) == Err::<
                JsonV,
                Seq<char>,
            >(e@),
        },
{
    let tasks = build_tasks(states, profile);
    sync_document(
        doc,
        "2.0.0",
        "tasks",
        "tasks.json root must be an object",
        "tasks.json field 'tasks' must be an array",
        "label",
        "Germina Build Client (",
        "Germina Build Server (",
        tasks,
    )
}

/// Dropping this module's items from two lists joined is joining the two lists so cut.
pub proof fn lemma_keep_unmanaged_append(
    a: Seq<JsonV>,
    b: Seq<JsonV>,
    field: Seq<char>,
    p1: Seq<char>,
    p2: Seq<char>,
)
    ensures
        keep_unmanaged(a + b, field, p1, p2) == keep_unmanaged(a, field, p1, p2) + keep_unmanaged(
            b,
            field,
            p1,
            p2,
        ),
    decreases b.len(),
{
    if b.len() == 0 {
        assert(a + b =~= a);
        assert(keep_unmanaged(a, field, p1, p2) + keep_unmanaged(b, field, p1, p2) =~= keep_unmanaged(a, field, p1, p2));
    } else {
        lemma_keep_unmanaged_append(a, b.drop_last(), field, p1, p2);
        assert((a + b).drop_last() =~= a + b.drop_last());
        assert((a + b).last() == b.last());
        let ka = keep_unmanaged(a, field, p1, p2);
        let kb = keep_unmanaged(b.drop_last(), field, p1, p2);
        assert((ka + kb).push(b.last()) =~= ka + kb.push(b.last()));
    }
}

/// What is left after this module's items are dropped has none of them.
pub proof fn lemma_keep_unmanaged_idempotent(
    s: Seq<JsonV>,
    field: Seq<char>,
    p1: Seq<char>,
    p2: Seq<char>,
)
    ensures
        keep_unmanaged(keep_unmanaged(s, field, p1, p2), field, p1, p2) == keep_unmanaged(
            s,
            field,
            p1,
            p2,
        ),
    decreases s.len(),
{
    if s.len() > 0 {
        lemma_keep_unmanaged_idempotent(s.drop_last(), field, p1, p2);
        let k = keep_unmanaged(s.drop_last(), field, p1, p2);
        if !is_managed_item(s.last(), field, p1, p2) {
            assert(k.push(s.last()).drop_last() =~= k);
        }
    }
}

/// A list of this module's items is dropped whole.
pub proof fn lemma_keep_unmanaged_all_managed(
    s: Seq<JsonV>,
    field: Seq<char>,
    p1: Seq<char>,
    p2: Seq<char>,
)
    requires
        forall|i: int| 0 <= i < s.len() ==> is_managed_item(#[trigger] s[i], field, p1, p2),
    ensures
        keep_unmanaged(s, field, p1, p2) == Seq::<JsonV>::empty(),
    decreases s.len(),
{
    if s.len() > 0 {
        assert(is_managed_item(s[s.len() - 1], field, p1, p2));
        lemma_keep_unmanaged_all_managed(s.drop_last(), field, p1, p2);
    }
}

/// Bringing a document up to date twice gives what bringing it up to date once gives,
/// when the items added are all items this module recognises as its own.
pub proof fn lemma_sync_document_idempotent(
    doc: JsonV,
    version: Seq<char>,
    list_key: Seq<char>,
    root_error: Seq<char>,
    list_error: Seq<char>,
    field: Seq<char>,
    p1: Seq<char>,
    p2: Seq<char>,
    new_items: Seq<JsonV>,
)
    requires
        list_key != "version"@,
        forall|i: int|
            0 <= i < new_items.len() ==> is_managed_item(#[trigger] new_items[i], field, p1, p2),
        sync_document_spec(doc, version, list_key, root_error, list_error, field, p1, p2, new_items) is Ok,
    ensures
        ({
            let once = sync_document_spec(
                doc,
                version,
                list_key,
                root_error,
                list_error,
                field,
                p1,
                p2,
                new_items,
            )->Ok_0;
            sync_document_spec(once, version, list_key, root_error, list_error, field, p1, p2, new_items)
                == Ok::<JsonV, Seq<char>>(once)
        }),
{
    let es = doc->Object_0;
    let es1 = entries_or_insert(es, "version"@, JsonV::Str(version));
    let es2 = entries_or_insert(es1, list_key, JsonV::Array(seq![]));
    let items = entries_get(es2, list_key)->Some_0->Array_0;
    let k = keep_unmanaged(items, field, p1, p2);
    let list = JsonV::Array(k + new_items);
    let es3 = entries_set(es2, list_key, list);
    lemma_get_after_push(es, "version"@, JsonV::Str(version), "version"@);
    assert(entries_get(es1, "version"@) is Some);
    lemma_get_after_push(es1, list_key, JsonV::Array(seq![]), "version"@);
    assert(entries_get(es2, "version"@) is Some);
    lemma_get_after_set_other(es2, list_key, list, "version"@);
    assert(entries_or_insert(es3, "version"@, JsonV::Str(version)) == es3);
    lemma_get_after_set(es2, list_key, list);
    assert(entries_or_insert(es3, list_key, JsonV::Array(seq![])) == es3);
    lemma_keep_unmanaged_append(k, new_items, field, p1, p2);
    lemma_keep_unmanaged_idempotent(items, field, p1, p2);
    lemma_keep_unmanaged_all_managed(new_items, field, p1, p2);
    assert(keep_unmanaged(k + new_items, field, p1, p2) =~= k);
    assert(keep_unmanaged(k + new_items, field, p1, p2) + new_items =~= k + new_items);
    lemma_set_existing_value(es3, list_key, list);
}

/// `t` starts with `a + b + c`, when it is `a + b + c + d`.
proof fn lemma_prefix_of_join(a: Seq<char>, b: Seq<char>, c: Seq<char>, d: Seq<char>)
    ensures
        has_prefix(a + b + c + d, a + b + c),
{
    assert((a + b + c + d).subrange(0, (a + b + c).len() as int) =~= a + b + c);
}

/// The names of the launch configurations this module writes for the client and the
/// server mark them as its own.
proof fn lemma_launch_names_are_managed(key: Seq<char>, suffix: Seq<char>)
    requires
        key == "client"@ || key == "server"@,
    ensures
        is_managed_launch(launch_name(component_title(key), suffix)),
{
    reveal_strlit("client");
    reveal_strlit("server");
    reveal_strlit("Client");
    reveal_strlit("Server");
    reveal_strlit("Germina ");
    reveal_strlit(" (");
    reveal_strlit("Germina Client (");
    reveal_strlit("Germina Server (");
    assert("client"@[0] != "server"@[0]);
    lemma_prefix_of_join("Germina "@, component_title(key), " ("@, suffix + ")"@);
    assert(launch_name(component_title(key), suffix) =~= "Germina "@ + component_title(key) + " ("@
        + (suffix + ")"@));
    assert("Germina Client ("@ =~= "Germina "@ + "Client"@ + " ("@);
    assert("Germina Server ("@ =~= "Germina "@ + "Server"@ + " ("@);
}

/// The labels of the build tasks this module writes for the client and the server mark
/// them as its own.
proof fn lemma_task_labels_are_managed(key: Seq<char>, suffix: Seq<char>)
    requires
        key == "client"@ || key == "server"@,
    ensures
        is_managed_task(task_label_of(component_title(key), suffix)),
{
    reveal_strlit("client");
    reveal_strlit("server");
    reveal_strlit("Client");
    reveal_strlit("Server");
    reveal_strlit("Germina Build ");
    reveal_strlit(" (");
    reveal_strlit("Germina Build Client (");
    reveal_strlit("Germina Build Server (");
    assert("client"@[0] != "server"@[0]);
    lemma_prefix_of_join("Germina Build "@, component_title(key), " ("@, suffix + ")"@);
    assert(task_label_of(component_title(key), suffix) =~= "Germina Build "@ + component_title(key)
        + " ("@ + (suffix + ")"@));
    assert("Germina Build Client ("@ =~= "Germina Build "@ + "Client"@ + " ("@);
    assert("Germina Build Server ("@ =~= "Germina Build "@ + "Server"@ + " ("@);
}

/// The component states are those of the client and the server.
pub open spec fn client_or_server(cs: Seq<ComponentStateView>) -> bool {
    forall|i: int| 0 <= i < cs.len() ==> (#[trigger] cs[i]).key == "client"@ || cs[i].key == "server"@
}

/// Every launch configuration written for the client and the server is one this module
/// recognises as its own.
proof fn lemma_launch_configs_managed(
    cs: Seq<ComponentStateView>,
    profile: LaunchProfile,
    endpoint: Seq<char>,
    windows: bool,
)
    requires
        client_or_server(cs),
    ensures
        ({
            let n = launch_configs_spec(cs, profile, endpoint, windows);
            forall|i: int|
                0 <= i < n.len() ==> is_managed_item(
                    #[trigger] n[i],
                    "name"@,
                    "Germina Client ("@,
                    "Germina Server ("@,
                )
        }),
    decreases cs.len(),
{
    if cs.len() > 0 {
        assert(client_or_server(cs.drop_last())) by {
            assert forall|i: int| 0 <= i < cs.drop_last().len() implies (#[trigger] cs.drop_last()[i]).key == "client"@
                || cs.drop_last()[i].key == "server"@ by {
                assert(cs.drop_last()[i] == cs[i]);
            }
        }
        lemma_launch_configs_managed(cs.drop_last(), profile, endpoint, windows);
        let c = cs.last();
        assert(c == cs[cs.len() - 1]);
        lemma_launch_names_are_managed(c.key, launch_suffix_of(profile));
        let title = component_title(c.key);
        let suffix = launch_suffix_of(profile);
        let rest = launch_configs_spec(cs.drop_last(), profile, endpoint, windows);
        let f = "name"@;
        let p1 = "Germina Client ("@;
        let p2 = "Germina Server ("@;
        let src = source_config_spec(c, profile, endpoint, windows);
        let att = attach_config_spec(c, profile);
        if let JsonV::Object(x) = src {
            assert(x[0] == ("name"@, jstr(launch_name(title, suffix))));
            assert(field_text(src, f) == Some(launch_name(title, suffix)));
        }
        if let JsonV::Object(x) = att {
            assert(x[0] == ("name"@, jstr(launch_name(title, suffix))));
            assert(field_text(att, f) == Some(launch_name(title, suffix)));
        }
        assert(is_managed_item(src, f, p1, p2));
        assert(is_managed_item(att, f, p1, p2));
        let n = launch_configs_spec(cs, profile, endpoint, windows);
        assert forall|i: int| 0 <= i < n.len() implies is_managed_item(#[trigger] n[i], f, p1, p2) by {
            if i < rest.len() {
                assert(n[i] == rest[i]);
            }
        }
    }
}

/// Every build task written for the client and the server is one this module recognises
/// as its own.
proof fn lemma_build_tasks_managed(cs: Seq<ComponentStateView>, profile: LaunchProfile)
    requires
        client_or_server(cs),
    ensures
        ({
            let n = build_tasks_spec(cs, profile);
            forall|i: int|
                0 <= i < n.len() ==> is_managed_item(
                    #[trigger] n[i],
                    "label"@,
                    "Germina Build Client ("@,
                    "Germina Build Server ("@,
                )
        }),
    decreases cs.len(),
{
    if cs.len() > 0 {
        assert(client_or_server(cs.drop_last())) by {
            assert forall|i: int| 0 <= i < cs.drop_last().len() implies (#[trigger] cs.drop_last()[i]).key == "client"@
                || cs.drop_last()[i].key == "server"@ by {
                assert(cs.drop_last()[i] == cs[i]);
            }
        }
        lemma_build_tasks_managed(cs.drop_last(), profile);
        let c = cs.last();
        assert(c == cs[cs.len() - 1]);
        lemma_task_labels_are_managed(c.key, launch_suffix_of(profile));
        let label = task_label_of(component_title(c.key), launch_suffix_of(profile));
        let rest = build_tasks_spec(cs.drop_last(), profile);
        let f = "label"@;
        let p1 = "Germina Build Client ("@;
        let p2 = "Germina Build Server ("@;
        let t = build_task_spec(c, profile);
        if let JsonV::Object(x) = t {
            assert(x[0] == ("label"@, jstr(label)));
            assert(field_text(t, f) == Some(label));
        }
        assert(is_managed_item(t, f, p1, p2));
        let n = build_tasks_spec(cs, profile);
        assert forall|i: int| 0 <= i < n.len() implies is_managed_item(#[trigger] n[i], f, p1, p2) by {
            if i < rest.len() {
                assert(n[i] == rest[i]);
            }
        }
    }
}

/// Writing `launch.json` for the client and the server twice leaves it as writing it
/// once does: this module's configurations are replaced, not duplicated.
pub proof fn lemma_launch_update_idempotent(
    doc: JsonV,
    cs: Seq<ComponentStateView>,
    profile: LaunchProfile,
    endpoint: Seq<char>,
    windows: bool,
)
    requires
        client_or_server(cs),
        launch_document_spec(doc, cs, profile, endpoint, windows) is Ok,
    ensures
        ({
            let once = launch_document_spec(doc, cs, profile, endpoint, windows)->Ok_0;
            launch_document_spec(once, cs, profile, endpoint, windows) == Ok::<JsonV, Seq<char>>(once)
        }),
{
    reveal_strlit("configurations");
    reveal_strlit("version");
    assert("configurations"@.len() != "version"@.len());
    lemma_launch_configs_managed(cs, profile, endpoint, windows);
    lemma_sync_document_idempotent(
        doc,
        "0.2.0"@,
        "configurations"@,
        "launch.json root must be an object"@,
        "launch.json field 'configurations' must be an array"@,
        "name"@,
        "Germina Client ("@,
        "Germina Server ("@,
        launch_configs_spec(cs, profile, endpoint, windows),
    );
}

/// Writing `tasks.json` for the client and the server twice leaves it as writing it once
/// does: this module's tasks are replaced, not duplicated.
pub proof fn lemma_tasks_update_idempotent(
    doc: JsonV,
    cs: Seq<ComponentStateView>,
    profile: LaunchProfile,
)
    requires
        client_or_server(cs),
        tasks_document_spec(doc, cs, profile) is Ok,
    ensures
        ({
            let once = tasks_document_spec(doc, cs, profile)->Ok_0;
            tasks_document_spec(once, cs, profile) == Ok::<JsonV, Seq<char>>(once)
        }),
{
    reveal_strlit("tasks");
    reveal_strlit("version");
    assert("tasks"@.len() != "version"@.len());
    lemma_build_tasks_managed(cs, profile);
    lemma_sync_document_idempotent(
        doc,
        "2.0.0"@,
        "tasks"@,
        "tasks.json root must be an object"@,
        "tasks.json field 'tasks' must be an array"@,
        "label"@,
        "Germina Build Client ("@,
        "Germina Build Server ("@,
        build_tasks_spec(cs, profile),
    );
}

/// Entries that this module did not write are kept, in their order, whatever it adds.
pub proof fn lemma_unmanaged_items_preserved(
    items: Seq<JsonV>,
    field: Seq<char>,
    p1: Seq<char>,
    p2: Seq<char>,
)
    requires
        forall|i: int| 0 <= i < items.len() ==> !is_managed_item(#[trigger] items[i], field, p1, p2),
    ensures
        keep_unmanaged(items, field, p1, p2) == items,
    decreases items.len(),
{
    if items.len() > 0 {
        assert(!is_managed_item(items[items.len() - 1], field, p1, p2));
        lemma_unmanaged_items_preserved(items.drop_last(), field, p1, p2);
        assert(items.drop_last().push(items.last()) =~= items);
    }
}

/// Removing this module's items from a list drops an item exactly when its `field` is a
/// text starting with `p1` or `p2`: such an item added at the end is dropped, and any
/// other item (one without that field, with a field that is not a text, or not an
/// object at all) is kept, after the items kept before it.
pub proof fn lemma_removal_drops_only_managed_texts(
    s: Seq<JsonV>,
    x: JsonV,
    field: Seq<char>,
    p1: Seq<char>,
    p2: Seq<char>,
)
    ensures
        (get_field(x, field) matches Some(JsonV::Str(t)) && (has_prefix(t, p1) || has_prefix(t, p2)))
            ==> keep_unmanaged(s.push(x), field, p1, p2) == keep_unmanaged(s, field, p1, p2),
        !(get_field(x, field) matches Some(JsonV::Str(t)) && (has_prefix(t, p1) || has_prefix(
            t,
            p2,
        ))) ==> keep_unmanaged(s.push(x), field, p1, p2) == keep_unmanaged(s, field, p1, p2).push(x),
        get_field(x, field) is None ==> keep_unmanaged(s.push(x), field, p1, p2) == keep_unmanaged(
            s,
            field,
            p1,
            p2,
        ).push(x),
{
    assert(s.push(x).drop_last() =~= s);
    assert(s.push(x).last() == x);
}

} // verus!
