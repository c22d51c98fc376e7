use germina::json::Json;
use germina::orchestrator::launch::{
    binary_attach_config, binary_candidates, build_task, build_task_label, build_tasks, components,
    config_name, default_launch_json, default_tasks_json, detect_component_kind,
    detect_launch_profile, document_is_blank, is_managed_launch_name, is_managed_task_label,
    join_path, launch_configs, remove_managed_configurations, remove_managed_tasks,
    source_launch_config, task_label, update_launch_json, update_tasks_json, ComponentKind,
    ComponentSpec, ComponentState, LaunchProfile,
};

fn state(key: &str, kind: ComponentKind, binary_path: &str) -> ComponentState {
    let dir = format!("germina-{}", key);
    ComponentState {
        spec: ComponentSpec { key: key.to_string(), component_dir: dir.clone(), binary_name: dir },
        kind,
        binary_path: binary_path.to_string(),
    }
}

fn named(name: &str) -> Json {
    Json::object(vec![("name".to_string(), Json::string(name))])
}

fn labelled(label: &str) -> Json {
    Json::object(vec![("label".to_string(), Json::string(label))])
}

fn text_of<'a>(v: &'a Json, key: &str) -> &'a str {
    v.get(key).and_then(|f| f.as_str()).unwrap()
}

fn list<'a>(doc: &'a Json, key: &str) -> &'a Vec<Json> {
    match doc.get(key) {
        Some(Json::Array(items)) => items,
        _ => panic!("no list under {}", key),
    }
}

#[test]
fn profile_follows_build_profile_name() {
    assert_eq!(detect_launch_profile(Some("release")), LaunchProfile::Release);
    assert_eq!(detect_launch_profile(Some("RELEASE")), LaunchProfile::Release);
    assert_eq!(detect_launch_profile(Some("debug")), LaunchProfile::Debug);
    assert_eq!(detect_launch_profile(Some("bench")), LaunchProfile::Debug);
    assert_eq!(detect_launch_profile(None), LaunchProfile::Debug);
    assert_eq!(LaunchProfile::Release.build_type(), "Release");
    assert_eq!(LaunchProfile::Debug.launch_suffix(), "Debug");
}

#[test]
fn the_two_components() {
    let cs = components();
    assert_eq!(cs.len(), 2);
    assert_eq!(cs[0].key, "client");
    assert_eq!(cs[0].component_dir, "germina-client");
    assert_eq!(cs[1].binary_name, "germina-server");
    assert_eq!(cs[0].title(), "Client");
    assert_eq!(cs[1].title(), "Server");
    let other = ComponentSpec { key: "tools".into(), component_dir: "t".into(), binary_name: "t".into() };
    assert_eq!(other.title(), "Component");
}

#[test]
fn component_kind_prefers_source() {
    assert_eq!(detect_component_kind(true, true), ComponentKind::Source);
    assert_eq!(detect_component_kind(false, true), ComponentKind::Binary);
    assert_eq!(detect_component_kind(false, false), ComponentKind::Missing);
}

#[test]
fn managed_names_and_labels() {
    assert!(is_managed_launch_name("Germina Client (Debug)"));
    assert!(is_managed_launch_name("Germina Server (Release)"));
    assert!(!is_managed_launch_name("Germina Tools (Debug)"));
    assert!(!is_managed_launch_name("My launch"));
    assert!(is_managed_task_label("Germina Build Server (Debug)"));
    assert!(!is_managed_task_label("Germina Client (Debug)"));
}

#[test]
fn paths_are_joined_with_one_separator() {
    assert_eq!(join_path("/opt/germina", "bin", false), "/opt/germina/bin");
    assert_eq!(join_path("/opt/germina/", "bin", false), "/opt/germina/bin");
    assert_eq!(join_path("", "bin", false), "bin");
    assert_eq!(join_path("C:\\germina", "bin", true), "C:\\germina\\bin");
    assert_eq!(join_path("C:\\germina\\", "bin", true), "C:\\germina\\bin");
    assert_eq!(join_path("C:/germina/", "bin", true), "C:/germina/bin");
    assert_eq!(join_path("C:", "bin", true), "C:bin");
    assert_eq!(join_path("a\\", "bin", false), "a\\/bin");
    assert_eq!(binary_candidates("/r", "germina-client", false), vec!["/r/germina-client".to_string()]);
    assert_eq!(
        binary_candidates("/r", "germina-client", true),
        vec!["/r\\germina-client.exe".to_string(), "/r\\germina-client".to_string()]
    );
}

#[test]
fn launch_configuration_of_a_source_component() {
    let c = state("client", ComponentKind::Source, "");
    let cfg = source_launch_config(&c, LaunchProfile::Debug, "127.0.0.1:17171", false);
    assert_eq!(text_of(&cfg, "name"), "Germina Client (Debug)");
    assert_eq!(text_of(&cfg, "type"), "lldb");
    assert_eq!(text_of(&cfg, "request"), "launch");
    assert_eq!(text_of(&cfg, "program"), "${workspaceFolder}/germina-client/build/Debug/germina-client");
    assert_eq!(text_of(&cfg, "cwd"), "${workspaceFolder}/germina-client");
    assert_eq!(text_of(&cfg, "preLaunchTask"), "Germina Build Client (Debug)");
    let args = list(&cfg, "args");
    assert_eq!(args.len(), 2);
    assert_eq!(args[0].as_str(), Some("--cli"));
    assert_eq!(args[1].as_str(), Some("127.0.0.1:17171"));
    let win = source_launch_config(&c, LaunchProfile::Release, "h:1", true);
    assert_eq!(text_of(&win, "program"), "${workspaceFolder}/germina-client/build/Release/germina-client.exe");
}

#[test]
fn attach_configuration_of_a_binary_component() {
    let c = state("server", ComponentKind::Binary, "/opt/bin/germina-server");
    let cfg = binary_attach_config(&c, LaunchProfile::Release);
    assert_eq!(text_of(&cfg, "name"), "Germina Server (Release)");
    assert_eq!(text_of(&cfg, "request"), "attach");
    assert_eq!(text_of(&cfg, "pid"), "${command:pickProcess}");
    assert_eq!(text_of(&cfg, "program"), "/opt/bin/germina-server");
    let bare = binary_attach_config(&state("server", ComponentKind::Binary, ""), LaunchProfile::Release);
    assert!(bare.get("program").is_none());
}

#[test]
fn build_task_of_a_source_component() {
    let c = state("server", ComponentKind::Source, "");
    assert_eq!(build_task_label(&c, LaunchProfile::Release), "Germina Build Server (Release)");
    let t = build_task(&c, LaunchProfile::Release);
    assert_eq!(text_of(&t, "label"), "Germina Build Server (Release)");
    assert_eq!(text_of(&t, "type"), "shell");
    assert_eq!(
        text_of(&t, "command"),
        "cmake -S \"${workspaceFolder}/germina-server\" -B \"${workspaceFolder}/germina-server/build/Release\" -DCMAKE_BUILD_TYPE=Release -DCMAKE_C_COMPILER=clang -DCMAKE_CXX_COMPILER=clang++; cmake --build \"${workspaceFolder}/germina-server/build/Release\" --config Release"
    );
    let options = t.get("options").unwrap();
    assert_eq!(text_of(options, "cwd"), "${workspaceFolder}");
    assert!(list(&t, "problemMatcher").is_empty());
}

#[test]
fn configs_and_tasks_follow_component_kinds() {
    let states = vec![
        state("client", ComponentKind::Source, ""),
        state("server", ComponentKind::Binary, "/b/germina-server"),
        state("tools", ComponentKind::Missing, ""),
    ];
    let configs = launch_configs(&states, LaunchProfile::Debug, "e:1", false);
    assert_eq!(configs.len(), 2);
    assert_eq!(text_of(&configs[0], "request"), "launch");
    assert_eq!(text_of(&configs[1], "request"), "attach");
    let tasks = build_tasks(&states, LaunchProfile::Debug);
    assert_eq!(tasks.len(), 1);
    assert_eq!(text_of(&tasks[0], "label"), "Germina Build Client (Debug)");
}

#[test]
fn names_and_labels_are_read() {
    assert_eq!(config_name(&named("x")), Ok("x"));
    assert_eq!(
        config_name(&Json::object(vec![])),
        Err("launch configuration misses string field 'name'".to_string())
    );
    assert_eq!(
        config_name(&Json::object(vec![("name".to_string(), Json::Bool(true))])),
        Err("launch configuration misses string field 'name'".to_string())
    );
    assert_eq!(task_label(&labelled("build")), Some("build"));
    assert_eq!(task_label(&Json::Null), None);
}

#[test]
fn managed_items_are_removed_and_others_kept_in_order() {
    let mut configs = vec![named("A"), named("Germina Client (Debug)"), Json::Null, named("B")];
    remove_managed_configurations(&mut configs);
    assert_eq!(configs.len(), 3);
    assert_eq!(text_of(&configs[0], "name"), "A");
    assert!(matches!(configs[1], Json::Null));
    assert_eq!(text_of(&configs[2], "name"), "B");
    let mut tasks = vec![labelled("Germina Build Server (Release)"), labelled("lint")];
    remove_managed_tasks(&mut tasks);
    assert_eq!(tasks.len(), 1);
    assert_eq!(text_of(&tasks[0], "label"), "lint");
}

#[test]
fn blank_documents() {
    assert!(document_is_blank(None));
    assert!(document_is_blank(Some("")));
    assert!(document_is_blank(Some(" \n\t ")));
    assert!(!document_is_blank(Some("{}")));
}

#[test]
fn default_documents() {
    let l = default_launch_json();
    assert_eq!(text_of(&l, "version"), "0.2.0");
    assert!(list(&l, "configurations").is_empty());
    let t = default_tasks_json();
    assert_eq!(text_of(&t, "version"), "2.0.0");
    assert!(list(&t, "tasks").is_empty());
}

#[test]
fn launch_json_keeps_user_entries_and_replaces_managed_ones() {
    let doc = Json::object(vec![(
        "configurations".to_string(),
        Json::array(vec![named("Mine"), named("Germina Server (Debug)")]),
    )]);
    let states = vec![state("client", ComponentKind::Source, "")];
    let out = update_launch_json(doc, &states, LaunchProfile::Release, "e:1", false).unwrap();
    assert_eq!(text_of(&out, "version"), "0.2.0");
    let configs = list(&out, "configurations");
    assert_eq!(configs.len(), 2);
    assert_eq!(text_of(&configs[0], "name"), "Mine");
    assert_eq!(text_of(&configs[1], "name"), "Germina Client (Release)");
}

#[test]
fn launch_json_update_is_idempotent() {
    let states = vec![
        state("client", ComponentKind::Source, ""),
        state("server", ComponentKind::Binary, "/b/s"),
    ];
    let once = update_launch_json(default_launch_json(), &states, LaunchProfile::Debug, "e:1", false).unwrap();
    let first = format!("{:?}", once);
    let twice = update_launch_json(once, &states, LaunchProfile::Debug, "e:1", false).unwrap();
    assert_eq!(format!("{:?}", twice), first);
}

#[test]
fn launch_json_errors() {
    let states = vec![state("client", ComponentKind::Source, "")];
    assert_eq!(
        update_launch_json(Json::array(vec![]), &states, LaunchProfile::Debug, "e", false).unwrap_err(),
        "launch.json root must be an object"
    );
    let bad = Json::object(vec![("configurations".to_string(), Json::string("x"))]);
    assert_eq!(
        update_launch_json(bad, &states, LaunchProfile::Debug, "e", false).unwrap_err(),
        "launch.json field 'configurations' must be an array"
    );
}

#[test]
fn tasks_json_keeps_version_and_replaces_managed_tasks() {
    let doc = Json::object(vec![
        ("version".to_string(), Json::string("9.9.9")),
        ("tasks".to_string(), Json::array(vec![labelled("Germina Build Client (Debug)"), labelled("lint")])),
    ]);
    let states = vec![state("server", ComponentKind::Source, ""), state("client", ComponentKind::Binary, "")];
    let out = update_tasks_json(doc, &states, LaunchProfile::Debug).unwrap();
    assert_eq!(text_of(&out, "version"), "9.9.9");
    let tasks = list(&out, "tasks");
    assert_eq!(tasks.len(), 2);
    assert_eq!(text_of(&tasks[0], "label"), "lint");
    assert_eq!(text_of(&tasks[1], "label"), "Germina Build Server (Debug)");
    assert_eq!(update_tasks_json(Json::Null, &states, LaunchProfile::Debug).unwrap_err(), "tasks.json root must be an object");
    let bad = Json::object(vec![("tasks".to_string(), Json::Null)]);
    assert_eq!(update_tasks_json(bad, &states, LaunchProfile::Debug).unwrap_err(), "tasks.json field 'tasks' must be an array");
}

#[test]
fn tasks_json_update_is_idempotent() {
    let states = vec![state("server", ComponentKind::Source, "")];
    let once = update_tasks_json(default_tasks_json(), &states, LaunchProfile::Release).unwrap();
    let first = format!("{:?}", once);
    let twice = update_tasks_json(once, &states, LaunchProfile::Release).unwrap();
    assert_eq!(format!("{:?}", twice), first);
}
