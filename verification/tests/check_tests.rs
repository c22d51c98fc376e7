use germina::orchestrator::check::{
    binary_line, build_tools, compiler_candidates, compiler_front_ends, discover_cmake_source_components, display_path, header_line,
    known_manifests, resolve_component_kind, toolchain_header, toolchain_start, toolchain_step,
    version_line, CheckReport, FoundComponent, ToolchainAction, ToolchainEvent, ToolchainScan,
    VersionProbe,
};

#[test]
fn header_and_binary_lines() {
    assert_eq!(header_line("/opt/g"), "Checking runtime hierarchy at /opt/g");
    assert_eq!(binary_line("/opt/g/germina", true), "[ok] germina binary: /opt/g/germina");
    assert_eq!(binary_line("/x/germina", false), "[ok] germina binary detected: /x/germina");
}

#[test]
fn toolchain_header_joins_components() {
    let both = discover_cmake_source_components(true, true);
    assert_eq!(both, vec!["germina-client".to_string(), "germina-server".to_string()]);
    assert_eq!(
        toolchain_header(&both),
        "Checking native toolchain for CMake components: germina-client, germina-server"
    );
    let one = discover_cmake_source_components(false, true);
    assert_eq!(toolchain_header(&one), "Checking native toolchain for CMake components: germina-server");
    assert!(discover_cmake_source_components(false, false).is_empty());
}

#[test]
fn fixed_candidate_lists() {
    assert_eq!(known_manifests(), vec!["Cargo.toml", "CMakeLists.txt", "package.json"]);
    let pairs = |v: Vec<(String, String)>| v.into_iter().map(|(a, b)| format!("{a} {b}")).collect::<Vec<_>>();
    assert_eq!(pairs(compiler_candidates(false)), vec!["cc --version", "clang --version", "gcc --version"]);
    assert_eq!(pairs(compiler_candidates(true)), vec!["cl /?", "clang --version", "gcc --version"]);
    assert_eq!(build_tools(), vec!["cmake", "cargo", "ninja"]);
    assert_eq!(compiler_front_ends(), vec!["clang", "clang++"]);
}

#[test]
fn version_line_takes_first_nonblank_line() {
    assert_eq!(version_line("cmake version 3.28.1\n\nCMake suite"), "cmake version 3.28.1");
    assert_eq!(version_line("\n   \n  clang 17.0.6  \nTarget"), "clang 17.0.6");
    assert_eq!(version_line(""), "version unavailable");
    assert_eq!(version_line(" \n\t\n"), "version unavailable");
}

#[test]
fn component_kind_resolution() {
    assert_eq!(
        resolve_component_kind(Some("/r/germina-client".into()), "/r/germina-client".into(), true),
        Some(FoundComponent::Binary("/r/germina-client".into()))
    );
    assert_eq!(
        resolve_component_kind(None, "/r/germina-client".into(), true),
        Some(FoundComponent::SourceFolder("/r/germina-client".into()))
    );
    assert_eq!(resolve_component_kind(None, "/r/x".into(), false), None);
}

#[test]
fn displayed_paths() {
    assert_eq!(display_path("rt", Some("/abs/rt".into()), false, Some("/home"), false), "/abs/rt");
    assert_eq!(display_path("/rt", None, true, Some("/home"), false), "/rt");
    assert_eq!(display_path("rt", None, false, Some("/home"), false), "/home/rt");
    assert_eq!(display_path("rt", None, false, None, false), "rt");
    assert_eq!(display_path("rt", None, false, Some("C:\\home"), true), "C:\\home\\rt");
}

#[test]
fn a_clean_check_succeeds() {
    let mut r = CheckReport::new();
    assert_eq!(r.check_modules_dir("/r/modules", true, true), Some("[ok] modules folder: /r/modules".to_string()));
    assert_eq!(
        r.check_source_folder("germina-client", "/r/germina-client", true, false),
        Some("[ok] germina-client: source manifest detected".to_string())
    );
    assert_eq!(
        r.check_source_folder("germina-server", "/r/germina-server", false, true),
        Some("[ok] germina-server: modules subtree detected".to_string())
    );
    assert_eq!(
        r.check_component_found("/r", "germina-client", &Some(FoundComponent::Binary("/r/c".into()))),
        Some("[ok] germina-client: binary /r/c".to_string())
    );
    assert_eq!(
        r.check_component_found("/r", "germina-server", &Some(FoundComponent::SourceFolder("/r/s".into()))),
        Some("[ok] germina-server: source folder /r/s".to_string())
    );
    assert_eq!(
        r.check_binary_runtime_version("germina-client", "0.3.1", &VersionProbe::Output("germina-client 0.3.1\n".into())),
        Some("[ok] germina-client: runtime version contains 0.3.1".to_string())
    );
    assert_eq!(r.check_tool("cmake", Some("cmake version 3.28.1")), Some("[ok] cmake: cmake version 3.28.1".to_string()));
    assert_eq!(
        r.check_compiler(Some(("clang", "clang 17")), false),
        Some("[ok] C/C++ compiler: clang (clang 17)".to_string())
    );
    assert_eq!(
        r.check_windows_long_paths(true, "    LongPathsEnabled    REG_DWORD    0x1"),
        Some("[ok] windows long paths: enabled".to_string())
    );
    assert!(r.errors().is_empty());
    let out = r.finish();
    assert_eq!(out.lines, vec!["Check completed successfully".to_string()]);
    assert_eq!(out.result, Ok(()));
}

#[test]
fn each_failed_check_records_its_error() {
    let mut r = CheckReport::new();
    assert_eq!(r.check_modules_dir("/r/modules", false, false), None);
    assert_eq!(r.check_modules_dir("/r/modules", true, false), None);
    assert_eq!(r.check_source_folder("germina-client", "/r/c", false, false), None);
    assert_eq!(r.check_component_found("/r", "germina-server", &None), None);
    assert_eq!(r.check_binary_runtime_version("germina-client", "1.0", &VersionProbe::Failed), None);
    assert_eq!(
        r.check_binary_runtime_version("germina-client", "1.0", &VersionProbe::Output("  v0.9 \n".into())),
        None
    );
    assert_eq!(r.check_tool("ninja", None), None);
    assert_eq!(r.check_compiler(None, false), None);
    assert_eq!(r.check_compiler(None, true), None);
    assert_eq!(r.check_windows_long_paths(false, ""), None);
    assert_eq!(r.check_windows_long_paths(true, "LongPathsEnabled REG_DWORD 0x0"), None);
    let expected = vec![
        "Missing required folder: /r/modules",
        "Path exists but is not a directory: /r/modules",
        "germina-client source folder exists but no known build manifest found in /r/c",
        "Missing germina-server (expected binary or source folder under /r)",
        "germina-client binary returned non-zero status for --version",
        "germina-client runtime version mismatch: expected to find '1.0', got 'v0.9'",
        "Missing required tool 'ninja' in PATH",
        "No C/C++ compiler found in PATH (expected one of: cc, clang, gcc)",
        "No C/C++ compiler found in PATH (expected one of: cl, clang, gcc)",
        "Failed to read Windows Long Paths setting (LongPathsEnabled) from registry",
        "Windows long paths are disabled. Enable LongPathsEnabled=1 in HKLM\\SYSTEM\\CurrentControlSet\\Control\\FileSystem",
    ];
    assert_eq!(r.errors(), &expected.iter().map(|s| s.to_string()).collect::<Vec<_>>());
    let out = r.finish();
    assert_eq!(out.result, Err("Hierarchy check failed (11 issue(s))".to_string()));
    assert_eq!(out.lines.len(), 11);
    assert_eq!(out.lines[0], "[error] Missing required folder: /r/modules");
    assert_eq!(out.lines[6], "[error] Missing required tool 'ninja' in PATH");
}

fn run_toolchain(windows: bool, answers: Vec<ToolchainEvent>) -> (Vec<String>, Vec<Option<String>>, Vec<String>) {
    let mut report = CheckReport::new();
    let (mut scan, mut action) = toolchain_start(windows);
    let mut asked = Vec::new();
    let mut lines = Vec::new();
    let mut answers = answers.into_iter();
    loop {
        match &action {
            ToolchainAction::ProbeVersion { tool, arg } => asked.push(format!("{tool} {arg}")),
            ToolchainAction::QueryLongPaths => asked.push("reg".to_string()),
            ToolchainAction::Done => break,
        }
        let step = toolchain_step(&mut scan, &mut report, answers.next().unwrap(), windows);
        lines.push(step.line);
        action = step.action;
    }
    assert_eq!(scan, ToolchainScan::Finished);
    (asked, lines, report.errors().clone())
}

fn v(s: &str) -> ToolchainEvent {
    ToolchainEvent::Version(Some(s.to_string()))
}

#[test]
fn toolchain_probes_in_order_and_stops_at_first_compiler() {
    let none = || ToolchainEvent::Version(None);
    let (asked, lines, errors) =
        run_toolchain(false, vec![v("cmake 3"), none(), v("ninja 1"), v("clang 17"), none(), none(), v("clang 17")]);
    assert_eq!(
        asked,
        vec!["cmake --version", "cargo --version", "ninja --version", "clang --version", "clang++ --version", "cc --version", "clang --version"]
    );
    assert_eq!(lines[0].as_deref(), Some("[ok] cmake: cmake 3"));
    assert_eq!(lines[1], None);
    assert_eq!(lines[6].as_deref(), Some("[ok] C/C++ compiler: clang (clang 17)"));
    assert_eq!(errors, vec!["Missing required tool 'cargo' in PATH", "Missing required tool 'clang++' in PATH"]);
}

#[test]
fn toolchain_on_windows_reads_long_paths_after_ninja() {
    let none = || ToolchainEvent::Version(None);
    let lp = ToolchainEvent::LongPaths { succeeded: true, output: "LongPathsEnabled REG_DWORD 0x0".to_string() };
    let (asked, _, errors) =
        run_toolchain(true, vec![v("a"), v("b"), v("c"), lp, v("d"), v("e"), none(), none(), none()]);
    assert_eq!(
        asked,
        vec!["cmake --version", "cargo --version", "ninja --version", "reg", "clang --version", "clang++ --version", "cl /?", "clang --version", "gcc --version"]
    );
    assert_eq!(
        errors,
        vec![
            "Windows long paths are disabled. Enable LongPathsEnabled=1 in HKLM\\SYSTEM\\CurrentControlSet\\Control\\FileSystem",
            "No C/C++ compiler found in PATH (expected one of: cl, clang, gcc)",
        ]
    );
}

#[test]
fn toolchain_ignores_answers_to_nothing_asked() {
    let mut report = CheckReport::new();
    let (mut scan, _) = toolchain_start(false);
    let step = toolchain_step(&mut scan, &mut report, ToolchainEvent::LongPaths { succeeded: true, output: String::new() }, false);
    assert_eq!(scan, ToolchainScan::Tool(0));
    assert_eq!(step.action, ToolchainAction::ProbeVersion { tool: "cmake".into(), arg: "--version".into() });
    assert!(report.errors().is_empty());
}
