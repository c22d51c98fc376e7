//! The runtime hierarchy check: what it reports for each fact found on disk and for
//! each tool probed, and its verdict.
use crate::text::{append_decimal, contains, decimal, has_substring, trim, trim_chars, chars_of, string_of};
use vstd::prelude::*;

verus! {

/// The views of a list of texts.
pub open spec fn texts_of(v: Seq<String>) -> Seq<Seq<char>> {
    v.map_values(|s: String| s@)
}

/// How a component of the runtime was found under the root.
#[derive(Clone, Debug, PartialEq)]
pub enum FoundComponent {
    /// A binary at this (displayed) path.
    Binary(String),
    /// A source folder at this (displayed) path.
    SourceFolder(String),
}

/// What probing a binary's `--version` gave.
#[derive(Clone, Debug, PartialEq)]
pub enum VersionProbe {
    /// It exited with a non-zero status.
    Failed,
    /// It succeeded and printed this (standard output, then standard error).
    Output(String),
}

/// The problems a check has found so far, in the order found.
pub struct CheckReport {
    errors: Vec<String>,
}

impl View for CheckReport {
    type V = Seq<Seq<char>>;

    closed spec fn view(&self) -> Seq<Seq<char>> {
        texts_of(self.errors@)
    }
}

/// What the check prints last, and its verdict.
#[derive(Debug, PartialEq)]
pub struct CheckOutcome {
    pub lines: Vec<String>,
    pub result: Result<(), String>,
}

/// A line that starts with `first` and continues with `rest`.
fn line2(first: &str, rest: &str) -> (r: String)
    ensures
        r@ == first@ + rest@,
{
    let mut s = String::from_str(first);
    s.append(rest);
    s
}

/// A line made of three parts.
fn line3(a: &str, b: &str, c: &str) -> (r: String)
    ensures
        r@ == a@ + b@ + c@,
{
    let mut s = String::from_str(a);
    s.append(b);
    s.append(c);
    s
}

/// A line made of four parts.
fn line4(a: &str, b: &str, c: &str, d: &str) -> (r: String)
    ensures
        r@ == a@ + b@ + c@ + d@,
{
    let mut s = String::from_str(a);
    s.append(b);
    s.append(c);
    s.append(d);
    s
}

/// The first line of a check: `Checking runtime hierarchy at <root>`.
pub fn header_line(root: &str) -> (r: String)
    ensures
        r@ == "Checking runtime hierarchy at "@ + root@,
{
    line2("Checking runtime hierarchy at ", root)
}

/// The line about the running binary; `detected` when it does not live in the root.
pub fn binary_line(binary: &str, binary_dir_is_root: bool) -> (r: String)
    ensures
        r@ == if binary_dir_is_root {
            "[ok] germina binary: "@ + binary@
        } else {
            "[ok] germina binary detected: "@ + binary@
        },
{
    if !binary_dir_is_root {
        line2("[ok] germina binary detected: ", binary)
    } else {
        line2("[ok] germina binary: ", binary)
    }
}

/// The line that opens the tool-chain check, naming the components built with CMake:
/// `Checking native toolchain for CMake components: <a>, <b>`.
pub fn toolchain_header(components: &Vec<String>) -> (r: String)
    ensures
        r@ == "Checking native toolchain for CMake components: "@ + join_spec(
            texts_of(components@),
            ", "@,
        ),
{
    let mut s = String::from_str("Checking native toolchain for CMake components: ");
    let ghost head = s@;
    let mut i: usize = 0;
    while i < components.len()
        invariant
            i <= components.len(),
            s@ == head + join_spec(texts_of(components@).subrange(0, i as int), ", "@),
        decreases components.len() - i,
    {
        let ghost prev = s@;
        if i > 0 {
            s.append(", ");
        }
        s.append(components[i].as_str());
        proof {
            let t = texts_of(components@);
            assert(t.subrange(0, i + 1).drop_last() =~= t.subrange(0, i as int));
            assert(t.subrange(0, i + 1).last() == components[i as int]@);
            if i > 0 {
                assert(s@ =~= prev + ", "@ + components[i as int]@);
            } else {
                assert(t.subrange(0, 0) =~= Seq::<Seq<char>>::empty());
                assert(s@ =~= prev + components[i as int]@);
            }
        }
        i = i + 1;
    }
    assert(texts_of(components@).subrange(0, components.len() as int) =~= texts_of(components@));
    s
}

/// Texts joined with a separator between each two.
pub open spec fn join_spec(parts: Seq<Seq<char>>, sep: Seq<char>) -> Seq<char>
    decreases parts.len(),
{
    if parts.len() == 0 {
        Seq::empty()
    } else if parts.len() == 1 {
        parts[0]
    } else {
        join_spec(parts.drop_last(), sep) + sep + parts.last()
    }
}

/// The components whose source folder holds a `CMakeLists.txt`: `germina-client` when
/// `client_has_cmake`, then `germina-server` when `server_has_cmake`.
pub fn discover_cmake_source_components(client_has_cmake: bool, server_has_cmake: bool) -> (r: Vec<
    String,
>)
    ensures
        texts_of(r@) == (if client_has_cmake {
            seq!["germina-client"@]
        } else {
            Seq::empty()
        }) + (if server_has_cmake {
            seq!["germina-server"@]
        } else {
            Seq::empty()
        }),
{
    let mut r: Vec<String> = Vec::new();
    if client_has_cmake {
        r.push(String::from_str("germina-client"));
    }
    if server_has_cmake {
        r.push(String::from_str("germina-server"));
    }
    assert(texts_of(r@) =~= (if client_has_cmake {
        seq!["germina-client"@]
    } else {
        Seq::empty()
    }) + (if server_has_cmake {
        seq!["germina-server"@]
    } else {
        Seq::empty()
    }));
    r
}

/// The file names whose presence marks a source folder as buildable.
pub fn known_manifests() -> (r: Vec<String>)
    ensures
        texts_of(r@) == seq!["Cargo.toml"@, "CMakeLists.txt"@, "package.json"@],
{
    let mut r: Vec<String> = Vec::new();
    r.push(String::from_str("Cargo.toml"));
    r.push(String::from_str("CMakeLists.txt"));
    r.push(String::from_str("package.json"));
    assert(texts_of(r@) =~= seq!["Cargo.toml"@, "CMakeLists.txt"@, "package.json"@]);
    r
}

/// The texts of a list of pairs of texts.
pub open spec fn pairs_of(v: Seq<(String, String)>) -> Seq<(Seq<char>, Seq<char>)> {
    v.map_values(|p: (String, String)| (p.0@, p.1@))
}

/// The C/C++ compilers looked for, in order, each with the argument it is probed with:
/// `cl /?` first on Windows, `cc --version` first elsewhere, then `clang` and `gcc`.
pub fn compiler_candidates(windows: bool) -> (r: Vec<(String, String)>)
    ensures
        pairs_of(r@) == if windows {
            seq![("cl"@, "/?"@), ("clang"@, "--version"@), ("gcc"@, "--version"@)]
        } else {
            seq![("cc"@, "--version"@), ("clang"@, "--version"@), ("gcc"@, "--version"@)]
        },
{
    let mut r: Vec<(String, String)> = Vec::new();
    if windows {
        r.push((String::from_str("cl"), String::from_str("/?")));
    } else {
        r.push((String::from_str("cc"), String::from_str("--version")));
    }
    r.push((String::from_str("clang"), String::from_str("--version")));
    r.push((String::from_str("gcc"), String::from_str("--version")));
    assert(pairs_of(r@) =~= if windows {
        seq![("cl"@, "/?"@), ("clang"@, "--version"@), ("gcc"@, "--version"@)]
    } else {
        seq![("cc"@, "--version"@), ("clang"@, "--version"@), ("gcc"@, "--version"@)]
    });
    r
}

/// The build tools the toolchain check requires, in the order it probes them (each with
/// `--version`), before the Windows long-paths setting is read.
pub fn build_tools() -> (r: Vec<String>)
    ensures
        texts_of(r@) == seq!["cmake"@, "cargo"@, "ninja"@],
{
    let mut r: Vec<String> = Vec::new();
    r.push(String::from_str("cmake"));
    r.push(String::from_str("cargo"));
    r.push(String::from_str("ninja"));
    assert(texts_of(r@) =~= seq!["cmake"@, "cargo"@, "ninja"@]);
    r
}

/// The compiler front ends the toolchain check requires, in the order it probes them
/// (each with `--version`), after the Windows long-paths setting is read.
pub fn compiler_front_ends() -> (r: Vec<String>)
    ensures
        texts_of(r@) == seq!["clang"@, "clang++"@],
{
    let mut r: Vec<String> = Vec::new();
    r.push(String::from_str("clang"));
    r.push(String::from_str("clang++"));
    assert(texts_of(r@) =~= seq!["clang"@, "clang++"@]);
    r
}

/// The number of characters before the first line feed.
pub open spec fn line_len(s: Seq<char>) -> nat
    decreases s.len(),
{
    if s.len() == 0 || s[0] == '\n' {
        0
    } else {
        1 + line_len(s.drop_first())
    }
}

/// The first line of a tool's output that is not blank, trimmed; `version unavailable`
/// when there is none.
pub open spec fn version_line_spec(s: Seq<char>) -> Seq<char>
    decreases s.len(),
{
    let n = line_len(s);
    let line = trim(s.take(n as int));
    if line.len() > 0 {
        line
    } else if n >= s.len() {
        "version unavailable"@
    } else {
        version_line_spec(s.skip(n as int + 1))
    }
}

/// The length of a line is where its line feed, or the end, is.
proof fn lemma_line_len(t: Seq<char>, m: int)
    requires
        0 <= m <= t.len(),
        forall|k: int| 0 <= k < m ==> t[k] != '\n',
        m == t.len() || t[m] == '\n',
    ensures
        line_len(t) == m,
    decreases m,
{
    if m > 0 {
        lemma_line_len(t.drop_first(), m - 1);
    }
}

/// The version a tool reports: the first of its output's lines that is not blank,
/// trimmed, or `version unavailable`.
pub fn version_line(output: &str) -> (r: String)
    ensures
        r@ == version_line_spec(output@),
{
    let v = chars_of(output);
    let n = v.len();
    let mut start: usize = 0;
    assert(output@.skip(0) =~= output@);
    while start <= n
        invariant
            v@ == output@,
            n == v.len(),
            start <= n,
            version_line_spec(output@) == version_line_spec(output@.skip(start as int)),
        decreases n + 1 - start,
    {
        let mut j: usize = start;
        while j < n && v[j] != '\n'
            invariant
                start <= j <= n,
                n == v.len(),
                forall|k: int| start <= k < j ==> v@[k] != '\n',
            decreases n - j,
        {
            j = j + 1;
        }
        let ghost t = output@.skip(start as int);
        proof {
            lemma_line_len(t, j - start);
        }
        let mut seg: Vec<char> = Vec::new();
        let mut k: usize = start;
        while k < j
            invariant
                start <= k <= j <= n,
                n == v.len(),
                seg@ == v@.subrange(start as int, k as int),
            decreases j - k,
        {
            seg.push(v[k]);
            k = k + 1;
            assert(seg@ =~= v@.subrange(start as int, k as int));
        }
        assert(seg@ =~= t.take(j - start));
        let line = trim_chars(&seg);
        if line.len() > 0 {
            return string_of(&line);
        }
        if j >= n {
            return String::from_str("version unavailable");
        }
        assert(t.skip(j - start + 1) =~= output@.skip(j + 1));
        start = j + 1;
    }
    String::from_str("version unavailable")
}

/// How a component was found: its first binary candidate that is a file, otherwise its
/// source folder when that is a directory.
pub fn resolve_component_kind(
    first_binary: Option<String>,
    source_folder: String,
    source_folder_is_dir: bool,
) -> (r: Option<FoundComponent>)
    ensures
        match first_binary {
            Some(b) => r == Some(FoundComponent::Binary(b)),
            None => if source_folder_is_dir {
                r == Some(FoundComponent::SourceFolder(source_folder))
            } else {
                r is None
            },
        },
{
    match first_binary {
        Some(b) => Some(FoundComponent::Binary(b)),
        None => if source_folder_is_dir {
            Some(FoundComponent::SourceFolder(source_folder))
        } else {
            None
        },
    }
}

/// How a path is displayed: its canonical form when it has one; otherwise the path
/// itself when absolute, or joined to the working directory when that is known (with
/// the separator of Windows, `windows`, or of the other platforms).
pub fn display_path(
    path: &str,
    canonical: Option<String>,
    is_absolute: bool,
    cwd: Option<&str>,
    windows: bool,
) -> (r: String)
    ensures
        r@ == match canonical {
            Some(c) => c@,
            None => if is_absolute {
                path@
            } else {
                match cwd {
                    Some(d) => crate::orchestrator::launch::join_path_spec(d@, path@, windows),
                    None => path@,
                }
            },
        },
{
    match canonical {
        Some(c) => c,
        None => if is_absolute {
            String::from_str(path)
        } else {
            match cwd {
                Some(d) => crate::orchestrator::launch::join_path(d, path, windows),
                None => String::from_str(path),
            }
        },
    }
}

/// The displayed name of a `(tool, version)` pair: `<tool> (<version>)`.
pub open spec fn compiler_text(tool: Seq<char>, version: Seq<char>) -> Seq<char> {
    tool + " ("@ + version + ")"@
}

impl CheckReport {
    /// A report with no problems yet.
    pub fn new() -> (r: CheckReport)
        ensures
            r@ == Seq::<Seq<char>>::empty(),
    {
        let r = CheckReport { errors: Vec::new() };
        assert(r@ =~= Seq::<Seq<char>>::empty());
        r
    }

    /// The problems found so far.
    pub fn errors(&self) -> (r: &Vec<String>)
        ensures
            texts_of(r@) == self@,
    {
        &self.errors
    }

    /// Records a problem.
    fn add(&mut self, e: String)
        ensures
            final(self)@ == old(self)@.push(e@),
    {
        self.errors.push(e);
        assert(texts_of(self.errors@) =~= texts_of(old(self).errors@).push(e@));
    }

    /// Checks the root's `modules` folder (displayed as `modules`): a problem when it is
    /// missing or not a directory; an `[ok]` line otherwise.
    pub fn check_modules_dir(&mut self, modules: &str, exists: bool, is_dir: bool) -> (ok: Option<
        String,
    >)
        ensures
            !exists ==> ok is None && final(self)@ == old(self)@.push(
                "Missing required folder: "@ + modules@,
            ),
            exists && !is_dir ==> ok is None && final(self)@ == old(self)@.push(
                "Path exists but is not a directory: "@ + modules@,
            ),
            exists && is_dir ==> final(self)@ == old(self)@ && ok is Some && ok->0@
                == "[ok] modules folder: "@ + modules@,
    {
        if !exists {
            self.add(line2("Missing required folder: ", modules));
            return None;
        }
        if !is_dir {
            self.add(line2("Path exists but is not a directory: ", modules));
            return None;
        }
        Some(line2("[ok] modules folder: ", modules))
    }

    /// Checks a component's source folder (displayed as `path`): fine when it holds a
    /// known build manifest or a `modules` subfolder; a problem otherwise.
    pub fn check_source_folder(
        &mut self,
        component: &str,
        path: &str,
        has_known_manifest: bool,
        has_modules_subdir: bool,
    ) -> (ok: Option<String>)
        ensures
            has_known_manifest ==> final(self)@ == old(self)@ && ok is Some && ok->0@ == "[ok] "@
                + component@ + ": source manifest detected"@,
            !has_known_manifest && has_modules_subdir ==> final(self)@ == old(self)@ && ok is Some
                && ok->0@ == "[ok] "@ + component@ + ": modules subtree detected"@,
            !has_known_manifest && !has_modules_subdir ==> ok is None && final(self)@ == old(
                self,
            )@.push(
                component@ + " source folder exists but no known build manifest found in "@
                    + path@,
            ),
    {
        if has_known_manifest {
            return Some(line3("[ok] ", component, ": source manifest detected"));
        }
        if has_modules_subdir {
            return Some(line3("[ok] ", component, ": modules subtree detected"));
        }
        self.add(line3(component, " source folder exists but no known build manifest found in ", path));
        None
    }

    /// Checks that a component was found under the root (displayed as `root`): the
    /// `[ok]` line naming how it was found, or a problem when it was not.
    pub fn check_component_found(&mut self, root: &str, component: &str, found: &Option<FoundComponent>) -> (ok: Option<String>)
        ensures
            match found {
                Some(FoundComponent::Binary(p)) => final(self)@ == old(self)@ && ok is Some && ok->0@
                    == "[ok] "@ + component@ + ": binary "@ + p@,
                Some(FoundComponent::SourceFolder(p)) => final(self)@ == old(self)@ && ok is Some
                    && ok->0@ == "[ok] "@ + component@ + ": source folder "@ + p@,
                None => ok is None && final(self)@ == old(self)@.push(
                    "Missing "@ + component@ + " (expected binary or source folder under "@
                        + root@ + ")"@,
                ),
            },
    {
        match found {
            Some(FoundComponent::Binary(p)) => Some(line4("[ok] ", component, ": binary ", p.as_str())),
            Some(FoundComponent::SourceFolder(p)) => Some(
                line4("[ok] ", component, ": source folder ", p.as_str()),
            ),
            None => {
                let mut s = line3("Missing ", component, " (expected binary or source folder under ");
                s.append(root);
                s.append(")");
                self.add(s);
                None
            },
        }
    }

    /// Checks a component binary's reported version: it must succeed and its output must
    /// contain the expected runtime version.
    pub fn check_binary_runtime_version(
        &mut self,
        component: &str,
        expected: &str,
        probe: &VersionProbe,
    ) -> (ok: Option<String>)
        ensures
            match probe {
                VersionProbe::Failed => ok is None && final(self)@ == old(self)@.push(
                    component@ + " binary returned non-zero status for --version"@,
                ),
                VersionProbe::Output(text) => if has_substring(text@, expected@) {
                    final(self)@ == old(self)@ && ok is Some && ok->0@ == "[ok] "@ + component@
                        + ": runtime version contains "@ + expected@
                } else {
                    ok is None && final(self)@ == old(self)@.push(
                        component@ + " runtime version mismatch: expected to find '"@ + expected@
                            + "', got '"@ + trim(text@) + "'"@,
                    )
                },
            },
    {
        match probe {
            VersionProbe::Failed => {
                self.add(line2(component, " binary returned non-zero status for --version"));
                None
            },
            VersionProbe::Output(text) => {
                if contains(text.as_str(), expected) {
                    Some(line4("[ok] ", component, ": runtime version contains ", expected))
                } else {
                    let trimmed = string_of(&trim_chars(&chars_of(text.as_str())));
                    let mut s = line4(
                        component,
                        " runtime version mismatch: expected to find '",
                        expected,
                        "', got '",
                    );
                    s.append(trimmed.as_str());
                    s.append("'");
                    self.add(s);
                    None
                }
            },
        }
    }

    /// Checks that a required tool answered its version probe.
    pub fn check_tool(&mut self, tool: &str, version: Option<&str>) -> (ok: Option<String>)
        ensures
            match version {
                Some(v) => final(self)@ == old(self)@ && ok is Some && ok->0@ == "[ok] "@ + tool@
                    + ": "@ + v@,
                None => ok is None && final(self)@ == old(self)@.push(
                    "Missing required tool '"@ + tool@ + "' in PATH"@,
                ),
            },
    {
        match version {
            Some(v) => Some(line4("[ok] ", tool, ": ", v)),
            None => {
                self.add(line3("Missing required tool '", tool, "' in PATH"));
                None
            },
        }
    }

    /// Checks that some C/C++ compiler answered: `detected` is the first candidate that
    /// did, with its version.
    pub fn check_compiler(&mut self, detected: Option<(&str, &str)>, windows: bool) -> (ok: Option<
        String,
    >)
        ensures
            match detected {
                Some((tool, v)) => final(self)@ == old(self)@ && ok is Some && ok->0@
                    == "[ok] C/C++ compiler: "@ + compiler_text(tool@, v@),
                None => ok is None && final(self)@ == old(self)@.push(
                    "No C/C++ compiler found in PATH (expected one of: "@ + (if windows {
                        "cl, clang, gcc"@
                    } else {
                        "cc, clang, gcc"@
                    }) + ")"@,
                ),
            },
    {
        match detected {
            Some((tool, v)) => {
                let mut s = line4("[ok] C/C++ compiler: ", tool, " (", v);
                s.append(")");
                Some(s)
            },
            None => {
                let expected = if windows {
                    "cl, clang, gcc"
                } else {
                    "cc, clang, gcc"
                };
                self.add(line3("No C/C++ compiler found in PATH (expected one of: ", expected, ")"));
                None
            },
        }
    }

    /// Checks the Windows long-path setting from the registry query's outcome: the query
    /// must succeed and report `LongPathsEnabled` set to one.
    pub fn check_windows_long_paths(&mut self, query_succeeded: bool, output: &str) -> (ok: Option<
        String,
    >)
        ensures
            !query_succeeded ==> ok is None && final(self)@ == old(self)@.push(
                "Failed to read Windows Long Paths setting (LongPathsEnabled) from registry"@,
            ),
            query_succeeded && has_substring(output@, "LongPathsEnabled"@) && (has_substring(
                output@,
                "0x1"@,
            ) || has_substring(output@, "0x00000001"@)) ==> final(self)@ == old(self)@ && ok is Some
                && ok->0@ == "[ok] windows long paths: enabled"@,
            query_succeeded && !(has_substring(output@, "LongPathsEnabled"@) && (has_substring(
                output@,
                "0x1"@,
            ) || has_substring(output@, "0x00000001"@))) ==> ok is None && final(self)@ == old(
                self,
            )@.push(
                "Windows long paths are disabled. Enable LongPathsEnabled=1 in HKLM\\SYSTEM\\CurrentControlSet\\Control\\FileSystem"@,
            ),
    {
        if !query_succeeded {
            self.add(
                String::from_str(
                    "Failed to read Windows Long Paths setting (LongPathsEnabled) from registry",
                ),
            );
            return None;
        }
        if contains(output, "LongPathsEnabled") && (contains(output, "0x1") || contains(
            output,
            "0x00000001",
        )) {
            Some(String::from_str("[ok] windows long paths: enabled"))
        } else {
            self.add(
                String::from_str(
                    "Windows long paths are disabled. Enable LongPathsEnabled=1 in HKLM\\SYSTEM\\CurrentControlSet\\Control\\FileSystem",
                ),
            );
            None
        }
    }

    /// The outcome of the hierarchy check: success when no problem was found; otherwise one
    /// `[error] <problem>` line per problem and a failure that counts them.
    pub fn finish(&self) -> (r: CheckOutcome)
        ensures
            self@.len() == 0 ==> r.result is Ok && texts_of(r.lines@) == seq![
                "Check completed successfully"@,
            ],
            self@.len() > 0 ==> r.result is Err && r.result->Err_0@ == "Hierarchy check failed ("@
                + decimal(self@.len()) + " issue(s))"@ && texts_of(r.lines@) == self@.map_values(
                |e: Seq<char>| "[error] "@ + e,
            ),
    {
        let mut lines: Vec<String> = Vec::new();
        if self.errors.len() == 0 {
            lines.push(String::from_str("Check completed successfully"));
            assert(texts_of(lines@) =~= seq!["Check completed successfully"@]);
            return CheckOutcome { lines, result: Ok(()) };
        }
        let mut i: usize = 0;
        while i < self.errors.len()
            invariant
                i <= self.errors.len(),
                lines.len() == i,
                texts_of(lines@) == texts_of(self.errors@).subrange(0, i as int).map_values(
                    |e: Seq<char>| "[error] "@ + e,
                ),
            decreases self.errors.len() - i,
        {
            let ghost before = lines@;
            lines.push(line2("[error] ", self.errors[i].as_str()));
            proof {
                let target = texts_of(self.errors@).subrange(0, i + 1).map_values(
                    |e: Seq<char>| "[error] "@ + e,
                );
                let prev = texts_of(self.errors@).subrange(0, i as int).map_values(
                    |e: Seq<char>| "[error] "@ + e,
                );
                assert forall|k: int| 0 <= k < lines@.len() implies #[trigger] texts_of(lines@)[k]
                    == target[k] by {
                    if k < i {
                        assert(lines@[k] == before[k]);
                        assert(texts_of(before)[k] == prev[k]);
                    }
                }
                assert(texts_of(lines@) =~= target);
            }
            i = i + 1;
        }
        assert(texts_of(self.errors@).subrange(0, self.errors.len() as int) =~= texts_of(
            self.errors@,
        ));
        let mut msg = String::from_str("Hierarchy check failed (");
        append_decimal(&mut msg, self.errors.len() as u64);
        msg.append(" issue(s))");
        CheckOutcome { lines, result: Err(msg) }
    }
}

/// The tools the toolchain check requires, in the order it probes them: the build tools,
/// then the compiler front ends.
pub open spec fn required_tools_spec() -> Seq<Seq<char>> {
    seq!["cmake"@, "cargo"@, "ninja"@, "clang"@, "clang++"@]
}

/// The `j`-th C/C++ compiler looked for, with the argument it is probed with (see
/// [`compiler_candidates`]).
pub open spec fn compiler_candidate_spec(j: int, windows: bool) -> (Seq<char>, Seq<char>) {
    if windows {
        seq![("cl"@, "/?"@), ("clang"@, "--version"@), ("gcc"@, "--version"@)][j]
    } else {
        seq![("cc"@, "--version"@), ("clang"@, "--version"@), ("gcc"@, "--version"@)][j]
    }
}

/// Where the toolchain check stands: probing the `i`-th required tool, reading the
/// Windows long-path setting, looking for the `j`-th compiler, or done.
#[derive(Clone, Copy, Debug, PartialEq, Eq, Structural)]
pub enum ToolchainScan {
    Tool(usize),
    LongPaths,
    Compiler(usize),
    Finished,
}

/// What the caller reports back for the toolchain check's last request.
#[derive(Clone, Debug, PartialEq)]
pub enum ToolchainEvent {
    /// The first non-blank output line of a probed command, or `None` when the command
    /// could not be found or did not answer in time.
    Version(Option<String>),
    /// Whether the registry query succeeded, and its output.
    LongPaths { succeeded: bool, output: String },
}

/// The mathematical form of a [`ToolchainEvent`].
pub enum ToolchainEventView {
    Version(Option<Seq<char>>),
    LongPaths(bool, Seq<char>),
}

impl View for ToolchainEvent {
    type V = ToolchainEventView;

    open spec fn view(&self) -> ToolchainEventView {
        match self {
            ToolchainEvent::Version(v) => ToolchainEventView::Version(
                match v {
                    Some(t) => Some(t@),
                    None => None,
                },
            ),
            ToolchainEvent::LongPaths { succeeded, output } => ToolchainEventView::LongPaths(
                *succeeded,
                output@,
            ),
        }
    }
}

/// What the toolchain check asks the caller to do next.
#[derive(Clone, Debug, PartialEq)]
pub enum ToolchainAction {
    /// Run `tool` with the single argument `arg` and report its version line.
    ProbeVersion { tool: String, arg: String },
    /// Query the Windows long-path setting and report the outcome.
    QueryLongPaths,
    /// Nothing more: the check is over.
    Done,
}

/// The mathematical form of a [`ToolchainAction`].
pub enum ToolchainActionView {
    ProbeVersion(Seq<char>, Seq<char>),
    QueryLongPaths,
    Done,
}

impl View for ToolchainAction {
    type V = ToolchainActionView;

    open spec fn view(&self) -> ToolchainActionView {
        match self {
            ToolchainAction::ProbeVersion { tool, arg } => ToolchainActionView::ProbeVersion(
                tool@,
                arg@,
            ),
            ToolchainAction::QueryLongPaths => ToolchainActionView::QueryLongPaths,
            ToolchainAction::Done => ToolchainActionView::Done,
        }
    }
}

/// One step of the toolchain check: what to do next, and the `[ok]` line to print, if
/// any.
#[derive(Debug)]
pub struct ToolchainStep {
    pub action: ToolchainAction,
    pub line: Option<String>,
}

/// The mathematical form of a step: the check's place, the problems found, the next
/// request and the `[ok]` line.
pub struct ToolchainStepView {
    pub scan: ToolchainScan,
    pub report: Seq<Seq<char>>,
    pub action: ToolchainActionView,
    pub line: Option<Seq<char>>,
}

/// The request that is pending at a place of the check.
pub open spec fn pending_action(scan: ToolchainScan, windows: bool) -> ToolchainActionView {
    match scan {
        ToolchainScan::Tool(i) => if i < 5 {
            ToolchainActionView::ProbeVersion(required_tools_spec()[i as int], "--version"@)
        } else {
            ToolchainActionView::Done
        },
        ToolchainScan::LongPaths => ToolchainActionView::QueryLongPaths,
        ToolchainScan::Compiler(j) => if j < 3 {
            let c = compiler_candidate_spec(j as int, windows);
            ToolchainActionView::ProbeVersion(c.0, c.1)
        } else {
            ToolchainActionView::Done
        },
        ToolchainScan::Finished => ToolchainActionView::Done,
    }
}

/// The place after the `i`-th required tool: the long-path setting follows `ninja` on
/// Windows; the compilers follow the last tool.
pub open spec fn after_tool(i: usize, windows: bool) -> ToolchainScan {
    if i == 2 && windows {
        ToolchainScan::LongPaths
    } else if i + 1 < 5 {
        ToolchainScan::Tool((i + 1) as usize)
    } else {
        ToolchainScan::Compiler(0)
    }
}

/// A check's outcome: the `[ok]` line, or the problem it records.
pub open spec fn tool_outcome(tool: Seq<char>, version: Option<Seq<char>>) -> Result<Seq<char>, Seq<char>> {
    match version {
        Some(v) => Ok("[ok] "@ + tool + ": "@ + v),
        None => Err("Missing required tool '"@ + tool + "' in PATH"@),
    }
}

/// Whether the registry output shows long paths enabled.
pub open spec fn long_paths_enabled(output: Seq<char>) -> bool {
    has_substring(output, "LongPathsEnabled"@) && (has_substring(output, "0x1"@) || has_substring(
        output,
        "0x00000001"@,
    ))
}

/// The outcome of the long-path check.
pub open spec fn long_paths_outcome(succeeded: bool, output: Seq<char>) -> Result<Seq<char>, Seq<char>> {
    if !succeeded {
        Err("Failed to read Windows Long Paths setting (LongPathsEnabled) from registry"@)
    } else if long_paths_enabled(output) {
        Ok("[ok] windows long paths: enabled"@)
    } else {
        Err(
            "Windows long paths are disabled. Enable LongPathsEnabled=1 in HKLM\\SYSTEM\\CurrentControlSet\\Control\\FileSystem"@,
        )
    }
}

/// The outcome of the compiler check: the compiler found, or none.
pub open spec fn compiler_outcome(detected: Option<(Seq<char>, Seq<char>)>, windows: bool) -> Result<
    Seq<char>,
    Seq<char>,
> {
    match detected {
        Some((tool, v)) => Ok("[ok] C/C++ compiler: "@ + compiler_text(tool, v)),
        None => Err(
            "No C/C++ compiler found in PATH (expected one of: "@ + (if windows {
                "cl, clang, gcc"@
            } else {
                "cc, clang, gcc"@
            }) + ")"@,
        ),
    }
}

/// A step that records `outcome` in `report`, moves to `scan` and asks what is pending
/// there.
pub open spec fn record_step(
    report: Seq<Seq<char>>,
    outcome: Result<Seq<char>, Seq<char>>,
    scan: ToolchainScan,
    windows: bool,
) -> ToolchainStepView {
    match outcome {
        Ok(line) => ToolchainStepView {
            scan,
            report,
            action: pending_action(scan, windows),
            line: Some(line),
        },
        Err(e) => ToolchainStepView {
            scan,
            report: report.push(e),
            action: pending_action(scan, windows),
            line: None,
        },
    }
}

/// The toolchain check's step: the required tools are probed in order (the long-path
/// setting is read after `ninja` on Windows); then the compilers are tried in order until
/// one answers, and the check is over. An event that answers no pending request
/// changes nothing, and the pending request is asked again.
pub open spec fn toolchain_step_spec(
    scan: ToolchainScan,
    report: Seq<Seq<char>>,
    event: ToolchainEventView,
    windows: bool,
) -> ToolchainStepView {
    let unchanged = ToolchainStepView {
        scan,
        report,
        action: pending_action(scan, windows),
        line: None,
    };
    match (scan, event) {
        (ToolchainScan::Tool(i), ToolchainEventView::Version(v)) => if i < 5 {
            record_step(
                report,
                tool_outcome(required_tools_spec()[i as int], v),
                after_tool(i, windows),
                windows,
            )
        } else {
            unchanged
        },
        (ToolchainScan::LongPaths, ToolchainEventView::LongPaths(ok, out)) => record_step(
            report,
            long_paths_outcome(ok, out),
            ToolchainScan::Tool(3),
            windows,
        ),
        (ToolchainScan::Compiler(j), ToolchainEventView::Version(v)) => if j < 3 {
            match v {
                Some(ver) => record_step(
                    report,
                    compiler_outcome(Some((compiler_candidate_spec(j as int, windows).0, ver)), windows),
                    ToolchainScan::Finished,
                    windows,
                ),
                None => if j + 1 < 3 {
                    ToolchainStepView {
                        scan: ToolchainScan::Compiler((j + 1) as usize),
                        report,
                        action: pending_action(ToolchainScan::Compiler((j + 1) as usize), windows),
                        line: None,
                    }
                } else {
                    record_step(report, compiler_outcome(None, windows), ToolchainScan::Finished, windows)
                },
            }
        } else {
            unchanged
        },
        _ => unchanged,
    }
}

/// The view of an optional text.
pub open spec fn opt_text(o: Option<String>) -> Option<Seq<char>> {
    match o {
        Some(t) => Some(t@),
        None => None,
    }
}

fn required_tool(i: usize) -> (r: String)
    requires
        i < 5,
    ensures
        r@ == required_tools_spec()[i as int],
{
    if i == 0 {
        String::from_str("cmake")
    } else if i == 1 {
        String::from_str("cargo")
    } else if i == 2 {
        String::from_str("ninja")
    } else if i == 3 {
        String::from_str("clang")
    } else {
        String::from_str("clang++")
    }
}

fn compiler_candidate(j: usize, windows: bool) -> (r: (String, String))
    requires
        j < 3,
    ensures
        (r.0@, r.1@) == compiler_candidate_spec(j as int, windows),
{
    if j == 0 {
        if windows {
            (String::from_str("cl"), String::from_str("/?"))
        } else {
            (String::from_str("cc"), String::from_str("--version"))
        }
    } else if j == 1 {
        (String::from_str("clang"), String::from_str("--version"))
    } else {
        (String::from_str("gcc"), String::from_str("--version"))
    }
}

/// The request pending at `scan`.
fn pending(scan: ToolchainScan, windows: bool) -> (a: ToolchainAction)
    ensures
        a@ == pending_action(scan, windows),
{
    match scan {
        ToolchainScan::Tool(i) => if i < 5 {
            ToolchainAction::ProbeVersion { tool: required_tool(i), arg: String::from_str("--version") }
        } else {
            ToolchainAction::Done
        },
        ToolchainScan::LongPaths => ToolchainAction::QueryLongPaths,
        ToolchainScan::Compiler(j) => if j < 3 {
            let (tool, arg) = compiler_candidate(j, windows);
            ToolchainAction::ProbeVersion { tool, arg }
        } else {
            ToolchainAction::Done
        },
        ToolchainScan::Finished => ToolchainAction::Done,
    }
}

/// The toolchain check's first place and request: probing `cmake --version`.
pub fn toolchain_start(windows: bool) -> (r: (ToolchainScan, ToolchainAction))
    ensures
        r.0 == ToolchainScan::Tool(0),
        r.1@ == pending_action(ToolchainScan::Tool(0), windows),
        r.1@ == ToolchainActionView::ProbeVersion("cmake"@, "--version"@),
{
    (ToolchainScan::Tool(0), pending(ToolchainScan::Tool(0), windows))
}

/// Takes in the answer to the toolchain check's pending request: records what it shows
/// in `report`, moves the check on, and says what to do next and which `[ok]` line to
/// print.
pub fn toolchain_step(
    scan: &mut ToolchainScan,
    report: &mut CheckReport,
    event: ToolchainEvent,
    windows: bool,
) -> (r: ToolchainStep)
    ensures
        ({
            let st = toolchain_step_spec(*old(scan), old(report)@, event@, windows);
            &&& *final(scan) == st.scan
            &&& final(report)@ == st.report
            &&& r.action@ == st.action
            &&& opt_text(r.line) == st.line
        }),
{
    let cur = *scan;
    match (cur, event) {
        (ToolchainScan::Tool(i), ToolchainEvent::Version(v)) => {
            if i < 5 {
                let tool = required_tool(i);
                let version: Option<&str> = match &v {
                    Some(t) => Some(t.as_str()),
                    None => None,
                };
                let line = report.check_tool(tool.as_str(), version);
                let next = if i == 2 && windows {
                    ToolchainScan::LongPaths
                } else if i + 1 < 5 {
                    ToolchainScan::Tool(i + 1)
                } else {
                    ToolchainScan::Compiler(0)
                };
                *scan = next;
                return ToolchainStep { action: pending(next, windows), line };
            }
        },
        (ToolchainScan::LongPaths, ToolchainEvent::LongPaths { succeeded, output }) => {
            let line = report.check_windows_long_paths(succeeded, output.as_str());
            *scan = ToolchainScan::Tool(3);
            return ToolchainStep { action: pending(ToolchainScan::Tool(3), windows), line };
        },
        (ToolchainScan::Compiler(j), ToolchainEvent::Version(v)) => {
            if j < 3 {
                match v {
                    Some(ver) => {
                        let (tool, _arg) = compiler_candidate(j, windows);
                        let line = report.check_compiler(Some((tool.as_str(), ver.as_str())), windows);
                        *scan = ToolchainScan::Finished;
                        return ToolchainStep { action: ToolchainAction::Done, line };
                    },
                    None => {
                        if j + 1 < 3 {
                            *scan = ToolchainScan::Compiler(j + 1);
                            return ToolchainStep {
                                action: pending(ToolchainScan::Compiler(j + 1), windows),
                                line: None,
                            };
                        } else {
                            let line = report.check_compiler(None, windows);
                            *scan = ToolchainScan::Finished;
                            return ToolchainStep { action: ToolchainAction::Done, line };
                        }
                    },
                }
            }
        },
        _ => {},
    }
    ToolchainStep { action: pending(cur, windows), line: None }
}

} // verus!
