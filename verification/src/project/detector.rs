use vstd::prelude::*;
use crate::text::{
    contains_chars, contains_seq, alphanumeric, chars_of, find_char, first_index_of, is_alphanumeric, lines, push_chars, push_str,
    same_chars, split_lines, string_of, trim, trim_chars,
};

verus! {

/// A runnable command offered for a workspace.
#[derive(Debug, Clone, PartialEq, Eq)]
pub struct DetectedCommand {
    pub name: String,
    pub cmd: String,
    pub source: String,
}

/// The texts of a command: name, command line, and where it came from.
pub open spec fn command_view(c: DetectedCommand) -> (Seq<char>, Seq<char>, Seq<char>) {
    (c.name@, c.cmd@, c.source@)
}

/// The texts of a list of commands.
pub open spec fn commands_view(v: Seq<DetectedCommand>) -> Seq<(Seq<char>, Seq<char>, Seq<char>)> {
    v.map_values(|c: DetectedCommand| command_view(c))
}

/// Which marker files a workspace directory holds.
#[derive(Debug, Clone, Copy, Default)]
pub struct ProjectFiles {
    pub cargo_toml: bool,
    pub package_json: bool,
    pub pnpm_lock: bool,
    pub bun_lockb: bool,
    pub bun_lock: bool,
    pub yarn_lock: bool,
    pub makefile: bool,
    pub go_mod: bool,
    pub requirements_txt: bool,
    pub pyproject_toml: bool,
    pub setup_py: bool,
    pub pipfile: bool,
    pub cmakelists: bool,
    pub pom_xml: bool,
    pub build_gradle: bool,
    pub build_gradle_kts: bool,
    pub gradlew: bool,
    pub dockerfile: bool,
    pub docker_compose_yml: bool,
    pub docker_compose_yaml: bool,
}

/// What the workspace's files say, as read from disk: the contents of
/// `package.json`, `Makefile` and `pyproject.toml` when they could be read.
pub struct ProjectContents {
    pub package_json: Option<String>,
    pub makefile: Option<String>,
    pub pyproject: Option<String>,
}

/// The script names of a `package.json` text: the keys of its `scripts` object,
/// `None` when the text is not JSON or has no such object.
pub uninterp spec fn package_script_names(content: Seq<char>) -> Option<Seq<Seq<char>>>;

/// Parses `content` with `serde_json::from_str` into a `serde_json::Value` and
/// lists the keys of its `scripts` object in the order the parsed object yields
/// them. The contract only names the result, which depends on `content` alone.
#[verifier::external_body]
fn package_scripts(content: &str) -> (r: Option<Vec<String>>)
    ensures
        match r {
            Some(v) => package_script_names(content@) == Some(v@.map_values(|s: String| s@)),
            None => package_script_names(content@) is None,
        },
{
    let v: serde_json::Value = serde_json::from_str(content).ok()?;
    let scripts = v.get("scripts")?.as_object()?;
    Some(scripts.keys().cloned().collect())
}

/// A name that a Makefile rule may offer as a target.
pub open spec fn valid_target(p: Seq<char>) -> bool {
    &&& p.len() > 0
    &&& p[0] != '.'
    &&& !p.contains('=')
    &&& !p.contains('$')
    &&& forall|k: int| 0 <= k < p.len() ==> alphanumeric(#[trigger] p[k]) || p[k] == '-' || p[k] == '_'
    &&& p != "PHONY"@
}

/// The target a Makefile line declares, if any.
pub open spec fn make_target(line: Seq<char>) -> Option<Seq<char>> {
    let t = trim(line);
    match first_index_of(t, ':') {
        None => None,
        Some(k) => {
            let part = trim(t.subrange(0, k));
            if valid_target(part) {
                Some(part)
            } else {
                None
            }
        },
    }
}

/// The targets declared by the lines `ls`, in order.
pub open spec fn make_targets_of(ls: Seq<Seq<char>>) -> Seq<Seq<char>>
    decreases ls.len(),
{
    if ls.len() == 0 {
        Seq::empty()
    } else {
        let rest = make_targets_of(ls.drop_last());
        match make_target(ls.last()) {
            Some(t) => rest.push(t),
            None => rest,
        }
    }
}

/// The targets a Makefile declares.
pub open spec fn make_targets(content: Seq<char>) -> Seq<Seq<char>> {
    make_targets_of(lines(content))
}

fn valid_target_exec(p: &Vec<char>) -> (r: bool)
    ensures
        r == valid_target(p@),
{
    proof {
        reveal_strlit("PHONY");
    }
    if p.len() == 0 || p[0] == '.' {
        return false;
    }
    if find_char(p, '=').is_some() || find_char(p, '$').is_some() {
        assert(p@.contains('=') || p@.contains('$'));
        return false;
    }
    let mut k: usize = 0;
    while k < p.len()
        invariant
            k <= p.len(),
            forall|j: int| 0 <= j < k ==> alphanumeric(#[trigger] p@[j]) || p@[j] == '-' || p@[j] == '_',
        decreases p.len() - k,
    {
        let c = p[k];
        if !(is_alphanumeric(c) || c == '-' || c == '_') {
            return false;
        }
        k = k + 1;
    }
    let phony = chars_of("PHONY");
    !same_chars(p, &phony)
}

fn make_target_exec(line: &Vec<char>) -> (r: Option<Vec<char>>)
    ensures
        match r {
            Some(v) => make_target(line@) == Some(v@),
            None => make_target(line@) is None,
        },
{
    let t = trim_chars(line);
    match find_char(&t, ':') {
        None => None,
        Some(k) => {
            let mut head: Vec<char> = Vec::new();
            let mut i: usize = 0;
            while i < k
                invariant
                    i <= k,
                    k < t.len(),
                    head@ == t@.subrange(0, i as int),
                decreases k - i,
            {
                head.push(t[i]);
                i = i + 1;
                assert(head@ =~= t@.subrange(0, i as int));
            }
            let part = trim_chars(&head);
            if valid_target_exec(&part) {
                Some(part)
            } else {
                None
            }
        },
    }
}

/// The targets a Makefile declares, in order.
pub fn makefile_targets(content: &str) -> (r: Vec<Vec<char>>)
    ensures
        r@.map_values(|v: Vec<char>| v@) == make_targets(content@),
{
    let cs = chars_of(content);
    let ls = split_lines(&cs);
    let ghost lv = ls@.map_values(|l: Vec<char>| l@);
    let mut out: Vec<Vec<char>> = Vec::new();
    let mut i: usize = 0;
    while i < ls.len()
        invariant
            i <= ls.len(),
            lv == ls@.map_values(|l: Vec<char>| l@),
            lv == lines(content@),
            out@.map_values(|v: Vec<char>| v@) == make_targets_of(lv.subrange(0, i as int)),
        decreases ls.len() - i,
    {
        assert(lv.subrange(0, i + 1).drop_last() =~= lv.subrange(0, i as int));
        let ghost o = out@.map_values(|v: Vec<char>| v@);
        match make_target_exec(&ls[i]) {
            Some(t) => {
                out.push(t);
                assert(out@.map_values(|v: Vec<char>| v@) =~= o.push(make_target(lv[i as int])->0));
            },
            None => {},
        }
        i = i + 1;
    }
    assert(lv.subrange(0, i as int) =~= lv);
    out
}

} // verus!
verus! {

/// A command whose name is its command line.
pub open spec fn plain(c: Seq<char>, source: Seq<char>) -> (Seq<char>, Seq<char>, Seq<char>) {
    (c, c, source)
}

/// The Cargo commands of a workspace with `Cargo.toml`.
pub open spec fn cargo_block(f: ProjectFiles) -> Seq<(Seq<char>, Seq<char>, Seq<char>)> {
    if f.cargo_toml {
        seq![
            plain("cargo run"@, "Cargo"@),
            plain("cargo build"@, "Cargo"@),
            plain("cargo test"@, "Cargo"@),
            ("cargo clippy"@, "cargo clippy --all-targets -- -D warnings"@, "Cargo"@),
        ]
    } else {
        Seq::empty()
    }
}

/// The package manager a Node workspace uses, by its lock file.
pub open spec fn package_manager(f: ProjectFiles) -> Seq<char> {
    if f.pnpm_lock {
        "pnpm"@
    } else if f.bun_lockb || f.bun_lock {
        "bun"@
    } else if f.yarn_lock {
        "yarn"@
    } else {
        "npm"@
    }
}

/// How the package manager runs the script `key`.
pub open spec fn script_command(f: ProjectFiles, key: Seq<char>) -> Seq<char> {
    if f.pnpm_lock {
        "pnpm run "@ + key
    } else if f.bun_lockb || f.bun_lock {
        "bun run "@ + key
    } else if f.yarn_lock {
        "yarn "@ + key
    } else {
        "npm run "@ + key
    }
}

/// The lock files pick the package manager that runs the `package.json`
/// scripts: `pnpm-lock.yaml` gives pnpm; else either `bun.lockb` or
/// `bun.lock` gives bun; else `yarn.lock` gives yarn; else npm. Each script
/// `k` becomes one command, named and run as the manager's run command for
/// `k`, from `package.json (<manager>)`.
pub proof fn lemma_lock_files_pick_the_package_manager(f: ProjectFiles, keys: Seq<Seq<char>>)
    ensures
        script_block(f, keys).len() == keys.len(),
        forall|i: int| #![trigger keys[i]]
            0 <= i < keys.len() ==> {
                let k = keys[i];
                let c = script_block(f, keys)[i];
                &&& f.pnpm_lock ==> c == ("pnpm run "@ + k, "pnpm run "@ + k, "package.json ("@ + "pnpm"@ + ")"@)
                &&& !f.pnpm_lock && (f.bun_lockb || f.bun_lock) ==> c == (
                    "bun run "@ + k,
                    "bun run "@ + k,
                    "package.json ("@ + "bun"@ + ")"@,
                )
                &&& !f.pnpm_lock && !f.bun_lockb && !f.bun_lock && f.yarn_lock ==> c == (
                    "yarn "@ + k,
                    "yarn "@ + k,
                    "package.json ("@ + "yarn"@ + ")"@,
                )
                &&& !f.pnpm_lock && !f.bun_lockb && !f.bun_lock && !f.yarn_lock ==> c == (
                    "npm run "@ + k,
                    "npm run "@ + k,
                    "package.json ("@ + "npm"@ + ")"@,
                )
            },
{
}

/// The commands that run the scripts `keys` with the workspace's package manager.
pub open spec fn script_block(f: ProjectFiles, keys: Seq<Seq<char>>) -> Seq<(Seq<char>, Seq<char>, Seq<char>)> {
    keys.map_values(|k: Seq<char>| plain(script_command(f, k), "package.json ("@ + package_manager(f) + ")"@))
}

/// The script commands of a workspace with `package.json`.
pub open spec fn npm_block(f: ProjectFiles, package_json: Option<Seq<char>>) -> Seq<(Seq<char>, Seq<char>, Seq<char>)> {
    if f.package_json {
        match package_json {
            Some(c) => match package_script_names(c) {
                Some(keys) => script_block(f, keys),
                None => Seq::empty(),
            },
            None => Seq::empty(),
        }
    } else {
        Seq::empty()
    }
}

/// The `make` commands of a workspace with a `Makefile`, one per target.
pub open spec fn make_block(f: ProjectFiles, makefile: Option<Seq<char>>) -> Seq<(Seq<char>, Seq<char>, Seq<char>)> {
    if f.makefile {
        match makefile {
            Some(c) => make_targets(c).map_values(|t: Seq<char>| plain("make "@ + t, "Makefile"@)),
            None => Seq::empty(),
        }
    } else {
        Seq::empty()
    }
}

/// The Go commands of a workspace with `go.mod`.
pub open spec fn go_block(f: ProjectFiles) -> Seq<(Seq<char>, Seq<char>, Seq<char>)> {
    if f.go_mod {
        seq![
            plain("go run ."@, "Go"@),
            plain("go build"@, "Go"@),
            plain("go test ./..."@, "Go"@),
            ("go vet"@, "go vet ./..."@, "Go"@),
        ]
    } else {
        Seq::empty()
    }
}

/// Whether a `pyproject.toml` text declares a Poetry project.
pub open spec fn is_poetry(pyproject: Option<Seq<char>>) -> bool {
    match pyproject {
        Some(c) => contains_seq(c, "[tool.poetry]"@),
        None => false,
    }
}

/// The Python commands of a workspace with a Python project file.
pub open spec fn python_block(f: ProjectFiles, pyproject: Option<Seq<char>>) -> Seq<(Seq<char>, Seq<char>, Seq<char>)> {
    if f.requirements_txt || f.pyproject_toml || f.setup_py || f.pipfile {
        seq![plain("python3 main.py"@, "Python"@)] + (if f.requirements_txt {
            seq![plain("pip install -r requirements.txt"@, "Python"@)]
        } else {
            Seq::empty()
        }) + (if f.pyproject_toml && is_poetry(pyproject) {
            seq![
                plain("poetry run python main.py"@, "Python (Poetry)"@),
                plain("poetry install"@, "Python (Poetry)"@),
            ]
        } else {
            Seq::empty()
        })
    } else {
        Seq::empty()
    }
}

/// The CMake, Maven and Gradle commands of a workspace.
pub open spec fn build_tools_block(f: ProjectFiles) -> Seq<(Seq<char>, Seq<char>, Seq<char>)> {
    let gradle: Seq<char> = if f.gradlew {
        "./gradlew"@
    } else {
        "gradle"@
    };
    (if f.cmakelists {
        seq![("cmake build"@, "cmake -B build && cmake --build build"@, "CMake"@)]
    } else {
        Seq::empty()
    }) + (if f.pom_xml {
        seq![("mvn package"@, "mvn clean package"@, "Maven"@), plain("mvn test"@, "Maven"@)]
    } else {
        Seq::empty()
    }) + (if f.build_gradle || f.build_gradle_kts {
        seq![plain(gradle + " build"@, "Gradle"@), plain(gradle + " test"@, "Gradle"@)]
    } else {
        Seq::empty()
    })
}

/// The Docker commands of a workspace with a `Dockerfile` or a compose file.
pub open spec fn docker_block(f: ProjectFiles) -> Seq<(Seq<char>, Seq<char>, Seq<char>)> {
    (if f.dockerfile {
        seq![("docker build"@, "docker build -t app ."@, "Docker"@)]
    } else {
        Seq::empty()
    }) + (if f.docker_compose_yml || f.docker_compose_yaml {
        seq![
            ("docker compose up"@, "docker compose up -d"@, "Docker Compose"@),
            plain("docker compose down"@, "Docker Compose"@),
        ]
    } else {
        Seq::empty()
    })
}

/// Every command offered for a workspace, in the order they are listed.
pub open spec fn project_commands(
    f: ProjectFiles,
    package_json: Option<Seq<char>>,
    makefile: Option<Seq<char>>,
    pyproject: Option<Seq<char>>,
) -> Seq<(Seq<char>, Seq<char>, Seq<char>)> {
    cargo_block(f) + npm_block(f, package_json) + make_block(f, makefile) + go_block(f)
        + python_block(f, pyproject) + build_tools_block(f) + docker_block(f)
}

fn text_cmd(name: &str, cmd: &str, source: &str) -> (c: DetectedCommand)
    ensures
        command_view(c) == (name@, cmd@, source@),
{
    DetectedCommand {
        name: String::from_str(name),
        cmd: String::from_str(cmd),
        source: String::from_str(source),
    }
}

fn push_cmd(out: &mut Vec<DetectedCommand>, name: &str, cmd: &str, source: &str)
    ensures
        commands_view(final(out)@) == commands_view(old(out)@).push((name@, cmd@, source@)),
{
    let ghost o = commands_view(out@);
    out.push(text_cmd(name, cmd, source));
    assert(commands_view(out@) =~= o.push((name@, cmd@, source@)));
}

fn push_built(out: &mut Vec<DetectedCommand>, name: &Vec<char>, source: &Vec<char>)
    ensures
        commands_view(final(out)@) == commands_view(old(out)@).push((name@, name@, source@)),
{
    let ghost o = commands_view(out@);
    out.push(DetectedCommand { name: string_of(name), cmd: string_of(name), source: string_of(source) });
    assert(commands_view(out@) =~= o.push((name@, name@, source@)));
}

/// The text of an optional string.
pub open spec fn opt_text(s: Option<String>) -> Option<Seq<char>> {
    match s {
        Some(t) => Some(t@),
        None => None,
    }
}

fn push_cargo(out: &mut Vec<DetectedCommand>, f: ProjectFiles)
    ensures
        commands_view(final(out)@) == commands_view(old(out)@) + cargo_block(f),
{
    let ghost o = commands_view(out@);
    if f.cargo_toml {
        push_cmd(out, "cargo run", "cargo run", "Cargo");
        push_cmd(out, "cargo build", "cargo build", "Cargo");
        push_cmd(out, "cargo test", "cargo test", "Cargo");
        push_cmd(out, "cargo clippy", "cargo clippy --all-targets -- -D warnings", "Cargo");
    }
    assert(commands_view(out@) =~= o + cargo_block(f));
}

/// The commands that run the `package.json` scripts `keys`, in order, with
/// the package manager that the lock files of `f` pick.
pub fn script_commands(f: ProjectFiles, keys: &Vec<String>) -> (r: Vec<DetectedCommand>)
    ensures
        commands_view(r@) == script_block(f, keys@.map_values(|s: String| s@)),
{
    let mut out: Vec<DetectedCommand> = Vec::new();
    let pm: &str = if f.pnpm_lock {
        "pnpm"
    } else if f.bun_lockb || f.bun_lock {
        "bun"
    } else if f.yarn_lock {
        "yarn"
    } else {
        "npm"
    };
    let prefix: &str = if f.pnpm_lock {
        "pnpm run "
    } else if f.bun_lockb || f.bun_lock {
        "bun run "
    } else if f.yarn_lock {
        "yarn "
    } else {
        "npm run "
    };
    assert(pm@ == package_manager(f));
    assert(forall|k: Seq<char>| #[trigger] script_command(f, k) == prefix@ + k);
    let mut source: Vec<char> = Vec::new();
    push_str(&mut source, "package.json (");
    push_str(&mut source, pm);
    push_str(&mut source, ")");
    let ghost kv = keys@.map_values(|s: String| s@);
    let mut i: usize = 0;
    assert(script_block(f, kv.subrange(0, 0)) =~= Seq::<(Seq<char>, Seq<char>, Seq<char>)>::empty());
    assert(commands_view(out@) =~= script_block(f, kv.subrange(0, 0)));
    while i < keys.len()
        invariant
            i <= keys.len(),
            kv == keys@.map_values(|s: String| s@),
            source@ == "package.json ("@ + package_manager(f) + ")"@,
            forall|k: Seq<char>| #[trigger] script_command(f, k) == prefix@ + k,
            commands_view(out@) == script_block(f, kv.subrange(0, i as int)),
        decreases keys.len() - i,
    {
        let mut name: Vec<char> = Vec::new();
        push_str(&mut name, prefix);
        let kc = chars_of(keys[i].as_str());
        push_chars(&mut name, &kc);
        assert(name@ == script_command(f, kv[i as int]));
        push_built(&mut out, &name, &source);
        assert(script_block(f, kv.subrange(0, i + 1)) =~= script_block(f, kv.subrange(0, i as int)).push(
            plain(script_command(f, kv[i as int]), "package.json ("@ + package_manager(f) + ")"@)));
        i = i + 1;
    }
    assert(kv.subrange(0, i as int) =~= kv);
    out
}

fn push_scripts(out: &mut Vec<DetectedCommand>, f: ProjectFiles, package_json: &Option<String>)
    ensures
        commands_view(final(out)@) == commands_view(old(out)@) + npm_block(f, opt_text(*package_json)),
{
    let ghost o = out@;
    if f.package_json {
        match package_json {
            Some(c) => match package_scripts(c.as_str()) {
                Some(keys) => {
                    let mut cmds = script_commands(f, &keys);
                    let ghost cv = cmds@;
                    out.append(&mut cmds);
                    assert(commands_view(out@) =~= commands_view(o) + commands_view(cv));
                    return;
                },
                None => {},
            },
            None => {},
        }
    }
    assert(commands_view(out@) =~= commands_view(o) + npm_block(f, opt_text(*package_json)));
}

fn push_make(out: &mut Vec<DetectedCommand>, f: ProjectFiles, makefile: &Option<String>)
    ensures
        commands_view(final(out)@) == commands_view(old(out)@) + make_block(f, opt_text(*makefile)),
{
    let ghost o = commands_view(out@);
    if f.makefile {
        match makefile {
            Some(c) => {
                let targets = makefile_targets(c.as_str());
                let ghost tv = targets@.map_values(|v: Vec<char>| v@);
                let mut source: Vec<char> = Vec::new();
                push_str(&mut source, "Makefile");
                let mut i: usize = 0;
                assert(commands_view(out@) =~= o + tv.subrange(0, 0).map_values(
                    |t: Seq<char>| plain("make "@ + t, "Makefile"@)));
                while i < targets.len()
                    invariant
                        i <= targets.len(),
                        tv == targets@.map_values(|v: Vec<char>| v@),
                        source@ == "Makefile"@,
                        commands_view(out@) == o + tv.subrange(0, i as int).map_values(
                            |t: Seq<char>| plain("make "@ + t, "Makefile"@),
                        ),
                    decreases targets.len() - i,
                {
                    let mut name: Vec<char> = Vec::new();
                    push_str(&mut name, "make ");
                    push_chars(&mut name, &targets[i]);
                    push_built(out, &name, &source);
                    assert(tv.subrange(0, i + 1).map_values(|t: Seq<char>| plain("make "@ + t, "Makefile"@))
                        =~= tv.subrange(0, i as int).map_values(|t: Seq<char>| plain("make "@ + t, "Makefile"@)).push(
                        plain("make "@ + tv[i as int], "Makefile"@)));
                    i = i + 1;
                }
                assert(tv.subrange(0, i as int) =~= tv);
                return;
            },
            None => {},
        }
    }
    assert(commands_view(out@) =~= o + make_block(f, opt_text(*makefile)));
}

fn push_go(out: &mut Vec<DetectedCommand>, f: ProjectFiles)
    ensures
        commands_view(final(out)@) == commands_view(old(out)@) + go_block(f),
{
    let ghost o = commands_view(out@);
    if f.go_mod {
        push_cmd(out, "go run .", "go run .", "Go");
        push_cmd(out, "go build", "go build", "Go");
        push_cmd(out, "go test ./...", "go test ./...", "Go");
        push_cmd(out, "go vet", "go vet ./...", "Go");
    }
    assert(commands_view(out@) =~= o + go_block(f));
}

fn push_python(out: &mut Vec<DetectedCommand>, f: ProjectFiles, pyproject: &Option<String>)
    ensures
        commands_view(final(out)@) == commands_view(old(out)@) + python_block(f, opt_text(*pyproject)),
{
    let ghost o = commands_view(out@);
    if f.requirements_txt || f.pyproject_toml || f.setup_py || f.pipfile {
        push_cmd(out, "python3 main.py", "python3 main.py", "Python");
        let ghost o1 = commands_view(out@);
        if f.requirements_txt {
            push_cmd(out, "pip install -r requirements.txt", "pip install -r requirements.txt", "Python");
        }
        let ghost o2 = commands_view(out@);
        let poetry = if f.pyproject_toml {
            match pyproject {
                Some(c) => {
                    let cc = chars_of(c.as_str());
                    let marker = chars_of("[tool.poetry]");
                    contains_chars(&cc, &marker)
                },
                None => false,
            }
        } else {
            false
        };
        if poetry {
            push_cmd(out, "poetry run python main.py", "poetry run python main.py", "Python (Poetry)");
            push_cmd(out, "poetry install", "poetry install", "Python (Poetry)");
        }
        assert(commands_view(out@) =~= o + python_block(f, opt_text(*pyproject)));
    } else {
        assert(commands_view(out@) =~= o + python_block(f, opt_text(*pyproject)));
    }
}

fn push_build_tools(out: &mut Vec<DetectedCommand>, f: ProjectFiles)
    ensures
        commands_view(final(out)@) == commands_view(old(out)@) + build_tools_block(f),
{
    let ghost o = commands_view(out@);
    if f.cmakelists {
        push_cmd(out, "cmake build", "cmake -B build && cmake --build build", "CMake");
    }
    if f.pom_xml {
        push_cmd(out, "mvn package", "mvn clean package", "Maven");
        push_cmd(out, "mvn test", "mvn test", "Maven");
    }
    if f.build_gradle || f.build_gradle_kts {
        let tool: &str = if f.gradlew {
            "./gradlew"
        } else {
            "gradle"
        };
        let mut b: Vec<char> = Vec::new();
        push_str(&mut b, tool);
        push_str(&mut b, " build");
        let mut t: Vec<char> = Vec::new();
        push_str(&mut t, tool);
        push_str(&mut t, " test");
        let mut source: Vec<char> = Vec::new();
        push_str(&mut source, "Gradle");
        push_built(out, &b, &source);
        push_built(out, &t, &source);
    }
    assert(commands_view(out@) =~= o + build_tools_block(f));
}

fn push_docker(out: &mut Vec<DetectedCommand>, f: ProjectFiles)
    ensures
        commands_view(final(out)@) == commands_view(old(out)@) + docker_block(f),
{
    let ghost o = commands_view(out@);
    if f.dockerfile {
        push_cmd(out, "docker build", "docker build -t app .", "Docker");
    }
    if f.docker_compose_yml || f.docker_compose_yaml {
        push_cmd(out, "docker compose up", "docker compose up -d", "Docker Compose");
        push_cmd(out, "docker compose down", "docker compose down", "Docker Compose");
    }
    assert(commands_view(out@) =~= o + docker_block(f));
}

/// Lists the commands offered for a workspace with the marker files `files`
/// and the file contents `contents`: Cargo, package.json scripts (run by the
/// package manager its lock file names), Makefile targets, Go, Python (Poetry
/// when `pyproject.toml` declares it), CMake, Maven, Gradle and Docker.
pub fn detect_project_commands(files: &ProjectFiles, contents: &ProjectContents) -> (r: Vec<DetectedCommand>)
    ensures
        commands_view(r@) == project_commands(
            *files,
            opt_text(contents.package_json),
            opt_text(contents.makefile),
            opt_text(contents.pyproject),
        ),
{
    let f = *files;
    let mut out: Vec<DetectedCommand> = Vec::new();
    push_cargo(&mut out, f);
    push_scripts(&mut out, f, &contents.package_json);
    push_make(&mut out, f, &contents.makefile);
    push_go(&mut out, f);
    push_python(&mut out, f, &contents.pyproject);
    push_build_tools(&mut out, f);
    push_docker(&mut out, f);
    assert(commands_view(out@) =~= project_commands(
        f,
        opt_text(contents.package_json),
        opt_text(contents.makefile),
        opt_text(contents.pyproject),
    ));
    out
}

} // verus!
