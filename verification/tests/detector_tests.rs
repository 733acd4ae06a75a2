use ascope::project::detector::{
    detect_project_commands, makefile_targets, script_commands, DetectedCommand, ProjectContents, ProjectFiles,
};

fn no_contents() -> ProjectContents {
    ProjectContents { package_json: None, makefile: None, pyproject: None }
}

fn has(cmds: &[DetectedCommand], name: &str) -> bool {
    cmds.iter().any(|c| c.name == name)
}

#[test]
fn test_detect_cargo_commands() {
    let files = ProjectFiles { cargo_toml: true, ..Default::default() };
    let cmds = detect_project_commands(&files, &no_contents());
    assert!(has(&cmds, "cargo build"));
    assert!(has(&cmds, "cargo test"));
    assert!(has(&cmds, "cargo run"));
}

#[test]
fn test_detect_npm_scripts() {
    let files = ProjectFiles { package_json: true, ..Default::default() };
    let contents = ProjectContents {
        package_json: Some(r#"{"scripts": {"start": "node index.js", "test": "jest"}}"#.to_string()),
        makefile: None,
        pyproject: None,
    };
    let cmds = detect_project_commands(&files, &contents);
    assert!(has(&cmds, "npm run start"));
    assert!(has(&cmds, "npm run test"));
}

#[test]
fn test_detect_makefile_targets() {
    let files = ProjectFiles { makefile: true, ..Default::default() };
    let contents = ProjectContents {
        package_json: None,
        makefile: Some(".PHONY: all build test\nall: build\nbuild:\n\tcargo build\n".to_string()),
        pyproject: None,
    };
    let cmds = detect_project_commands(&files, &contents);
    assert!(has(&cmds, "make build"));
    assert!(!has(&cmds, "make PHONY"));
}

#[test]
fn test_detect_pnpm_scripts() {
    let files = ProjectFiles { package_json: true, pnpm_lock: true, ..Default::default() };
    let contents = ProjectContents {
        package_json: Some(r#"{"scripts": {"build": "vite build"}}"#.to_string()),
        makefile: None,
        pyproject: None,
    };
    let cmds = detect_project_commands(&files, &contents);
    assert!(has(&cmds, "pnpm run build"));
}

#[test]
fn test_detect_go_commands() {
    let files = ProjectFiles { go_mod: true, ..Default::default() };
    let cmds = detect_project_commands(&files, &no_contents());
    assert!(has(&cmds, "go run ."));
    assert!(has(&cmds, "go build"));
    assert!(has(&cmds, "go test ./..."));
}

#[test]
fn test_detect_python_commands() {
    let files = ProjectFiles { requirements_txt: true, ..Default::default() };
    let cmds = detect_project_commands(&files, &no_contents());
    assert!(has(&cmds, "python3 main.py"));
    assert!(has(&cmds, "pip install -r requirements.txt"));
}

#[test]
fn test_detect_cmake_commands() {
    let files = ProjectFiles { cmakelists: true, ..Default::default() };
    let cmds = detect_project_commands(&files, &no_contents());
    assert!(has(&cmds, "cmake build"));
}

#[test]
fn test_detect_java_maven_commands() {
    let files = ProjectFiles { pom_xml: true, ..Default::default() };
    let cmds = detect_project_commands(&files, &no_contents());
    assert!(has(&cmds, "mvn package"));
    assert!(has(&cmds, "mvn test"));
}

#[test]
fn test_detect_java_gradle_commands() {
    let files = ProjectFiles { build_gradle: true, ..Default::default() };
    let cmds = detect_project_commands(&files, &no_contents());
    assert!(has(&cmds, "gradle build"));
    assert!(has(&cmds, "gradle test"));
}

#[test]
fn test_detect_docker_commands() {
    let files = ProjectFiles { dockerfile: true, ..Default::default() };
    let cmds = detect_project_commands(&files, &no_contents());
    assert!(has(&cmds, "docker build"));
}

#[test]
fn test_detect_docker_compose_commands() {
    let files = ProjectFiles { docker_compose_yml: true, ..Default::default() };
    let cmds = detect_project_commands(&files, &no_contents());
    assert!(has(&cmds, "docker compose up"));
    assert!(has(&cmds, "docker compose down"));
}

#[test]
fn empty_workspace_offers_nothing() {
    let cmds = detect_project_commands(&ProjectFiles::default(), &no_contents());
    assert!(cmds.is_empty());
}

#[test]
fn invalid_package_json_offers_no_scripts() {
    let files = ProjectFiles { package_json: true, ..Default::default() };
    let contents = ProjectContents { package_json: Some("not json".to_string()), makefile: None, pyproject: None };
    let cmds = detect_project_commands(&files, &contents);
    assert!(!cmds.iter().any(|c| c.name.contains("run")));
}

#[test]
fn makefile_targets_skip_special_and_variable_rules() {
    let targets = makefile_targets(".PHONY: all\n$(OBJ): main.c\nall: build\n.hidden: x\nbuild:\n\tcc main.c\n");
    let names: Vec<String> = targets.iter().map(|t| t.iter().collect()).collect();
    assert!(names.contains(&"all".to_string()));
    assert!(names.contains(&"build".to_string()));
    assert!(!names.iter().any(|n| n.contains("PHONY")));
    assert!(!names.iter().any(|n| n.contains("OBJ")));
    assert_eq!(names.len(), 2);
}

#[test]
fn script_names_become_commands_of_the_package_manager() {
    let files = ProjectFiles { package_json: true, yarn_lock: true, ..Default::default() };
    let cmds = script_commands(files, &vec!["build".to_string(), "lint".to_string()]);
    let names: Vec<&str> = cmds.iter().map(|c| c.name.as_str()).collect();
    assert_eq!(names, vec!["yarn build", "yarn lint"]);
    assert!(cmds.iter().all(|c| c.source == "package.json (yarn)"));
    let none = script_commands(ProjectFiles { package_json: true, ..Default::default() }, &vec![]);
    assert!(none.is_empty());
}
