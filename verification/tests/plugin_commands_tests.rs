use ascope::app::AppState;
use ascope::config::Config;
use ascope::plugin::api::{notice_text, PluginEffect};
use ascope::plugin::commands::PluginCommand;

#[test]
fn test_command_payload_equality() {
    let cmd1 = PluginCommand::ExecShell {
        cmd: "ls".to_string(),
    };
    let cmd2 = PluginCommand::ExecShell {
        cmd: "ls".to_string(),
    };
    let cmd3 = PluginCommand::FocusPath {
        path: "/tmp".to_string(),
    };

    assert_eq!(cmd1, cmd2);
    assert_ne!(cmd1, cmd3);
}

#[test]
fn test_command_execution() {
    let mut state = AppState::new("/home/user".to_string(), vec![], None, Config::new(), vec![]);

    let cmd = PluginCommand::FocusPath {
        path: "/tmp".to_string(),
    };
    match state.execute_plugin_command(&cmd) {
        PluginEffect::Jump(path) => {
            state.jump_to_path(path, vec![], None);
        }
        other => panic!("unexpected effect {:?}", other),
    }

    assert_eq!(state.current_path, "/tmp");
}

#[test]
fn plugin_shell_command_is_spawned() {
    let state = AppState::new("/w".to_string(), vec![], None, Config::new(), vec![]);
    let cmd = PluginCommand::ExecShell { cmd: "make".to_string() };
    assert_eq!(state.execute_plugin_command(&cmd), PluginEffect::Spawn("make".to_string()));
    assert_eq!(state.execute_plugin_command(&PluginCommand::NoCommand), PluginEffect::Idle);
}

#[test]
fn plugin_notice_names_its_level() {
    assert_eq!(notice_text("hello", Some("info")), "[INFO] hello");
    assert_eq!(notice_text("hello", None), "hello");
}

#[test]
fn plugin_paths_resolve_against_the_current_directory() {
    let state = AppState::new("/home/user".to_string(), vec![], None, Config::new(), vec![]);
    assert_eq!(state.plugin_target_path("docs"), "/home/user/docs");
    assert_eq!(state.plugin_target_path("/etc"), "/etc");
}

#[test]
fn plugin_tab_list_numbers_tabs_from_one() {
    let mut state = AppState::new("/home/user".to_string(), vec![], None, Config::new(), vec![]);
    state.open_tab("/srv/data".to_string(), vec![], None);
    let tabs = state.tab_list();
    assert_eq!(tabs.len(), 2);
    assert_eq!(tabs[0], (1, "/home/user".to_string(), "user".to_string()));
    assert_eq!(tabs[1], (2, "/srv/data".to_string(), "data".to_string()));
    state.plugin_close_tab(Some(1));
    assert_eq!(state.tabs.len(), 1);
    assert_eq!(state.tabs[0].current_path, "/srv/data");
}
