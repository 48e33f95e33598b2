use host_agent::config::Config;
use host_agent::json::Json;
use host_agent::script::{ExecutionState, ProcessStatus, Script, ScriptExecution, ScriptsManager};
use host_agent::server_api::Command;

fn s(x: &str) -> String {
    x.to_string()
}

#[test]
fn script_name_is_last_component() {
    assert_eq!(Script::new(s("/var/scripts/a.lua")).name(), Some(s("a.lua")));
    assert_eq!(Script::new(s("/var/scripts/b/")).name(), Some(s("b")));
    assert_eq!(Script::new(s("/var/..")).name(), None);
    assert_eq!(Script::new(s("/")).name(), None);
}

#[test]
fn listed_scripts_are_found_by_name() {
    let mut m = ScriptsManager::load(s("/var/scripts"), vec![s("/var/scripts/a.bat"), s("/var/scripts/b.bat")]);
    assert_eq!(m.get_script(s("b.bat")).unwrap().path(), "/var/scripts/b.bat");
    assert!(m.get_script(s("c.bat")).is_none());
    let c = m.new_script(s("c.bat"));
    assert_eq!(c.path(), "/var/scripts/c.bat");
    m.add_script(c);
    assert_eq!(m.get_script(s("c.bat")).unwrap().path(), "/var/scripts/c.bat");
    assert_eq!(m.scripts.len(), 3);
}

#[test]
fn first_of_two_equal_names_is_found() {
    let m = ScriptsManager::load(s("/x"), vec![s("/x/a"), s("/y/a")]);
    assert_eq!(m.get_script(s("a")).unwrap().path(), "/x/a");
}

#[test]
fn run_observed_until_exit() {
    let mut e = ScriptExecution::new();
    assert_eq!(e.state(), ExecutionState::Running);
    assert!(e.is_alive(ProcessStatus::Running));
    assert!(!e.is_alive(ProcessStatus::Exited(true)));
    assert_eq!(e.state(), ExecutionState::FinishedSuccess);
    assert!(!e.is_alive(ProcessStatus::Running));
    assert_eq!(e.state(), ExecutionState::FinishedSuccess);
}

#[test]
fn unobservable_run_ends_in_error() {
    let mut e = ScriptExecution::new();
    assert!(!e.is_alive(ProcessStatus::Unobservable));
    assert_eq!(e.state(), ExecutionState::FinishedError);
    e.finish(true);
    assert_eq!(e.state(), ExecutionState::FinishedError);
}

#[test]
fn independent_runs_end_independently() {
    let mut a = ScriptExecution::new();
    let mut b = ScriptExecution::new();
    a.finish(false);
    assert_eq!(a.state(), ExecutionState::FinishedError);
    assert_eq!(b.state(), ExecutionState::Running);
    b.finish(true);
    assert_eq!(b.state(), ExecutionState::FinishedSuccess);
    assert_eq!(a.state(), ExecutionState::FinishedError);
}

#[test]
fn socket_url_from_address() {
    let c = Config { address: s("10.0.0.1:8080"), poll_interval_ms: 500, external_scripts: false };
    assert_eq!(c.socket_url(), "ws://10.0.0.1:8080/client/socket");
}

#[test]
fn connection_close_command() {
    let c = Command::connection_close();
    assert_eq!(c.command, "connection-close");
    assert!(matches!(c.data, Json::Null));
}
