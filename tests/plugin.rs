use app_plugin::{commands, handle, is_running, plugin_name, IS_RUNNING, PLUGIN_NAME};

#[test]
fn is_running_returns_true() {
    assert!(is_running());
}

#[test]
fn is_running_twice_in_sequence() {
    let first = is_running();
    let second = is_running();
    assert_eq!((first, second), (true, true));
}

#[test]
fn repeated_queries_all_answer_true() {
    let answers: Vec<bool> = (0..100).map(|_| is_running()).collect();
    assert_eq!(answers, vec![true; 100]);
}

#[test]
fn registers_under_app_namespace() {
    assert_eq!(plugin_name(), "app");
    assert_eq!(PLUGIN_NAME, "app");
}

#[test]
fn registers_exactly_one_command() {
    assert_eq!(commands(), vec!["is_running"]);
    assert_eq!(IS_RUNNING, "is_running");
}

#[test]
fn every_registered_command_is_handled() {
    for name in commands() {
        assert!(handle(name).is_some());
    }
}

#[test]
fn handle_is_running_returns_true() {
    assert_eq!(handle("is_running"), Some(true));
    assert_eq!(handle(IS_RUNNING), Some(true));
}

#[test]
fn handle_twice_gives_same_answer() {
    assert_eq!(handle("is_running"), handle("is_running"));
}

#[test]
fn unknown_command_is_not_handled() {
    assert_eq!(handle("restart"), None);
    assert_eq!(handle("shutdown"), None);
}

#[test]
fn empty_command_name_is_not_handled() {
    assert_eq!(handle(""), None);
}

#[test]
fn near_miss_command_names_are_not_handled() {
    assert_eq!(handle("IS_RUNNING"), None);
    assert_eq!(handle("is_running "), None);
    assert_eq!(handle("is_runnin"), None);
    assert_eq!(handle("is_running2"), None);
    assert_eq!(handle("plugin:app|is_running"), None);
}
