use seth::command::{dispatch, enters_event_loop, help_text, seth_version, version_str, Command};
use seth::config::{resolve, ConfigError, ConfigSource};
use seth::session::{DocumentSession, SessionState};

fn args(parts: &[&str]) -> Vec<String> {
    parts.iter().map(|p| p.to_string()).collect()
}

#[test]
fn dispatch_help() {
    let c = dispatch(&args(&["seth", "--help"]));
    assert!(matches!(c, Command::Help));
    assert!(!enters_event_loop(&c));
}

#[test]
fn dispatch_version() {
    let c = dispatch(&args(&["seth", "--version"]));
    assert!(matches!(c, Command::Version));
    assert!(!enters_event_loop(&c));
}

#[test]
fn dispatch_show_config() {
    let c = dispatch(&args(&["seth", "config"]));
    assert!(matches!(c, Command::ShowConfig));
    assert!(!enters_event_loop(&c));
}

#[test]
fn dispatch_new_with_identifier_and_content() {
    let c = dispatch(&args(&["seth", "new", "report.txt", "hello"]));
    match c {
        Command::New { ref identifier, ref initial_content } => {
            assert_eq!(identifier, "report.txt");
            assert_eq!(initial_content, "hello");
        },
        _ => panic!("expected a new-file command"),
    }
    assert!(enters_event_loop(&c));
}

#[test]
fn dispatch_new_defaults() {
    let c = dispatch(&args(&["seth", "new"]));
    match c {
        Command::New { ref identifier, ref initial_content } => {
            assert_eq!(identifier, "text.txt");
            assert_eq!(initial_content, "");
        },
        _ => panic!("expected a new-file command"),
    }
}

#[test]
fn dispatch_edit() {
    let c = dispatch(&args(&["seth", "edit", "missing.txt"]));
    match c {
        Command::Edit { ref identifier } => assert_eq!(identifier, "missing.txt"),
        _ => panic!("expected an edit command"),
    }
    assert!(enters_event_loop(&c));
}

#[test]
fn dispatch_edit_without_identifier() {
    let c = dispatch(&args(&["seth", "edit"]));
    assert!(matches!(c, Command::MissingEditPath));
    assert!(!enters_event_loop(&c));
}

#[test]
fn dispatch_edit_config_alias() {
    let c = dispatch(&args(&["seth", "edit", "config"]));
    assert!(matches!(c, Command::EditConfig));
    assert!(enters_event_loop(&c));
}

#[test]
fn dispatch_unknown_action() {
    let c = dispatch(&args(&["seth", "frobnicate"]));
    match c {
        Command::Unknown { ref action } => assert_eq!(action, "frobnicate"),
        _ => panic!("expected an unknown-action command"),
    }
    assert!(!enters_event_loop(&c));
}

#[test]
fn dispatch_without_any_action() {
    let c = dispatch(&args(&["seth"]));
    match c {
        Command::Unknown { ref action } => assert_eq!(action, ""),
        _ => panic!("expected an unknown-action command"),
    }
}

#[test]
fn version_banner() {
    assert_eq!(seth_version(version_str()), "Seth v0.0.1");
}

#[test]
fn help_lists_every_action() {
    let h = help_text();
    assert!(h.starts_with("Usage:"));
    for verb in ["--help", "--version", "new", "edit", "config"] {
        assert!(h.contains(verb));
    }
}

#[test]
fn edit_missing_file_scenario() {
    // `edit missing.txt` where resolution fails: the command is decoded,
    // but the failed read means `open` is never called, so no session
    // becomes active and the event loop does not start.
    let c = dispatch(&args(&["seth", "edit", "missing.txt"]));
    assert!(matches!(c, Command::Edit { .. }));
    let s = DocumentSession::new();
    assert_eq!(s.state, SessionState::Unopened);
    assert!(!s.should_enter_event_loop());
}

#[test]
fn new_file_scenario() {
    // `new report.txt "hello"`: the session ends up with content `hello`
    // and numeration `1\n`; the write itself happens at the I/O boundary.
    let c = dispatch(&args(&["seth", "new", "report.txt", "hello"]));
    match c {
        Command::New { ref identifier, ref initial_content } => {
            let mut s = DocumentSession::new();
            s.create(&format!("/tmp/{}", identifier), initial_content);
            assert_eq!(s.content, "hello");
            assert_eq!(s.line_numeration, "1\n");
            assert_eq!(s.file_name, "report.txt");
        },
        _ => panic!("expected a new-file command"),
    }
}

#[test]
fn missing_config_file_scenario() {
    // A config file that cannot be opened aborts startup: resolution
    // yields an error before any session or window state exists.
    let r = resolve(ConfigSource::Unreadable);
    assert_eq!(r.unwrap_err(), ConfigError::Unreadable);
}
