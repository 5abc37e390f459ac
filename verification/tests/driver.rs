use steamcmd_engine::driver::{batch_args, line_to_stdin, LauncherCommand};

fn strings(items: &[&str]) -> Vec<String> {
    items.iter().map(|s| s.to_string()).collect()
}

#[test]
fn verbs_and_arguments() {
    let login = LauncherCommand::Login("alice".to_string());
    assert_eq!(login.verb(), "login");
    assert_eq!(login.arguments(), strings(&["alice"]));
    let full = LauncherCommand::LoginWithCode("alice".to_string(), "pw".to_string(), "ABCDE".to_string());
    assert_eq!(full.verb(), "login");
    assert_eq!(full.arguments(), strings(&["alice", "pw", "ABCDE"]));
    let update = LauncherCommand::AppUpdate(730);
    assert_eq!(update.verb(), "app_update");
    assert_eq!(update.arguments(), strings(&["730", "validate"]));
    assert_eq!(LauncherCommand::Quit.verb(), "quit");
    assert_eq!(LauncherCommand::Quit.arguments(), Vec::<String>::new());
}

#[test]
fn batch_mode_puts_a_plus_before_each_verb() {
    let commands = vec![
        LauncherCommand::LoginWithPassword("alice".to_string(), "pw".to_string()),
        LauncherCommand::AppUpdate(440),
        LauncherCommand::Quit,
    ];
    assert_eq!(
        batch_args(&commands),
        strings(&["+login", "alice", "pw", "+app_update", "440", "validate", "+quit"])
    );
}

#[test]
fn batch_mode_of_no_command_is_an_empty_command_line() {
    assert_eq!(batch_args(&Vec::new()), Vec::<String>::new());
}

#[test]
fn interactive_mode_writes_one_line_per_command() {
    assert_eq!(LauncherCommand::Login("alice".to_string()).stdin_text(), "login alice\n");
    assert_eq!(
        LauncherCommand::LoginWithPassword("alice".to_string(), "pw".to_string()).stdin_text(),
        "login alice pw\n"
    );
    assert_eq!(LauncherCommand::AppUpdate(730).stdin_text(), "app_update 730 validate\n");
    assert_eq!(LauncherCommand::Quit.stdin_text(), "quit\n");
}

#[test]
fn a_line_for_standard_input_ends_in_a_line_feed() {
    assert_eq!(line_to_stdin("12345"), "12345\n");
    assert_eq!(line_to_stdin(""), "\n");
}

#[test]
fn command_copies_are_equal() {
    let c = LauncherCommand::LoginWithCode("a".to_string(), "b".to_string(), "c".to_string());
    assert_eq!(c.clone(), c);
    assert_eq!(LauncherCommand::AppUpdate(7).clone(), LauncherCommand::AppUpdate(7));
}
