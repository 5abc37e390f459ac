use steamcmd_engine::credentials::SteamCredentials;
use steamcmd_engine::error::EngineError;
use steamcmd_engine::events::UiEvent;
use steamcmd_engine::controller::{Command, Controller};
use steamcmd_engine::session::{
    submit_2fa_code, update_game_authenticated, Session, SessionAction, SessionState,
};

fn session(app_id: u32) -> Session {
    let creds = SteamCredentials {
        username: "alice".to_string(),
        password: "pw".to_string(),
        two_factor_code: None,
    };
    update_game_authenticated(1, app_id, &creds)
}

fn write(text: &str) -> SessionAction {
    SessionAction::Write(text.to_string())
}

fn update_writes(app_id: u32) -> Vec<SessionAction> {
    vec![write(&format!("app_update {} validate\n", app_id)), write("quit\n")]
}

#[test]
fn a_new_session_awaits_the_login() {
    let s = session(730);
    assert_eq!(s.id(), 1);
    assert_eq!(s.app_id(), 730);
    assert_eq!(*s.state(), SessionState::AwaitingLogin);
    assert!(!s.is_settled());
}

#[test]
fn starting_sends_the_login_under_the_user_name_alone() {
    let mut s = session(730);
    assert_eq!(s.start(), vec![write("login alice\n")]);
    assert_eq!(*s.state(), SessionState::LoginSent);
}

#[test]
fn starting_twice_sends_nothing_more() {
    let mut s = session(730);
    s.start();
    assert_eq!(s.start(), Vec::<SessionAction>::new());
    assert_eq!(*s.state(), SessionState::LoginSent);
}

#[test]
fn a_prompt_after_the_login_waits_for_the_code() {
    let mut s = session(730);
    s.start();
    assert_eq!(
        s.on_line("Two factor code:"),
        vec![SessionAction::Publish(UiEvent::TwoFactorRequired), SessionAction::AwaitCode]
    );
    assert_eq!(*s.state(), SessionState::AwaitingTwoFactor);
}

#[test]
fn the_code_is_written_with_a_line_feed() {
    let mut s = session(730);
    s.start();
    s.on_line("Two factor code:");
    assert_eq!(submit_2fa_code(&mut s, "12345"), vec![write("12345\n")]);
    assert_eq!(*s.state(), SessionState::TwoFactorSent);
}

#[test]
fn a_code_that_nobody_waits_for_is_dropped() {
    let mut s = session(730);
    assert_eq!(submit_2fa_code(&mut s, "12345"), Vec::<SessionAction>::new());
    assert_eq!(*s.state(), SessionState::AwaitingLogin);
    s.start();
    assert_eq!(submit_2fa_code(&mut s, "12345"), Vec::<SessionAction>::new());
    assert_eq!(*s.state(), SessionState::LoginSent);
    s.on_line("Logged in OK");
    assert_eq!(submit_2fa_code(&mut s, "12345"), Vec::<SessionAction>::new());
    assert_eq!(*s.state(), SessionState::Updating);
}

#[test]
fn any_other_line_after_the_login_sets_the_update_going() {
    let mut s = session(730);
    s.start();
    assert_eq!(s.on_line("Logging in user 'alice' to Steam Public...OK"), update_writes(730));
    assert_eq!(*s.state(), SessionState::Updating);
}

#[test]
fn the_first_line_after_the_code_sets_the_update_going() {
    let mut s = session(730);
    s.start();
    s.on_line("Two factor code:");
    submit_2fa_code(&mut s, "12345");
    assert_eq!(s.on_line("Waiting for user info...OK"), update_writes(730));
    assert_eq!(*s.state(), SessionState::Updating);
}

#[test]
fn a_prompt_after_the_code_does_not_wait_again() {
    let mut s = session(730);
    s.start();
    s.on_line("Two factor code:");
    submit_2fa_code(&mut s, "12345");
    let mut expected = vec![SessionAction::Publish(UiEvent::TwoFactorRequired)];
    expected.extend(update_writes(730));
    assert_eq!(s.on_line("Two factor code:"), expected);
    assert_eq!(*s.state(), SessionState::Updating);
}

#[test]
fn a_rejected_password_after_the_login_fails_the_session() {
    let mut s = session(730);
    s.start();
    assert_eq!(s.on_line("FAILED (Invalid Password)"), update_writes(730));
    assert_eq!(*s.state(), SessionState::Failed(EngineError::CredentialInvalid));
    assert!(s.is_settled());
    assert_eq!(s.finish(false), Err(EngineError::CredentialInvalid));
}

#[test]
fn a_rejected_code_fails_the_session() {
    let mut s = session(730);
    s.start();
    s.on_line("Two factor code:");
    submit_2fa_code(&mut s, "00000");
    s.on_line("Invalid two-factor code");
    assert_eq!(*s.state(), SessionState::Failed(EngineError::GuardInvalid));
    assert_eq!(s.finish(false), Err(EngineError::GuardInvalid));
}

#[test]
fn progress_is_published_and_changes_nothing() {
    let mut s = session(730);
    s.start();
    s.on_line("ok");
    let line = " Update state (0x61) downloading, progress: 50.00";
    assert_eq!(s.on_line(line), vec![SessionAction::Publish(UiEvent::Progress(line.to_string()))]);
    assert_eq!(*s.state(), SessionState::Updating);
}

#[test]
fn success_settles_the_session_and_is_published() {
    let mut s = session(730);
    s.start();
    s.on_line("ok");
    assert_eq!(
        s.on_line("Success! App '730' fully installed."),
        vec![SessionAction::Publish(UiEvent::UpdateSuccess("730".to_string()))]
    );
    assert_eq!(*s.state(), SessionState::Succeeded);
    assert_eq!(s.finish(true), Ok("Successfully updated app 730".to_string()));
}

#[test]
fn failure_settles_the_session_and_is_published() {
    let mut s = session(730);
    s.start();
    s.on_line("ok");
    assert_eq!(
        s.on_line("ERROR! Download failed"),
        vec![SessionAction::Publish(UiEvent::UpdateError("ERROR! Download failed".to_string()))]
    );
    assert_eq!(
        *s.state(),
        SessionState::Failed(EngineError::UpdateFailed("ERROR! Download failed".to_string()))
    );
    assert_eq!(
        s.finish(false),
        Err(EngineError::UpdateFailed("ERROR! Download failed".to_string()))
    );
}

#[test]
fn of_success_and_failure_the_first_stands() {
    let mut s = session(730);
    s.start();
    s.on_line("ok");
    s.on_line("Success!");
    assert_eq!(
        s.on_line("ERROR! too late"),
        vec![SessionAction::Publish(UiEvent::UpdateError("ERROR! too late".to_string()))]
    );
    assert_eq!(*s.state(), SessionState::Succeeded);
    assert_eq!(s.finish(false), Ok("Successfully updated app 730".to_string()));

    let mut s = session(730);
    s.start();
    s.on_line("ok");
    s.on_line("ERROR! early");
    s.on_line("Success!");
    assert_eq!(
        *s.state(),
        SessionState::Failed(EngineError::UpdateFailed("ERROR! early".to_string()))
    );
}

#[test]
fn a_settled_session_takes_no_command_any_more() {
    let mut s = session(730);
    s.start();
    s.on_line("ok");
    s.on_line("Success!");
    assert_eq!(s.start(), Vec::<SessionAction>::new());
    assert_eq!(submit_2fa_code(&mut s, "1"), Vec::<SessionAction>::new());
    assert_eq!(*s.state(), SessionState::Succeeded);
}

#[test]
fn lines_before_the_start_are_published_only() {
    let mut s = session(730);
    assert_eq!(
        s.on_line("Two factor code:"),
        vec![SessionAction::Publish(UiEvent::TwoFactorRequired)]
    );
    assert_eq!(*s.state(), SessionState::AwaitingLogin);
}

#[test]
fn an_unsettled_session_goes_by_the_exit_status() {
    let mut s = session(730);
    s.start();
    s.on_line("ok");
    assert_eq!(s.finish(true), Ok("Successfully updated app 730".to_string()));
    assert_eq!(
        s.finish(false),
        Err(EngineError::UpdateFailed("Update process failed".to_string()))
    );
    assert_eq!(
        session(5).finish(false),
        Err(EngineError::UpdateFailed("Update process failed".to_string()))
    );
}

#[test]
fn lines_that_are_terminal_only_for_anonymous_updates_do_not_settle() {
    let mut s = session(730);
    s.start();
    s.on_line("ok");
    assert_eq!(s.on_line("ERROR! Invalid Platform"), Vec::<SessionAction>::new());
    assert_eq!(s.on_line("No subscription"), Vec::<SessionAction>::new());
    assert_eq!(*s.state(), SessionState::Updating);
}

#[test]
fn actions_so_far_are_a_prefix_of_actions_later() {
    let lines = ["Two factor code:", "hello", "Progress: 1", "Success!", "ERROR"];
    let mut all = Vec::new();
    let mut s = session(730);
    all.extend(s.start());
    for l in lines {
        all.extend(s.on_line(l));
        all.extend(submit_2fa_code(&mut s, "12345"));
    }
    for k in 0..=lines.len() {
        let mut part = Vec::new();
        let mut s = session(730);
        part.extend(s.start());
        for l in &lines[..k] {
            part.extend(s.on_line(l));
            part.extend(submit_2fa_code(&mut s, "12345"));
        }
        assert!(part.len() <= all.len());
        assert_eq!(part[..], all[..part.len()]);
    }
}

#[test]
fn the_wait_follows_the_published_prompt() {
    let mut s = session(730);
    s.start();
    let actions = s.on_line("Two factor code:");
    let at = actions.iter().position(|a| *a == SessionAction::AwaitCode).unwrap();
    assert!(at >= 1);
    assert_eq!(actions[at - 1], SessionAction::Publish(UiEvent::TwoFactorRequired));
}

#[test]
fn one_session_at_a_time() {
    let mut c = Controller::new();
    assert_eq!(c.live_session(), None);
    let id = c.open(Command::UpdateGame, true).unwrap();
    assert_eq!(id, 0);
    assert_eq!(c.live_session(), Some(0));
    for command in [
        Command::EnsureInstalled,
        Command::UpdateGame,
        Command::UpdateGameAuthenticated,
        Command::AuthenticateSteam,
    ] {
        assert_eq!(c.open(command, true), Err(EngineError::Busy));
        assert_eq!(c.open(command, false), Err(EngineError::Busy));
    }
    assert_eq!(c.live_session(), Some(0));
    c.close(id);
    assert_eq!(c.live_session(), None);
    assert_eq!(c.open(Command::AuthenticateSteam, true), Ok(1));
}

#[test]
fn a_missing_launcher_opens_no_session() {
    let mut c = Controller::new();
    for command in
        [Command::UpdateGame, Command::UpdateGameAuthenticated, Command::AuthenticateSteam]
    {
        assert_eq!(c.open(command, false), Err(EngineError::LauncherMissing));
        assert_eq!(c.live_session(), None);
    }
    assert_eq!(c.open(Command::EnsureInstalled, false), Ok(0));
}

#[test]
fn closing_another_session_changes_nothing() {
    let mut c = Controller::new();
    let id = c.open(Command::UpdateGame, true).unwrap();
    c.close(id + 1);
    assert_eq!(c.live_session(), Some(id));
    c.close(id);
    c.close(id);
    assert_eq!(c.live_session(), None);
}

#[test]
fn state_and_action_copies_are_equal() {
    let s = SessionState::Failed(EngineError::UpdateFailed("x".to_string()));
    assert_eq!(s.clone(), s);
    let a = SessionAction::Publish(UiEvent::Progress("p".to_string()));
    assert_eq!(a.clone(), a);
    assert_eq!(SessionAction::AwaitCode.clone(), SessionAction::AwaitCode);
    assert_eq!(write("w").clone(), write("w"));
}

/// The texts written to the launcher while `script` is played to a fresh
/// session. A script is a list of lines; the line `<start>` starts the
/// launcher and a line `<code …>` hands in the code `…`.
fn written_by(script: &[&str]) -> Vec<String> {
    let mut s = session(730);
    let mut texts = Vec::new();
    for item in script {
        let actions = if *item == "<start>" {
            s.start()
        } else if let Some(code) = item.strip_prefix("<code ") {
            submit_2fa_code(&mut s, code.trim_end_matches('>'))
        } else {
            s.on_line(item)
        };
        for a in actions {
            if let SessionAction::Write(text) = a {
                texts.push(text);
            }
        }
    }
    texts
}

#[test]
fn every_session_keeps_to_the_protocol() {
    let login = "login alice\n".to_string();
    let update = "app_update 730 validate\n".to_string();
    let quit = "quit\n".to_string();
    let scripts: Vec<Vec<&str>> = vec![
        vec![],
        vec!["Success!", "<code 1>"],
        vec!["<start>"],
        vec!["<start>", "<start>", "<code 1>"],
        vec!["<start>", "Two factor code:"],
        vec!["<start>", "Two factor code:", "noise", "<start>"],
        vec!["<start>", "Two factor code:", "<code 12345>"],
        vec!["<start>", "Two factor code:", "<code 12345>", "<code 6>", "ok", "<code 7>"],
        vec!["<start>", "hello", "Two factor code:", "<code 9>", "Success!", "ERROR"],
        vec!["<start>", "ERROR", "Success!", "<start>", "more"],
    ];
    let expected: Vec<Vec<String>> = vec![
        vec![],
        vec![],
        vec![login.clone()],
        vec![login.clone()],
        vec![login.clone()],
        vec![login.clone()],
        vec![login.clone(), "12345\n".to_string()],
        vec![login.clone(), "12345\n".to_string(), update.clone(), quit.clone()],
        vec![login.clone(), update.clone(), quit.clone()],
        vec![login.clone(), update.clone(), quit.clone()],
    ];
    for (script, want) in scripts.iter().zip(expected.iter()) {
        assert_eq!(written_by(script), *want);
    }
}
