use steamcmd_engine::auth::{authenticate_next, authenticate_steam, AuthAttempt, AuthDecision};
use steamcmd_engine::credentials::{SteamCredentials, StoredCredential};
use steamcmd_engine::error::EngineError;

fn creds(code: Option<&str>) -> SteamCredentials {
    SteamCredentials {
        username: "alice".to_string(),
        password: "pw".to_string(),
        two_factor_code: code.map(|c| c.to_string()),
    }
}

fn strings(items: &[&str]) -> Vec<String> {
    items.iter().map(|s| s.to_string()).collect()
}

#[test]
fn a_sign_in_starts_with_name_and_password() {
    assert_eq!(
        authenticate_steam(&creds(None)),
        AuthDecision::Run(AuthAttempt::First, strings(&["+login", "alice", "pw", "+quit"]))
    );
    assert_eq!(
        authenticate_steam(&creds(Some("ABCDE"))),
        AuthDecision::Run(AuthAttempt::First, strings(&["+login", "alice", "pw", "+quit"]))
    );
}

#[test]
fn a_rejected_password_ends_the_first_attempt() {
    for c in [creds(None), creds(Some("ABCDE"))] {
        assert_eq!(
            authenticate_next(&c, AuthAttempt::First, "Logging in...\nFAILED (Invalid Password)\n"),
            AuthDecision::Fail(EngineError::CredentialInvalid)
        );
    }
}

#[test]
fn without_a_code_the_sign_in_asks_for_one() {
    assert_eq!(
        authenticate_next(&creds(None), AuthAttempt::First, "Steam Guard code required"),
        AuthDecision::Fail(EngineError::GuardRequired)
    );
    assert_eq!(
        authenticate_next(&creds(None), AuthAttempt::First, "Two-factor code:"),
        AuthDecision::Fail(EngineError::GuardRequired)
    );
    assert_eq!(
        authenticate_next(&creds(None), AuthAttempt::First, "Waiting for user info...OK"),
        AuthDecision::Fail(EngineError::GuardRequired)
    );
}

#[test]
fn with_a_code_the_sign_in_goes_on_to_the_second_attempt() {
    assert_eq!(
        authenticate_next(&creds(Some("ABCDE")), AuthAttempt::First, "Steam Guard code required"),
        AuthDecision::Run(
            AuthAttempt::Second,
            strings(&["+login", "alice", "pw", "ABCDE", "+quit"])
        )
    );
}

#[test]
fn a_rejected_code_ends_the_second_attempt() {
    let c = creds(Some("ABCDE"));
    assert_eq!(
        authenticate_next(&c, AuthAttempt::Second, "Invalid Steam Guard code"),
        AuthDecision::Fail(EngineError::GuardInvalid)
    );
    assert_eq!(
        authenticate_next(&c, AuthAttempt::Second, "Invalid two-factor code"),
        AuthDecision::Fail(EngineError::GuardInvalid)
    );
    assert_eq!(
        authenticate_next(
            &c,
            AuthAttempt::Second,
            "Waiting for user info...OK\nInvalid two-factor code\n"
        ),
        AuthDecision::Fail(EngineError::GuardInvalid)
    );
}

#[test]
fn the_success_marker_signs_in_and_persists_name_and_password() {
    let c = creds(Some("ABCDE"));
    assert_eq!(
        authenticate_next(&c, AuthAttempt::Second, "Logging in...\nWaiting for user info...OK\n"),
        AuthDecision::Succeed(
            "Successfully authenticated as alice".to_string(),
            StoredCredential { username: "alice".to_string(), password: "pw".to_string() }
        )
    );
}

#[test]
fn the_success_marker_beats_a_rejected_password() {
    let c = creds(Some("ABCDE"));
    assert!(matches!(
        authenticate_next(&c, AuthAttempt::Second, "Invalid Password\nWaiting for user info...OK"),
        AuthDecision::Succeed(_, _)
    ));
}

#[test]
fn a_rejected_password_in_the_second_attempt() {
    let c = creds(Some("ABCDE"));
    assert_eq!(
        authenticate_next(&c, AuthAttempt::Second, "Steam Guard code provided\nInvalid Password"),
        AuthDecision::Fail(EngineError::CredentialInvalid)
    );
}

#[test]
fn a_second_attempt_that_shows_no_code_provided_asks_for_one() {
    let c = creds(Some("ABCDE"));
    assert_eq!(
        authenticate_next(&c, AuthAttempt::Second, "Logging in...\n"),
        AuthDecision::Fail(EngineError::GuardRequired)
    );
    assert_eq!(
        authenticate_next(&c, AuthAttempt::Second, ""),
        AuthDecision::Fail(EngineError::GuardRequired)
    );
}

#[test]
fn a_second_attempt_that_shows_nothing_else_fails() {
    let c = creds(Some("ABCDE"));
    assert_eq!(
        authenticate_next(&c, AuthAttempt::Second, "Steam Guard code provided\nbye\n"),
        AuthDecision::Fail(EngineError::AuthFailed(
            "Authentication failed. Please check your credentials and try again.".to_string()
        ))
    );
}

#[test]
fn the_persisted_row_never_holds_the_code() {
    let c = creds(Some("SECRETCODE"));
    match authenticate_next(&c, AuthAttempt::Second, "Waiting for user info...OK") {
        AuthDecision::Succeed(_, row) => {
            assert_eq!(row.username, "alice");
            assert_eq!(row.password, "pw");
            assert!(!format!("{:?}", row).contains("SECRETCODE"));
        }
        other => panic!("expected success, got {:?}", other),
    }
}
