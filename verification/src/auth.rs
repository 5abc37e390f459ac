//! Signing in: up to two batch runs of the launcher, with a decision after
//! each.

use vstd::prelude::*;
use vstd::string::*;
use crate::credentials::{
    SteamCredentials,
    SteamCredentialsView,
    StoredCredential,
    StoredCredentialView,
};
use crate::driver::{batch_args, batch_args_spec, LauncherCommand, LauncherCommandView};
use crate::error::{EngineError, EngineErrorView};
use crate::text::{chars_contain, has_substring, join2, to_chars};

verus! {

/// The runs of the launcher that a sign-in may take.
#[derive(Clone, Copy, Debug, PartialEq, Eq, Structural)]
pub enum AuthAttempt {
    /// User name and password alone.
    First,
    /// User name, password and one-time code.
    Second,
}

/// What the caller has to do next.
#[derive(Debug, PartialEq, Eq)]
pub enum AuthDecision {
    /// Run the launcher in batch mode with this command line and report
    /// what it printed.
    Run(AuthAttempt, Vec<String>),
    /// Signed in: persist the row, then hand back the status text. A row
    /// that cannot be persisted does not undo the sign-in.
    Succeed(String, StoredCredential),
    /// Give up with this error. Nothing is persisted.
    Fail(EngineError),
}

/// The mathematical value of an [`AuthDecision`].
pub enum AuthDecisionView {
    Run(AuthAttempt, Seq<Seq<char>>),
    Succeed(Seq<char>, StoredCredentialView),
    Fail(EngineErrorView),
}

impl View for AuthDecision {
    type V = AuthDecisionView;

    open spec fn view(&self) -> AuthDecisionView {
        match *self {
            AuthDecision::Run(attempt, args) => AuthDecisionView::Run(attempt, args.deep_view()),
            AuthDecision::Succeed(text, row) => AuthDecisionView::Succeed(text@, row@),
            AuthDecision::Fail(e) => AuthDecisionView::Fail(e@),
        }
    }
}

/// The command line of the first attempt, written out.
pub open spec fn first_args(c: SteamCredentialsView) -> Seq<Seq<char>> {
    seq!["+login"@, c.username, c.password, "+quit"@]
}

/// The command line of the second attempt, written out.
pub open spec fn second_args(c: SteamCredentialsView, code: Seq<char>) -> Seq<Seq<char>> {
    seq!["+login"@, c.username, c.password, code, "+quit"@]
}

/// How a sign-in starts: with the first attempt.
pub open spec fn start_spec(c: SteamCredentialsView) -> AuthDecisionView {
    AuthDecisionView::Run(AuthAttempt::First, first_args(c))
}

/// The decision after the first attempt printed `stdout`. A rejected
/// password ends the sign-in; else it goes on with the code, and cannot go
/// on without one.
pub open spec fn after_first(c: SteamCredentialsView, stdout: Seq<char>) -> AuthDecisionView {
    if has_substring(stdout, "Invalid Password"@) {
        AuthDecisionView::Fail(EngineErrorView::CredentialInvalid)
    } else {
        match c.two_factor_code {
            None => AuthDecisionView::Fail(EngineErrorView::GuardRequired),
            Some(code) => AuthDecisionView::Run(AuthAttempt::Second, second_args(c, code)),
        }
    }
}

/// The decision after the second attempt printed `stdout`. A rejected code
/// is looked for first, then the marker of a sign-in that went through, then
/// a rejected password. Output that shows none of them is a failure: where
/// it lacks the marker that a code was provided, the launcher is taken not
/// to have seen the code, and a code is asked for again.
pub open spec fn after_second(c: SteamCredentialsView, stdout: Seq<char>) -> AuthDecisionView {
    if has_substring(stdout, "Invalid Steam Guard code"@) || has_substring(
        stdout,
        "Invalid two-factor code"@,
    ) {
        AuthDecisionView::Fail(EngineErrorView::GuardInvalid)
    } else if has_substring(stdout, "Waiting for user info...OK"@) {
        AuthDecisionView::Succeed("Successfully authenticated as "@ + c.username, c.persisted())
    } else if has_substring(stdout, "Invalid Password"@) {
        AuthDecisionView::Fail(EngineErrorView::CredentialInvalid)
    } else if !has_substring(stdout, "Steam Guard code provided"@) {
        AuthDecisionView::Fail(EngineErrorView::GuardRequired)
    } else {
        AuthDecisionView::Fail(
            EngineErrorView::AuthFailed(
                "Authentication failed. Please check your credentials and try again."@,
            ),
        )
    }
}

/// The decision after `attempt` printed `stdout`.
pub open spec fn next_spec(c: SteamCredentialsView, attempt: AuthAttempt, stdout: Seq<char>)
    -> AuthDecisionView {
    match attempt {
        AuthAttempt::First => after_first(c, stdout),
        AuthAttempt::Second => after_second(c, stdout),
    }
}

/// How a whole sign-in ends, where the first attempt prints `first` and the
/// second, if it comes to one, prints `second`.
pub open spec fn sign_in(c: SteamCredentialsView, first: Seq<char>, second: Seq<char>)
    -> AuthDecisionView {
    match after_first(c, first) {
        AuthDecisionView::Run(attempt, _) => next_spec(c, attempt, second),
        end => end,
    }
}

fn login_args(credentials: &SteamCredentials, code: Option<&String>) -> (args: Vec<String>)
    ensures
        args.deep_view() == match code {
            None => first_args(credentials@),
            Some(code) => second_args(credentials@, code@),
        },
{
    let mut commands: Vec<LauncherCommand> = Vec::new();
    match code {
        None => {
            commands.push(
                LauncherCommand::LoginWithPassword(
                    credentials.username.clone(),
                    credentials.password.clone(),
                ),
            );
        },
        Some(code) => {
            commands.push(
                LauncherCommand::LoginWithCode(
                    credentials.username.clone(),
                    credentials.password.clone(),
                    code.clone(),
                ),
            );
        },
    }
    commands.push(LauncherCommand::Quit);
    let args = batch_args(&commands);
    proof {
        let c = commands.deep_view();
        let c1 = c.drop_last();
        assert(c1.drop_last() =~= Seq::<LauncherCommandView>::empty());
        assert(batch_args_spec(c1.drop_last()) =~= Seq::<Seq<char>>::empty());
        reveal_strlit("+");
        reveal_strlit("login");
        reveal_strlit("+login");
        reveal_strlit("quit");
        reveal_strlit("+quit");
        assert("+"@ + "login"@ =~= "+login"@);
        assert("+"@ + "quit"@ =~= "+quit"@);
        match code {
            None => {
                assert(batch_args_spec(c1) =~= seq![
                    "+login"@,
                    credentials@.username,
                    credentials@.password,
                ]);
                assert(batch_args_spec(c) =~= first_args(credentials@));
            },
            Some(code) => {
                assert(batch_args_spec(c1) =~= seq![
                    "+login"@,
                    credentials@.username,
                    credentials@.password,
                    code@,
                ]);
                assert(batch_args_spec(c) =~= second_args(credentials@, code@));
            },
        }
    }
    args
}

/// Starts a sign-in with `credentials`.
pub fn authenticate_steam(credentials: &SteamCredentials) -> (d: AuthDecision)
    ensures
        d@ == start_spec(credentials@),
{
    AuthDecision::Run(AuthAttempt::First, login_args(credentials, None))
}

/// Continues a sign-in after `attempt` printed `stdout`.
pub fn authenticate_next(credentials: &SteamCredentials, attempt: AuthAttempt, stdout: &str) -> (d:
    AuthDecision)
    ensures
        d@ == next_spec(credentials@, attempt, stdout@),
{
    let out = to_chars(stdout);
    match attempt {
        AuthAttempt::First => {
            if chars_contain(&out, "Invalid Password") {
                AuthDecision::Fail(EngineError::CredentialInvalid)
            } else {
                match &credentials.two_factor_code {
                    None => AuthDecision::Fail(EngineError::GuardRequired),
                    Some(code) => AuthDecision::Run(
                        AuthAttempt::Second,
                        login_args(credentials, Some(code)),
                    ),
                }
            }
        },
        AuthAttempt::Second => {
            if chars_contain(&out, "Invalid Steam Guard code") || chars_contain(&out, "Invalid two-factor code") {
                AuthDecision::Fail(EngineError::GuardInvalid)
            } else if chars_contain(&out, "Waiting for user info...OK") {
                AuthDecision::Succeed(
                    join2("Successfully authenticated as ", credentials.username.as_str()),
                    credentials.to_stored(),
                )
            } else if chars_contain(&out, "Invalid Password") {
                AuthDecision::Fail(EngineError::CredentialInvalid)
            } else if !chars_contain(&out, "Steam Guard code provided") {
                AuthDecision::Fail(EngineError::GuardRequired)
            } else {
                AuthDecision::Fail(
                    EngineError::AuthFailed(
                        String::from_str(
                            "Authentication failed. Please check your credentials and try again.",
                        ),
                    ),
                )
            }
        },
    }
}

/// Whenever a sign-in persists a row, the row holds the user name and the
/// password that were handed in, and nothing of the one-time code: with
/// another code, or none, the same outputs would persist the same row.
pub proof fn lemma_persisted_row(c: SteamCredentialsView, attempt: AuthAttempt, stdout: Seq<char>)
    requires
        next_spec(c, attempt, stdout) is Succeed,
    ensures
        next_spec(c, attempt, stdout)->Succeed_1 == (StoredCredentialView {
            username: c.username,
            password: c.password,
        }),
        attempt == AuthAttempt::Second,
{
}

/// Without a one-time code a sign-in never succeeds and never reaches the
/// second attempt; so nothing is persisted.
pub proof fn lemma_no_code_no_sign_in(c: SteamCredentialsView, first: Seq<char>, second: Seq<char>)
    requires
        c.two_factor_code is None,
    ensures
        sign_in(c, first, second) is Fail,
        sign_in(c, first, second) == after_first(c, first),
        !has_substring(first, "Invalid Password"@) ==> sign_in(c, first, second)
            == AuthDecisionView::Fail(EngineErrorView::GuardRequired),
{
}

/// A rejected password in the first attempt ends the sign-in; the second
/// attempt's output plays no part.
pub proof fn lemma_rejected_password_is_final(
    c: SteamCredentialsView,
    first: Seq<char>,
    second: Seq<char>,
)
    requires
        has_substring(first, "Invalid Password"@),
    ensures
        sign_in(c, first, second) == AuthDecisionView::Fail(EngineErrorView::CredentialInvalid),
{
}

/// The marker of a sign-in that went through is enough for success, unless
/// the code was rejected: the marker that a code was provided is not asked
/// for.
pub proof fn lemma_success_marker_suffices(c: SteamCredentialsView, stdout: Seq<char>)
    requires
        has_substring(stdout, "Waiting for user info...OK"@),
        !has_substring(stdout, "Invalid Steam Guard code"@),
        !has_substring(stdout, "Invalid two-factor code"@),
    ensures
        after_second(c, stdout) == AuthDecisionView::Succeed(
            "Successfully authenticated as "@ + c.username,
            c.persisted(),
        ),
{
}

} // verus!
