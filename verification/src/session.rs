//! The authenticated update as a machine: it is fed what the launcher
//! prints and what the user hands in, and answers with what has to be
//! written, published and waited for.

use vstd::prelude::*;
use vstd::string::*;
use crate::classify::{classify, classify_spec, OutputEvent, OutputEventView};
use crate::credentials::SteamCredentials;
use crate::driver::{line_to_stdin, stdin_text, LauncherCommand, LauncherCommandView};
use crate::error::{outcome_view, EngineError, EngineErrorView};
use crate::events::{delivered, line_events, ui_event, ui_event_spec, UiEvent, UiEventView};
use crate::text::{decimal, decimal_digits, join2};

verus! {

/// Where an authenticated update stands.
#[derive(Debug, PartialEq, Eq)]
pub enum SessionState {
    /// The launcher is not running yet.
    AwaitingLogin,
    /// The login command is out; the launcher's next line tells whether it
    /// asks for a two-factor code.
    LoginSent,
    /// The launcher asked for a two-factor code; the user interface owes it.
    AwaitingTwoFactor,
    /// The code is out; the launcher's next line is awaited.
    TwoFactorSent,
    /// The update command and the quit command are out.
    Updating,
    /// The launcher reported success.
    Succeeded,
    /// The launcher reported a failure.
    Failed(EngineError),
}

/// The mathematical value of a [`SessionState`].
pub enum SessionStateView {
    AwaitingLogin,
    LoginSent,
    AwaitingTwoFactor,
    TwoFactorSent,
    Updating,
    Succeeded,
    Failed(EngineErrorView),
}

impl View for SessionState {
    type V = SessionStateView;

    open spec fn view(&self) -> SessionStateView {
        match *self {
            SessionState::AwaitingLogin => SessionStateView::AwaitingLogin,
            SessionState::LoginSent => SessionStateView::LoginSent,
            SessionState::AwaitingTwoFactor => SessionStateView::AwaitingTwoFactor,
            SessionState::TwoFactorSent => SessionStateView::TwoFactorSent,
            SessionState::Updating => SessionStateView::Updating,
            SessionState::Succeeded => SessionStateView::Succeeded,
            SessionState::Failed(e) => SessionStateView::Failed(e@),
        }
    }
}

impl Clone for SessionState {
    fn clone(&self) -> (copy: Self)
        ensures
            copy == *self,
    {
        match self {
            SessionState::AwaitingLogin => SessionState::AwaitingLogin,
            SessionState::LoginSent => SessionState::LoginSent,
            SessionState::AwaitingTwoFactor => SessionState::AwaitingTwoFactor,
            SessionState::TwoFactorSent => SessionState::TwoFactorSent,
            SessionState::Updating => SessionState::Updating,
            SessionState::Succeeded => SessionState::Succeeded,
            SessionState::Failed(e) => SessionState::Failed(e.clone()),
        }
    }
}

impl SessionStateView {
    /// The session has its result; nothing that follows changes it.
    pub open spec fn is_terminal(self) -> bool {
        self is Succeeded || self is Failed
    }
}

/// What the caller has to do for the session.
#[derive(Debug, PartialEq, Eq)]
pub enum SessionAction {
    /// Write this text to the launcher's standard input, holding the
    /// sink's guard for the time of the write.
    Write(String),
    /// Publish this event to the user interface.
    Publish(UiEvent),
    /// Wait until the user interface hands in a two-factor code, then hand
    /// it to the session.
    AwaitCode,
}

/// The mathematical value of a [`SessionAction`].
pub enum SessionActionView {
    Write(Seq<char>),
    Publish(UiEventView),
    AwaitCode,
}

impl View for SessionAction {
    type V = SessionActionView;

    open spec fn view(&self) -> SessionActionView {
        match *self {
            SessionAction::Write(text) => SessionActionView::Write(text@),
            SessionAction::Publish(e) => SessionActionView::Publish(e@),
            SessionAction::AwaitCode => SessionActionView::AwaitCode,
        }
    }
}

impl Clone for SessionAction {
    fn clone(&self) -> (copy: Self)
        ensures
            copy == *self,
    {
        match self {
            SessionAction::Write(text) => SessionAction::Write(text.clone()),
            SessionAction::Publish(e) => SessionAction::Publish(e.clone()),
            SessionAction::AwaitCode => SessionAction::AwaitCode,
        }
    }
}

impl DeepView for SessionAction {
    type V = SessionActionView;

    open spec fn deep_view(&self) -> SessionActionView {
        self@
    }
}

/// One authenticated update: one live run of the launcher.
#[derive(Debug, PartialEq, Eq)]
pub struct Session {
    id: u64,
    app_id: u32,
    username: String,
    state: SessionState,
}

/// The mathematical value of a [`Session`].
pub struct SessionView {
    pub id: u64,
    pub app_id: u32,
    pub username: Seq<char>,
    pub state: SessionStateView,
}

impl View for Session {
    type V = SessionView;

    closed spec fn view(&self) -> SessionView {
        SessionView {
            id: self.id,
            app_id: self.app_id,
            username: self.username@,
            state: self.state@,
        }
    }
}

/// What happens to a session.
pub enum SessionEventView {
    /// The launcher has been started.
    Started,
    /// The launcher printed a line.
    Line(Seq<char>),
    /// The user interface handed in a two-factor code.
    CodePosted(Seq<char>),
}

impl SessionView {
    /// The same session in another state.
    pub open spec fn at(self, state: SessionStateView) -> SessionView {
        SessionView { state, ..self }
    }
}

/// The writes that set the update going: the update command, then the quit
/// command.
pub open spec fn update_writes(app_id: u32) -> Seq<SessionActionView> {
    seq![
        SessionActionView::Write(
            stdin_text(LauncherCommandView::AppUpdate(app_id).interactive_line()),
        ),
        SessionActionView::Write(stdin_text(LauncherCommandView::Quit.interactive_line())),
    ]
}

/// The event to publish for a classified line, as an action.
pub open spec fn publication(ev: OutputEventView, app_id: u32) -> Seq<SessionActionView> {
    match ui_event_spec(ev, app_id) {
        Some(e) => seq![SessionActionView::Publish(e)],
        None => Seq::empty(),
    }
}

/// The state that a classified line leaves a running update in.
pub open spec fn judged(ev: OutputEventView) -> SessionStateView {
    match ev {
        OutputEventView::Success => SessionStateView::Succeeded,
        OutputEventView::Failure(line) => SessionStateView::Failed(
            EngineErrorView::UpdateFailed(line),
        ),
        OutputEventView::CredentialInvalid => SessionStateView::Failed(
            EngineErrorView::CredentialInvalid,
        ),
        OutputEventView::GuardInvalid => SessionStateView::Failed(EngineErrorView::GuardInvalid),
        _ => SessionStateView::Updating,
    }
}

/// The session after the launcher was started, and what is to be done.
pub open spec fn start_spec(s: SessionView) -> (SessionView, Seq<SessionActionView>) {
    if s.state is AwaitingLogin {
        (
            s.at(SessionStateView::LoginSent),
            seq![
                SessionActionView::Write(
                    stdin_text(LauncherCommandView::Login(s.username).interactive_line()),
                ),
            ],
        )
    } else {
        (s, Seq::empty())
    }
}

/// The session after the launcher printed `line`, and what is to be done.
///
/// Every line is published as its classification asks. After the login
/// command, a prompt for a two-factor code makes the session wait for the
/// code; any other line sets the update going. So does the first line after
/// the code. A running update is judged by each line until one settles it.
pub open spec fn line_spec(s: SessionView, line: Seq<char>) -> (
    SessionView,
    Seq<SessionActionView>,
) {
    let ev = classify_spec(line);
    let publish = publication(ev, s.app_id);
    match s.state {
        SessionStateView::LoginSent => {
            if ev is TwoFactorRequired {
                (
                    s.at(SessionStateView::AwaitingTwoFactor),
                    publish + seq![SessionActionView::AwaitCode],
                )
            } else {
                (s.at(judged(ev)), publish + update_writes(s.app_id))
            }
        },
        SessionStateView::TwoFactorSent => (s.at(judged(ev)), publish + update_writes(s.app_id)),
        SessionStateView::Updating => (s.at(judged(ev)), publish),
        _ => (s, publish),
    }
}

/// The session after the user interface handed in `code`, and what is to be
/// done. A code that the session does not wait for is dropped.
pub open spec fn code_spec(s: SessionView, code: Seq<char>) -> (
    SessionView,
    Seq<SessionActionView>,
) {
    if s.state is AwaitingTwoFactor {
        (s.at(SessionStateView::TwoFactorSent), seq![SessionActionView::Write(stdin_text(code))])
    } else {
        (s, Seq::empty())
    }
}

/// One step of the session.
pub open spec fn step_spec(s: SessionView, event: SessionEventView) -> (
    SessionView,
    Seq<SessionActionView>,
) {
    match event {
        SessionEventView::Started => start_spec(s),
        SessionEventView::Line(line) => line_spec(s, line),
        SessionEventView::CodePosted(code) => code_spec(s, code),
    }
}

/// The session after `events`, and everything that was to be done on the
/// way, in order.
pub open spec fn run_spec(s: SessionView, events: Seq<SessionEventView>) -> (
    SessionView,
    Seq<SessionActionView>,
)
    decreases events.len(),
{
    if events.len() == 0 {
        (s, Seq::empty())
    } else {
        let before = run_spec(s, events.drop_last());
        let last = step_spec(before.0, events.last());
        (last.0, before.1 + last.1)
    }
}

/// The result of the command once the launcher has exited. A session that
/// was settled keeps its result; one that was not goes by the exit status.
pub open spec fn finish_spec(s: SessionView, exit_ok: bool) -> Result<Seq<char>, EngineErrorView> {
    match s.state {
        SessionStateView::Succeeded => Ok(
            "Successfully updated app "@ + decimal_digits(s.app_id as nat),
        ),
        SessionStateView::Failed(e) => Err(e),
        _ => if exit_ok {
            Ok("Successfully updated app "@ + decimal_digits(s.app_id as nat))
        } else {
            Err(EngineErrorView::UpdateFailed("Update process failed"@))
        },
    }
}

fn judge(ev: OutputEvent) -> (state: SessionState)
    ensures
        state@ == judged(ev@),
{
    match ev {
        OutputEvent::Success => SessionState::Succeeded,
        OutputEvent::Failure(line) => SessionState::Failed(EngineError::UpdateFailed(line)),
        OutputEvent::CredentialInvalid => SessionState::Failed(EngineError::CredentialInvalid),
        OutputEvent::GuardInvalid => SessionState::Failed(EngineError::GuardInvalid),
        _ => SessionState::Updating,
    }
}

fn push_update_writes(actions: &mut Vec<SessionAction>, app_id: u32)
    ensures
        final(actions).deep_view() == old(actions).deep_view() + update_writes(app_id),
{
    let ghost before = actions.deep_view();
    actions.push(SessionAction::Write(LauncherCommand::AppUpdate(app_id).stdin_text()));
    actions.push(SessionAction::Write(LauncherCommand::Quit.stdin_text()));
    assert(actions.deep_view() =~= before + update_writes(app_id));
}

/// Opens the session of an authenticated update of `app_id` under the
/// account of `credentials`. The launcher signs in under the user name
/// alone, with the sign-in that it has cached.
pub fn update_game_authenticated(id: u64, app_id: u32, credentials: &SteamCredentials) -> (session:
    Session)
    ensures
        session@ == (SessionView {
            id,
            app_id,
            username: credentials.username@,
            state: SessionStateView::AwaitingLogin,
        }),
{
    Session {
        id,
        app_id,
        username: credentials.username.clone(),
        state: SessionState::AwaitingLogin,
    }
}

impl Session {
    /// The session's id.
    pub fn id(&self) -> (id: u64)
        ensures
            id == self@.id,
    {
        self.id
    }

    /// The app that the session updates.
    pub fn app_id(&self) -> (app_id: u32)
        ensures
            app_id == self@.app_id,
    {
        self.app_id
    }

    /// Where the session stands.
    pub fn state(&self) -> (state: &SessionState)
        ensures
            state@ == self@.state,
    {
        &self.state
    }

    /// Whether the session has its result.
    pub fn is_settled(&self) -> (b: bool)
        ensures
            b == self@.state.is_terminal(),
    {
        match &self.state {
            SessionState::Succeeded => true,
            SessionState::Failed(_) => true,
            _ => false,
        }
    }

    /// Tells the session that the launcher has been started.
    pub fn start(&mut self) -> (actions: Vec<SessionAction>)
        ensures
            (final(self)@, actions.deep_view()) == start_spec(old(self)@),
    {
        let mut actions: Vec<SessionAction> = Vec::new();
        let waiting = match &self.state {
            SessionState::AwaitingLogin => true,
            _ => false,
        };
        if waiting {
            let login = LauncherCommand::Login(self.username.clone());
            actions.push(SessionAction::Write(login.stdin_text()));
            self.state = SessionState::LoginSent;
        }
        assert(actions.deep_view() =~= start_spec(old(self)@).1);
        actions
    }

    /// Hands the session a line that the launcher printed.
    pub fn on_line(&mut self, line: &str) -> (actions: Vec<SessionAction>)
        ensures
            (final(self)@, actions.deep_view()) == line_spec(old(self)@, line@),
    {
        let ev = classify(line);
        let mut actions: Vec<SessionAction> = Vec::new();
        match ui_event(&ev, self.app_id) {
            Some(e) => {
                actions.push(SessionAction::Publish(e));
            },
            None => {},
        }
        assert(actions.deep_view() =~= publication(ev@, self.app_id));
        let prompt = match &ev {
            OutputEvent::TwoFactorRequired => true,
            _ => false,
        };
        match &self.state {
            SessionState::LoginSent => {
                if prompt {
                    actions.push(SessionAction::AwaitCode);
                    self.state = SessionState::AwaitingTwoFactor;
                    assert(actions.deep_view() =~= line_spec(old(self)@, line@).1);
                } else {
                    push_update_writes(&mut actions, self.app_id);
                    self.state = judge(ev);
                }
            },
            SessionState::TwoFactorSent => {
                push_update_writes(&mut actions, self.app_id);
                self.state = judge(ev);
            },
            SessionState::Updating => {
                self.state = judge(ev);
            },
            _ => {},
        }
        actions
    }

    /// The result of the command once the launcher has exited; `exit_ok`
    /// says whether its exit status was zero.
    pub fn finish(&self, exit_ok: bool) -> (r: Result<String, EngineError>)
        ensures
            outcome_view(r) == finish_spec(self@, exit_ok),
    {
        match &self.state {
            SessionState::Succeeded => {
                let id = decimal(self.app_id);
                Ok(join2("Successfully updated app ", id.as_str()))
            },
            SessionState::Failed(e) => Err(e.clone()),
            _ => {
                if exit_ok {
                    let id = decimal(self.app_id);
                    Ok(join2("Successfully updated app ", id.as_str()))
                } else {
                    Err(EngineError::UpdateFailed(String::from_str("Update process failed")))
                }
            },
        }
    }
}

/// Hands the session the two-factor code that the user interface sent in.
/// A session that waits for it has the code, with a line feed, written to
/// the launcher.
pub fn submit_2fa_code(session: &mut Session, code: &str) -> (actions: Vec<SessionAction>)
    ensures
        (final(session)@, actions.deep_view()) == code_spec(old(session)@, code@),
{
    let mut actions: Vec<SessionAction> = Vec::new();
    let waiting = match &session.state {
        SessionState::AwaitingTwoFactor => true,
        _ => false,
    };
    if waiting {
        actions.push(SessionAction::Write(line_to_stdin(code)));
        session.state = SessionState::TwoFactorSent;
    }
    assert(actions.deep_view() =~= code_spec(old(session)@, code@).1);
    actions
}

/// The events that `actions` publish, in order.
pub open spec fn published(actions: Seq<SessionActionView>) -> Seq<UiEventView>
    decreases actions.len(),
{
    if actions.len() == 0 {
        Seq::empty()
    } else {
        match actions.last() {
            SessionActionView::Publish(e) => published(actions.drop_last()).push(e),
            _ => published(actions.drop_last()),
        }
    }
}

/// The lines among `events`, in order.
pub open spec fn printed(events: Seq<SessionEventView>) -> Seq<Seq<char>>
    decreases events.len(),
{
    if events.len() == 0 {
        Seq::empty()
    } else {
        match events.last() {
            SessionEventView::Line(line) => printed(events.drop_last()).push(line),
            _ => printed(events.drop_last()),
        }
    }
}

/// A settled session stays as it is: of a success and a failure, the one
/// that was seen first stands.
pub proof fn lemma_settled_stays(s: SessionView, event: SessionEventView)
    requires
        s.state.is_terminal(),
    ensures
        step_spec(s, event).0 == s,
{
}

/// No step changes which app the session updates, for whom, or its id.
pub proof fn lemma_run_keeps_identity(s: SessionView, events: Seq<SessionEventView>)
    ensures
        run_spec(s, events).0.id == s.id,
        run_spec(s, events).0.app_id == s.app_id,
        run_spec(s, events).0.username == s.username,
    decreases events.len(),
{
    if events.len() > 0 {
        lemma_run_keeps_identity(s, events.drop_last());
    }
}

/// A run can be cut anywhere: the second part goes on from where the first
/// ended, and its actions follow those of the first.
pub proof fn lemma_run_concat(s: SessionView, a: Seq<SessionEventView>, b: Seq<SessionEventView>)
    ensures
        run_spec(s, a + b).0 == run_spec(run_spec(s, a).0, b).0,
        run_spec(s, a + b).1 == run_spec(s, a).1 + run_spec(run_spec(s, a).0, b).1,
    decreases b.len(),
{
    let mid = run_spec(s, a).0;
    if b.len() == 0 {
        assert(a + b =~= a);
        assert(run_spec(s, a).1 + run_spec(mid, b).1 =~= run_spec(s, a).1);
    } else {
        assert((a + b).drop_last() =~= a + b.drop_last());
        assert((a + b).last() == b.last());
        lemma_run_concat(s, a, b.drop_last());
        let before = run_spec(mid, b.drop_last());
        let last = step_spec(before.0, b.last());
        assert(run_spec(s, a + b).1 =~= run_spec(s, a).1 + (before.1 + last.1));
    }
}

/// What a session has asked for stays asked for, in its order: the actions
/// after the first `k` events are a prefix of the actions after all of them.
pub proof fn lemma_actions_prefix_stable(s: SessionView, events: Seq<SessionEventView>, k: int)
    requires
        0 <= k <= events.len(),
    ensures
        run_spec(s, events.take(k)).1.is_prefix_of(run_spec(s, events).1),
{
    assert(events.take(k) + events.skip(k) =~= events);
    lemma_run_concat(s, events.take(k), events.skip(k));
    let head = run_spec(s, events.take(k)).1;
    let tail = run_spec(run_spec(s, events.take(k)).0, events.skip(k)).1;
    assert((head + tail).subrange(0, head.len() as int) =~= head);
}

proof fn lemma_published_concat(a: Seq<SessionActionView>, b: Seq<SessionActionView>)
    ensures
        published(a + b) == published(a) + published(b),
    decreases b.len(),
{
    if b.len() == 0 {
        assert(a + b =~= a);
        assert(published(a) + published(b) =~= published(a));
    } else {
        assert((a + b).drop_last() =~= a + b.drop_last());
        assert((a + b).last() == b.last());
        lemma_published_concat(a, b.drop_last());
        assert(published(a + b) =~= published(a) + published(b));
    }
}

proof fn lemma_step_publishes(s: SessionView, event: SessionEventView)
    ensures
        published(step_spec(s, event).1) == match event {
            SessionEventView::Line(line) => line_events(line, s.app_id),
            _ => Seq::<UiEventView>::empty(),
        },
{
    reveal_with_fuel(published, 4);
    let actions = step_spec(s, event).1;
    match event {
        SessionEventView::Line(line) => {
            let publish = publication(classify_spec(line), s.app_id);
            assert(published(publish) =~= line_events(line, s.app_id)) by {
                if publish.len() > 0 {
                    assert(publish.drop_last() =~= Seq::<SessionActionView>::empty());
                }
            }
            let extra = update_writes(s.app_id);
            assert(published(extra) =~= Seq::<UiEventView>::empty()) by {
                assert(extra.drop_last().drop_last() =~= Seq::<SessionActionView>::empty());
            }
            let wait = seq![SessionActionView::AwaitCode];
            assert(published(wait) =~= Seq::<UiEventView>::empty()) by {
                assert(wait.drop_last() =~= Seq::<SessionActionView>::empty());
            }
            lemma_published_concat(publish, extra);
            lemma_published_concat(publish, wait);
            assert(published(publish) + Seq::<UiEventView>::empty() =~= published(publish));
        },
        _ => {
            if actions.len() > 0 {
                assert(actions.drop_last() =~= Seq::<SessionActionView>::empty());
            }
        },
    }
}

/// The events that a session publishes are those of the lines that the
/// launcher printed, line by line in the order of the lines, whatever state
/// the session was in and whatever else happened in between.
pub proof fn lemma_published_in_line_order(s: SessionView, events: Seq<SessionEventView>)
    ensures
        published(run_spec(s, events).1) == delivered(printed(events), s.app_id),
    decreases events.len(),
{
    if events.len() > 0 {
        let front = events.drop_last();
        lemma_published_in_line_order(s, front);
        lemma_run_keeps_identity(s, front);
        let before = run_spec(s, front);
        let last = step_spec(before.0, events.last());
        lemma_step_publishes(before.0, events.last());
        lemma_published_concat(before.1, last.1);
        match events.last() {
            SessionEventView::Line(line) => {
                assert(printed(events).drop_last() =~= printed(front));
                assert(printed(events).last() == line);
            },
            _ => {
                assert(published(before.1) + Seq::<UiEventView>::empty() =~= published(before.1));
            },
        }
    }
}

/// The session waits for a code only after it has asked for the event of
/// the prompt to be published: the wait stands directly behind it.
pub proof fn lemma_wait_follows_prompt(s: SessionView, event: SessionEventView, i: int)
    requires
        0 <= i < step_spec(s, event).1.len(),
        step_spec(s, event).1[i] is AwaitCode,
    ensures
        i >= 1,
        step_spec(s, event).1[i - 1] == SessionActionView::Publish(UiEventView::TwoFactorRequired),
{
}

/// The texts that `actions` write to the launcher, in order.
pub open spec fn written(actions: Seq<SessionActionView>) -> Seq<Seq<char>>
    decreases actions.len(),
{
    if actions.len() == 0 {
        Seq::empty()
    } else {
        match actions.last() {
            SessionActionView::Write(text) => written(actions.drop_last()).push(text),
            _ => written(actions.drop_last()),
        }
    }
}

/// What a session that stands in `state` has written to the launcher so
/// far: first the login; then the code, if the launcher asked for one; then
/// the update command and, directly behind it, the quit command.
pub open spec fn protocol(s: SessionView, state: SessionStateView, texts: Seq<Seq<char>>) -> bool {
    let login = stdin_text(LauncherCommandView::Login(s.username).interactive_line());
    let update = stdin_text(LauncherCommandView::AppUpdate(s.app_id).interactive_line());
    let quit = stdin_text(LauncherCommandView::Quit.interactive_line());
    match state {
        SessionStateView::AwaitingLogin => texts == Seq::<Seq<char>>::empty(),
        SessionStateView::LoginSent => texts == seq![login],
        SessionStateView::AwaitingTwoFactor => texts == seq![login],
        SessionStateView::TwoFactorSent => exists|code: Seq<char>|
            texts == seq![login, #[trigger] stdin_text(code)],
        _ => {
            ||| texts == seq![login, update, quit]
            ||| exists|code: Seq<char>| texts == seq![login, #[trigger] stdin_text(code), update, quit]
        },
    }
}

proof fn lemma_written_concat(a: Seq<SessionActionView>, b: Seq<SessionActionView>)
    ensures
        written(a + b) == written(a) + written(b),
    decreases b.len(),
{
    if b.len() == 0 {
        assert(a + b =~= a);
        assert(written(a) + written(b) =~= written(a));
    } else {
        assert((a + b).drop_last() =~= a + b.drop_last());
        assert((a + b).last() == b.last());
        lemma_written_concat(a, b.drop_last());
        assert(written(a + b) =~= written(a) + written(b));
    }
}

proof fn lemma_step_writes(s: SessionView, event: SessionEventView)
    ensures
        written(step_spec(s, event).1) == match event {
            SessionEventView::Started => if s.state is AwaitingLogin {
                seq![stdin_text(LauncherCommandView::Login(s.username).interactive_line())]
            } else {
                Seq::<Seq<char>>::empty()
            },
            SessionEventView::CodePosted(code) => if s.state is AwaitingTwoFactor {
                seq![stdin_text(code)]
            } else {
                Seq::<Seq<char>>::empty()
            },
            SessionEventView::Line(line) => if (s.state is LoginSent && !(classify_spec(
                line,
            ) is TwoFactorRequired)) || s.state is TwoFactorSent {
                seq![
                    stdin_text(LauncherCommandView::AppUpdate(s.app_id).interactive_line()),
                    stdin_text(LauncherCommandView::Quit.interactive_line()),
                ]
            } else {
                Seq::<Seq<char>>::empty()
            },
        },
{
    reveal_with_fuel(written, 4);
    let actions = step_spec(s, event).1;
    match event {
        SessionEventView::Line(line) => {
            let publish = publication(classify_spec(line), s.app_id);
            assert(written(publish) =~= Seq::<Seq<char>>::empty()) by {
                if publish.len() > 0 {
                    assert(publish.drop_last() =~= Seq::<SessionActionView>::empty());
                }
            }
            let extra = update_writes(s.app_id);
            assert(written(extra) =~= seq![
                stdin_text(LauncherCommandView::AppUpdate(s.app_id).interactive_line()),
                stdin_text(LauncherCommandView::Quit.interactive_line()),
            ]) by {
                assert(extra.drop_last() =~= seq![extra[0]]);
                assert(extra.drop_last().drop_last() =~= Seq::<SessionActionView>::empty());
            }
            let wait = seq![SessionActionView::AwaitCode];
            assert(written(wait) =~= Seq::<Seq<char>>::empty()) by {
                assert(wait.drop_last() =~= Seq::<SessionActionView>::empty());
            }
            lemma_written_concat(publish, extra);
            lemma_written_concat(publish, wait);
            assert(Seq::<Seq<char>>::empty() + written(extra) =~= written(extra));
        },
        _ => {
            if actions.len() > 0 {
                assert(actions.drop_last() =~= Seq::<SessionActionView>::empty());
            }
        },
    }
}

/// Whatever happens to a session that starts out fresh, it keeps to the
/// protocol: nothing is written before the login, the code is written only
/// after the login and before the update command, the update command is
/// written once, and the quit command follows it directly.
pub proof fn lemma_session_keeps_protocol(s: SessionView, events: Seq<SessionEventView>)
    requires
        s.state is AwaitingLogin,
    ensures
        protocol(s, run_spec(s, events).0.state, written(run_spec(s, events).1)),
    decreases events.len(),
{
    if events.len() > 0 {
        let front = events.drop_last();
        lemma_session_keeps_protocol(s, front);
        lemma_run_keeps_identity(s, front);
        let before = run_spec(s, front);
        let last = step_spec(before.0, events.last());
        lemma_step_writes(before.0, events.last());
        lemma_written_concat(before.1, last.1);
        let texts = written(before.1);
        assert(texts + Seq::<Seq<char>>::empty() =~= texts);
        let login = stdin_text(LauncherCommandView::Login(s.username).interactive_line());
        let update = stdin_text(LauncherCommandView::AppUpdate(s.app_id).interactive_line());
        let quit = stdin_text(LauncherCommandView::Quit.interactive_line());
        match events.last() {
            SessionEventView::Started => {
                if before.0.state is AwaitingLogin {
                    assert(texts + seq![login] =~= seq![login]);
                }
            },
            SessionEventView::CodePosted(code) => {
                if before.0.state is AwaitingTwoFactor {
                    assert(texts + seq![stdin_text(code)] =~= seq![login, stdin_text(code)]);
                }
            },
            SessionEventView::Line(line) => {
                if before.0.state is LoginSent && !(classify_spec(line) is TwoFactorRequired) {
                    assert(texts + seq![update, quit] =~= seq![login, update, quit]);
                } else if before.0.state is TwoFactorSent {
                    let code = choose|code: Seq<char>|
                        texts == seq![login, #[trigger] stdin_text(code)];
                    assert(texts + seq![update, quit] =~= seq![
                        login,
                        stdin_text(code),
                        update,
                        quit,
                    ]);
                }
            },
        }
    }
}

} // verus!
