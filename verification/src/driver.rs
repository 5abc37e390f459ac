//! The process driver's side of the launcher's command language: a command
//! is a verb with its arguments, and it is handed to the launcher either on
//! the command line (batch mode) or on standard input (interactive mode).

use vstd::prelude::*;
use vstd::string::*;
use crate::text::{decimal, decimal_digits, join2};

verus! {

/// A command of the launcher.
#[derive(Debug, PartialEq, Eq)]
pub enum LauncherCommand {
    /// Sign in under a user name alone: `anonymous`, or an account whose
    /// sign-in the launcher has cached.
    Login(String),
    /// Sign in with user name and password.
    LoginWithPassword(String, String),
    /// Sign in with user name, password and one-time code.
    LoginWithCode(String, String, String),
    /// Install or update an app and validate its files.
    AppUpdate(u32),
    /// Leave the launcher.
    Quit,
}

/// The mathematical value of a [`LauncherCommand`].
pub enum LauncherCommandView {
    Login(Seq<char>),
    LoginWithPassword(Seq<char>, Seq<char>),
    LoginWithCode(Seq<char>, Seq<char>, Seq<char>),
    AppUpdate(u32),
    Quit,
}

impl View for LauncherCommand {
    type V = LauncherCommandView;

    open spec fn view(&self) -> LauncherCommandView {
        match *self {
            LauncherCommand::Login(u) => LauncherCommandView::Login(u@),
            LauncherCommand::LoginWithPassword(u, p) => LauncherCommandView::LoginWithPassword(
                u@,
                p@,
            ),
            LauncherCommand::LoginWithCode(u, p, c) => LauncherCommandView::LoginWithCode(
                u@,
                p@,
                c@,
            ),
            LauncherCommand::AppUpdate(id) => LauncherCommandView::AppUpdate(id),
            LauncherCommand::Quit => LauncherCommandView::Quit,
        }
    }
}

impl DeepView for LauncherCommand {
    type V = LauncherCommandView;

    open spec fn deep_view(&self) -> LauncherCommandView {
        self@
    }
}

impl LauncherCommandView {
    /// The verb of the command.
    pub open spec fn verb(self) -> Seq<char> {
        match self {
            LauncherCommandView::Login(_) => "login"@,
            LauncherCommandView::LoginWithPassword(_, _) => "login"@,
            LauncherCommandView::LoginWithCode(_, _, _) => "login"@,
            LauncherCommandView::AppUpdate(_) => "app_update"@,
            LauncherCommandView::Quit => "quit"@,
        }
    }

    /// The arguments that follow the verb.
    pub open spec fn arguments(self) -> Seq<Seq<char>> {
        match self {
            LauncherCommandView::Login(u) => seq![u],
            LauncherCommandView::LoginWithPassword(u, p) => seq![u, p],
            LauncherCommandView::LoginWithCode(u, p, c) => seq![u, p, c],
            LauncherCommandView::AppUpdate(id) => seq![decimal_digits(id as nat), "validate"@],
            LauncherCommandView::Quit => Seq::empty(),
        }
    }

    /// The command in batch mode: the verb with a plus sign before it, then
    /// the arguments, each an argument of the launcher's command line.
    pub open spec fn batch_args(self) -> Seq<Seq<char>> {
        seq!["+"@ + self.verb()] + self.arguments()
    }

    /// The command in interactive mode: verb and arguments with one space
    /// between them.
    pub open spec fn interactive_line(self) -> Seq<char> {
        self.verb() + spaced(self.arguments())
    }
}

/// Each of `words` with a space before it.
pub open spec fn spaced(words: Seq<Seq<char>>) -> Seq<char>
    decreases words.len(),
{
    if words.len() == 0 {
        Seq::empty()
    } else {
        spaced(words.drop_last()) + " "@ + words.last()
    }
}

/// What is written to the launcher's standard input to send `line`: the
/// line and a line feed.
pub open spec fn stdin_text(line: Seq<char>) -> Seq<char> {
    line + "\n"@
}

/// The command lines of `commands` in batch mode, one after the other.
pub open spec fn batch_args_spec(commands: Seq<LauncherCommandView>) -> Seq<Seq<char>>
    decreases commands.len(),
{
    if commands.len() == 0 {
        Seq::empty()
    } else {
        batch_args_spec(commands.drop_last()) + commands.last().batch_args()
    }
}

impl LauncherCommand {
    /// The verb of the command.
    pub fn verb(&self) -> (v: &'static str)
        ensures
            v@ == self@.verb(),
    {
        match self {
            LauncherCommand::Login(_) => "login",
            LauncherCommand::LoginWithPassword(_, _) => "login",
            LauncherCommand::LoginWithCode(_, _, _) => "login",
            LauncherCommand::AppUpdate(_) => "app_update",
            LauncherCommand::Quit => "quit",
        }
    }

    /// The arguments that follow the verb.
    pub fn arguments(&self) -> (args: Vec<String>)
        ensures
            args.deep_view() == self@.arguments(),
    {
        let mut args: Vec<String> = Vec::new();
        match self {
            LauncherCommand::Login(u) => {
                args.push(u.clone());
            },
            LauncherCommand::LoginWithPassword(u, p) => {
                args.push(u.clone());
                args.push(p.clone());
            },
            LauncherCommand::LoginWithCode(u, p, c) => {
                args.push(u.clone());
                args.push(p.clone());
                args.push(c.clone());
            },
            LauncherCommand::AppUpdate(id) => {
                args.push(decimal(*id));
                args.push(String::from_str("validate"));
            },
            LauncherCommand::Quit => {},
        }
        assert(args.deep_view() =~= self@.arguments());
        args
    }

    /// The text that sends the command in interactive mode, line feed
    /// included.
    pub fn stdin_text(&self) -> (text: String)
        ensures
            text@ == stdin_text(self@.interactive_line()),
    {
        let args = self.arguments();
        let mut text = String::from_str(self.verb());
        let mut i: usize = 0;
        assert(args.deep_view().take(0) =~= Seq::<Seq<char>>::empty());
        while i < args.len()
            invariant
                i <= args.len(),
                text@ == self@.verb() + spaced(args.deep_view().take(i as int)),
            decreases args.len() - i,
        {
            proof {
                let all = args.deep_view();
                assert(all.take(i + 1).drop_last() =~= all.take(i as int));
                assert(all.take(i + 1).last() == args[i as int]@);
            }
            text.append(" ");
            text.append(args[i].as_str());
            assert(text@ =~= self@.verb() + spaced(args.deep_view().take(i + 1)));
            i += 1;
        }
        assert(args.deep_view().take(args.len() as int) =~= args.deep_view());
        text.append("\n");
        text
    }
}

/// The launcher's command line for `commands` in batch mode.
pub fn batch_args(commands: &Vec<LauncherCommand>) -> (args: Vec<String>)
    ensures
        args.deep_view() == batch_args_spec(commands.deep_view()),
{
    let mut args: Vec<String> = Vec::new();
    let mut i: usize = 0;
    assert(commands.deep_view().take(0) =~= Seq::<LauncherCommandView>::empty());
    while i < commands.len()
        invariant
            i <= commands.len(),
            args.deep_view() == batch_args_spec(commands.deep_view().take(i as int)),
        decreases commands.len() - i,
    {
        let ghost before = args.deep_view();
        let ghost all = commands.deep_view();
        let command = &commands[i];
        args.push(join2("+", command.verb()));
        let mut rest = command.arguments();
        let ghost tail = rest.deep_view();
        args.append(&mut rest);
        proof {
            assert(all.take(i + 1).drop_last() =~= all.take(i as int));
            assert(all.take(i + 1).last() == command@);
            assert(args.deep_view() =~= before + command@.batch_args());
        }
        i += 1;
    }
    assert(commands.deep_view().take(commands.len() as int) =~= commands.deep_view());
    args
}

/// The text that sends `line` on the launcher's standard input.
pub fn line_to_stdin(line: &str) -> (text: String)
    ensures
        text@ == stdin_text(line@),
{
    join2(line, "\n")
}

impl Clone for LauncherCommand {
    fn clone(&self) -> (copy: Self)
        ensures
            copy == *self,
    {
        match self {
            LauncherCommand::Login(u) => LauncherCommand::Login(u.clone()),
            LauncherCommand::LoginWithPassword(u, p) => LauncherCommand::LoginWithPassword(
                u.clone(),
                p.clone(),
            ),
            LauncherCommand::LoginWithCode(u, p, c) => LauncherCommand::LoginWithCode(
                u.clone(),
                p.clone(),
                c.clone(),
            ),
            LauncherCommand::AppUpdate(id) => LauncherCommand::AppUpdate(*id),
            LauncherCommand::Quit => LauncherCommand::Quit,
        }
    }
}

} // verus!
