//! The rule that at most one session is live at a time, and what a command
//! needs before its session is opened.

use vstd::prelude::*;
use crate::error::{EngineError, EngineErrorView};

verus! {

/// The commands that need a session.
#[derive(Clone, Copy, Debug, PartialEq, Eq, Structural)]
pub enum Command {
    EnsureInstalled,
    UpdateGame,
    UpdateGameAuthenticated,
    AuthenticateSteam,
}

impl Command {
    /// Whether the command runs the launcher, so that it must be on disk.
    pub open spec fn needs_launcher(self) -> bool {
        self != Command::EnsureInstalled
    }

    fn launcher_needed(self) -> (b: bool)
        ensures
            b == self.needs_launcher(),
    {
        match self {
            Command::EnsureInstalled => false,
            _ => true,
        }
    }
}

/// The keeper of the rule that at most one session is live.
#[derive(Debug, PartialEq, Eq)]
pub struct Controller {
    live: Option<u64>,
    issued: u64,
}

/// The mathematical value of a [`Controller`].
pub struct ControllerView {
    /// The id of the live session, if one is live.
    pub live: Option<u64>,
    /// The id that the next session gets.
    pub next_id: u64,
}

impl View for Controller {
    type V = ControllerView;

    closed spec fn view(&self) -> ControllerView {
        ControllerView { live: self.live, next_id: self.issued }
    }
}

/// The id after `id`; the ids start over after the last.
pub open spec fn following_id(id: u64) -> u64 {
    if id == u64::MAX {
        0
    } else {
        (id + 1) as u64
    }
}

/// What opening a session for `command` does to the controller, and what it
/// answers: `Busy` while a session is live; else `LauncherMissing` where the
/// command needs the launcher and it is not on disk; else the id of the new
/// session, which is live from then on.
pub open spec fn open_spec(c: ControllerView, command: Command, launcher_present: bool) -> (
    ControllerView,
    Result<u64, EngineErrorView>,
) {
    if c.live is Some {
        (c, Err(EngineErrorView::Busy))
    } else if command.needs_launcher() && !launcher_present {
        (c, Err(EngineErrorView::LauncherMissing))
    } else {
        (ControllerView { live: Some(c.next_id), next_id: following_id(c.next_id) }, Ok(c.next_id))
    }
}

/// What closing session `id` does to the controller: the live session ends
/// if it is the one named.
pub open spec fn close_spec(c: ControllerView, id: u64) -> ControllerView {
    if c.live == Some(id) {
        ControllerView { live: None, ..c }
    } else {
        c
    }
}

/// The view of the answer to opening a session.
pub open spec fn opened_view(r: Result<u64, EngineError>) -> Result<u64, EngineErrorView> {
    match r {
        Ok(id) => Ok(id),
        Err(e) => Err(e@),
    }
}

impl Controller {
    /// A controller with no live session.
    pub fn new() -> (c: Controller)
        ensures
            c@ == (ControllerView { live: None, next_id: 0 }),
    {
        Controller { live: None, issued: 0 }
    }

    /// The id of the live session, if one is live.
    pub fn live_session(&self) -> (id: Option<u64>)
        ensures
            id == self@.live,
    {
        self.live
    }

    /// Opens a session for `command`. `launcher_present` says whether the
    /// launcher binary is on disk.
    pub fn open(&mut self, command: Command, launcher_present: bool) -> (r: Result<
        u64,
        EngineError,
    >)
        ensures
            (final(self)@, opened_view(r)) == open_spec(old(self)@, command, launcher_present),
    {
        if self.live.is_some() {
            Err(EngineError::Busy)
        } else if command.launcher_needed() && !launcher_present {
            Err(EngineError::LauncherMissing)
        } else {
            let id = self.issued;
            self.live = Some(id);
            self.issued = if id == u64::MAX {
                0
            } else {
                id + 1
            };
            Ok(id)
        }
    }

    /// Closes session `id`: when the launcher has exited, or when the
    /// command was given up.
    pub fn close(&mut self, id: u64)
        ensures
            final(self)@ == close_spec(old(self)@, id),
    {
        if self.live == Some(id) {
            self.live = None;
        }
    }
}

/// While a session is live, no other can be opened: every attempt is
/// answered with `Busy` and changes nothing.
pub proof fn lemma_one_session_at_a_time(
    c: ControllerView,
    first: Command,
    first_present: bool,
    second: Command,
    second_present: bool,
)
    requires
        open_spec(c, first, first_present).1 is Ok,
    ensures
        open_spec(open_spec(c, first, first_present).0, second, second_present).1 == Err::<
            u64,
            EngineErrorView,
        >(EngineErrorView::Busy),
        open_spec(open_spec(c, first, first_present).0, second, second_present).0 == open_spec(
            c,
            first,
            first_present,
        ).0,
{
}

/// Once the live session is closed, the next can be opened.
pub proof fn lemma_close_frees(c: ControllerView, id: u64, command: Command)
    requires
        c.live == Some(id),
    ensures
        close_spec(c, id).live is None,
        open_spec(close_spec(c, id), command, true).1 is Ok,
{
}

} // verus!
