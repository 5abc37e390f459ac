//! The anonymous update: one batch run of the launcher, read afterwards.

use vstd::prelude::*;
use vstd::string::*;
use crate::classify::{classify, classify_spec, OutputEvent, OutputEventView};
use crate::driver::{batch_args, batch_args_spec, LauncherCommand, LauncherCommandView};
use crate::error::{outcome_view, EngineError, EngineErrorView};
use crate::events::{deliver, delivered, UiEvent};
use crate::text::{
    decimal,
    decimal_digits,
    has_substring,
    join2,
    lemma_marker_in_some_line,
    lines_of,
    split_lines,
};

verus! {

/// What a line of output settles about an anonymous update.
#[derive(Clone, Copy, Debug, PartialEq, Eq, Structural)]
pub enum Verdict {
    Success,
    PlatformUnsupported,
    NoSubscription,
    Failure,
}

/// The verdict that a classified line carries, if it carries one.
pub open spec fn verdict_spec(ev: OutputEventView) -> Option<Verdict> {
    match ev {
        OutputEventView::Success => Some(Verdict::Success),
        OutputEventView::PlatformUnsupported => Some(Verdict::PlatformUnsupported),
        OutputEventView::NoSubscription => Some(Verdict::NoSubscription),
        OutputEventView::Failure(_) => Some(Verdict::Failure),
        _ => None,
    }
}

/// The verdict of the first line that carries one.
pub open spec fn first_verdict(lines: Seq<Seq<char>>) -> Option<Verdict>
    decreases lines.len(),
{
    if lines.len() == 0 {
        None
    } else {
        match verdict_spec(classify_spec(lines.first())) {
            Some(v) => Some(v),
            None => first_verdict(lines.drop_first()),
        }
    }
}

/// The commands of an anonymous update of `app_id`.
pub open spec fn update_commands(app_id: u32) -> Seq<LauncherCommandView> {
    seq![
        LauncherCommandView::Login("anonymous"@),
        LauncherCommandView::AppUpdate(app_id),
        LauncherCommandView::Quit,
    ]
}

/// The result of an anonymous update of `app_id`, from what the launcher
/// printed and how it exited. The first line that carries a verdict decides;
/// where no line does, the exit status decides.
pub open spec fn update_outcome(app_id: u32, stdout: Seq<char>, stderr: Seq<char>, exit_ok: bool)
    -> Result<Seq<char>, EngineErrorView> {
    match first_verdict(lines_of(stdout)) {
        Some(Verdict::Success) => Ok("Successfully updated app "@ + decimal_digits(app_id as nat)),
        Some(Verdict::PlatformUnsupported) => Err(EngineErrorView::PlatformUnsupported),
        Some(Verdict::NoSubscription) => Err(EngineErrorView::NoSubscription),
        Some(Verdict::Failure) => Err(
            EngineErrorView::UpdateFailed(
                "Update failed. Please check the game ID and try again.\nError: "@ + (if stderr.len()
                    == 0 {
                    stdout
                } else {
                    stderr
                }),
            ),
        ),
        None => if exit_ok {
            Ok(
                "Update process completed for app "@ + decimal_digits(app_id as nat)
                    + ", but please verify the installation"@,
            )
        } else {
            Err(
                EngineErrorView::UpdateFailed(
                    "SteamCMD failed with unknown error.\nOutput: "@ + stdout + "\nError: "@
                        + stderr,
                ),
            )
        },
    }
}

/// What an anonymous update hands back: the result of the command, and the
/// events to publish, oldest first.
#[derive(Debug, PartialEq, Eq)]
pub struct UpdateReport {
    pub result: Result<String, EngineError>,
    pub events: Vec<UiEvent>,
}

/// The launcher's command line for an anonymous update of `app_id`.
pub fn update_game_args(app_id: u32) -> (args: Vec<String>)
    ensures
        args.deep_view() == batch_args_spec(update_commands(app_id)),
        args.deep_view() == seq![
            "+login"@,
            "anonymous"@,
            "+app_update"@,
            decimal_digits(app_id as nat),
            "validate"@,
            "+quit"@,
        ],
{
    let mut commands: Vec<LauncherCommand> = Vec::new();
    commands.push(LauncherCommand::Login(String::from_str("anonymous")));
    commands.push(LauncherCommand::AppUpdate(app_id));
    commands.push(LauncherCommand::Quit);
    assert(commands.deep_view() =~= update_commands(app_id));
    proof {
        lemma_update_args(app_id);
    }
    batch_args(&commands)
}

/// The command line of an anonymous update, written out.
pub proof fn lemma_update_args(app_id: u32)
    ensures
        batch_args_spec(update_commands(app_id)) == seq![
            "+login"@,
            "anonymous"@,
            "+app_update"@,
            decimal_digits(app_id as nat),
            "validate"@,
            "+quit"@,
        ],
{
    let c = update_commands(app_id);
    let c2 = c.drop_last();
    let c1 = c2.drop_last();
    assert(c1.drop_last() =~= Seq::<LauncherCommandView>::empty());
    assert(batch_args_spec(c1.drop_last()) =~= Seq::<Seq<char>>::empty());
    reveal_strlit("+");
    reveal_strlit("login");
    reveal_strlit("+login");
    reveal_strlit("app_update");
    reveal_strlit("+app_update");
    reveal_strlit("quit");
    reveal_strlit("+quit");
    assert("+"@ + "login"@ =~= "+login"@);
    assert("+"@ + "app_update"@ =~= "+app_update"@);
    assert("+"@ + "quit"@ =~= "+quit"@);
    assert(batch_args_spec(c1) =~= seq!["+login"@, "anonymous"@]);
    assert(batch_args_spec(c2) =~= seq![
        "+login"@,
        "anonymous"@,
        "+app_update"@,
        decimal_digits(app_id as nat),
        "validate"@,
    ]);
    assert(batch_args_spec(c) =~= seq![
        "+login"@,
        "anonymous"@,
        "+app_update"@,
        decimal_digits(app_id as nat),
        "validate"@,
        "+quit"@,
    ]);
}

fn verdict_of(ev: &OutputEvent) -> (v: Option<Verdict>)
    ensures
        v == verdict_spec(ev@),
{
    match ev {
        OutputEvent::Success => Some(Verdict::Success),
        OutputEvent::PlatformUnsupported => Some(Verdict::PlatformUnsupported),
        OutputEvent::NoSubscription => Some(Verdict::NoSubscription),
        OutputEvent::Failure(_) => Some(Verdict::Failure),
        _ => None,
    }
}

fn find_verdict(lines: &Vec<String>) -> (v: Option<Verdict>)
    ensures
        v == first_verdict(lines.deep_view()),
{
    let mut i: usize = 0;
    assert(lines.deep_view().skip(0) =~= lines.deep_view());
    while i < lines.len()
        invariant
            i <= lines.len(),
            first_verdict(lines.deep_view()) == first_verdict(lines.deep_view().skip(i as int)),
        decreases lines.len() - i,
    {
        let ghost rest = lines.deep_view().skip(i as int);
        assert(rest.first() == lines[i as int]@);
        assert(rest.drop_first() =~= lines.deep_view().skip(i + 1));
        let ev = classify(lines[i].as_str());
        match verdict_of(&ev) {
            Some(v) => {
                return Some(v);
            },
            None => {},
        }
        i += 1;
    }
    None
}

/// Reads the outcome of an anonymous update of `app_id` off what the
/// launcher printed and how it exited.
pub fn update_game(app_id: u32, stdout: &str, stderr: &str, exit_ok: bool) -> (report:
    UpdateReport)
    ensures
        outcome_view(report.result) == update_outcome(app_id, stdout@, stderr@, exit_ok),
        report.events.deep_view() == delivered(lines_of(stdout@), app_id),
{
    let lines = split_lines(stdout);
    let events = deliver(&lines, app_id);
    let result = match find_verdict(&lines) {
        Some(Verdict::Success) => {
            let id = decimal(app_id);
            Ok(join2("Successfully updated app ", id.as_str()))
        },
        Some(Verdict::PlatformUnsupported) => Err(EngineError::PlatformUnsupported),
        Some(Verdict::NoSubscription) => Err(EngineError::NoSubscription),
        Some(Verdict::Failure) => {
            let detail = if stderr.is_empty() {
                stdout
            } else {
                stderr
            };
            Err(
                EngineError::UpdateFailed(
                    join2(
                        "Update failed. Please check the game ID and try again.\nError: ",
                        detail,
                    ),
                ),
            )
        },
        None => {
            if exit_ok {
                let id = decimal(app_id);
                let mut text = join2("Update process completed for app ", id.as_str());
                text.append(", but please verify the installation");
                Ok(text)
            } else {
                let mut text = join2("SteamCMD failed with unknown error.\nOutput: ", stdout);
                text.append("\nError: ");
                text.append(stderr);
                Err(EngineError::UpdateFailed(text))
            }
        },
    };
    UpdateReport { result, events }
}

/// A success line that comes first settles the update, whatever follows and
/// however the launcher exits.
pub proof fn lemma_first_verdict_wins(first: Seq<char>, rest: Seq<Seq<char>>)
    requires
        verdict_spec(classify_spec(first)) is Some,
    ensures
        first_verdict(seq![first] + rest) == verdict_spec(classify_spec(first)),
{
    assert((seq![first] + rest).first() == first);
}

/// Lines without a verdict change nothing: the verdict of the lines after
/// them stands.
pub proof fn lemma_silent_lines_skipped(head: Seq<Seq<char>>, tail: Seq<Seq<char>>)
    requires
        forall|i: int| 0 <= i < head.len() ==> verdict_spec(classify_spec(#[trigger] head[i])) is None,
    ensures
        first_verdict(head + tail) == first_verdict(tail),
    decreases head.len(),
{
    if head.len() == 0 {
        assert(head + tail =~= tail);
    } else {
        assert((head + tail).first() == head[0]);
        assert((head + tail).drop_first() =~= head.drop_first() + tail);
        assert forall|i: int| 0 <= i < head.drop_first().len() implies verdict_spec(
            classify_spec(#[trigger] head.drop_first()[i]),
        ) is None by {
            assert(head.drop_first()[i] == head[i + 1]);
        }
        lemma_silent_lines_skipped(head.drop_first(), tail);
    }
}

/// The launcher's output shows none of the words that carry a verdict.
pub open spec fn shows_no_verdict(stdout: Seq<char>) -> bool {
    &&& !has_substring(stdout, "Success!"@)
    &&& !has_substring(stdout, "fully installed"@)
    &&& !has_substring(stdout, "Invalid Platform"@)
    &&& !has_substring(stdout, "No subscription"@)
    &&& !has_substring(stdout, "FAILED"@)
    &&& !has_substring(stdout, "ERROR"@)
}

/// Output that shows none of the words that carry a verdict leaves the
/// result to the exit status: a bad exit is a failure, a good one is not.
pub proof fn lemma_output_without_verdict(
    app_id: u32,
    stdout: Seq<char>,
    stderr: Seq<char>,
    exit_ok: bool,
)
    requires
        shows_no_verdict(stdout),
    ensures
        first_verdict(lines_of(stdout)) is None,
        update_outcome(app_id, stdout, stderr, exit_ok) is Ok <==> exit_ok,
{
    reveal_strlit("Success!");
    reveal_strlit("fully installed");
    reveal_strlit("Invalid Platform");
    reveal_strlit("No subscription");
    reveal_strlit("FAILED");
    reveal_strlit("ERROR");
    lemma_marker_in_some_line(stdout, "Success!"@);
    lemma_marker_in_some_line(stdout, "fully installed"@);
    lemma_marker_in_some_line(stdout, "Invalid Platform"@);
    lemma_marker_in_some_line(stdout, "No subscription"@);
    lemma_marker_in_some_line(stdout, "FAILED"@);
    lemma_marker_in_some_line(stdout, "ERROR"@);
    let lines = lines_of(stdout);
    assert forall|i: int| 0 <= i < lines.len() implies verdict_spec(
        classify_spec(#[trigger] lines[i]),
    ) is None by {
        assert(!has_substring(lines[i], "Success!"@));
        assert(!has_substring(lines[i], "fully installed"@));
        assert(!has_substring(lines[i], "Invalid Platform"@));
        assert(!has_substring(lines[i], "No subscription"@));
        assert(!has_substring(lines[i], "FAILED"@));
        assert(!has_substring(lines[i], "ERROR"@));
    }
    lemma_silent_lines_skipped(lines, Seq::empty());
    assert(lines + Seq::<Seq<char>>::empty() =~= lines);
}

} // verus!
