//! The output classifier: one line of launcher output in, one semantic
//! event out. The rules are tried from the top; the first that matches wins.

use vstd::prelude::*;
use vstd::string::*;
use crate::text::{chars_contain, has_substring, occurs_at, to_chars};

verus! {

/// What a line of launcher output means.
#[derive(Debug, PartialEq, Eq)]
pub enum OutputEvent {
    /// Download or validation progress; carries the line.
    Progress(String),
    /// The interactive prompt for a two-factor code.
    TwoFactorRequired,
    /// A notice that a Steam Guard code is needed.
    GuardRequired,
    /// User name or password was rejected.
    CredentialInvalid,
    /// The one-time code was rejected.
    GuardInvalid,
    /// The game has no build for this platform.
    PlatformUnsupported,
    /// The account does not own the game.
    NoSubscription,
    /// The update went through.
    Success,
    /// The launcher reports a failure; carries the line.
    Failure(String),
    /// Anything else; carries the line.
    Raw(String),
}

/// The mathematical value of an [`OutputEvent`].
pub enum OutputEventView {
    Progress(Seq<char>),
    TwoFactorRequired,
    GuardRequired,
    CredentialInvalid,
    GuardInvalid,
    PlatformUnsupported,
    NoSubscription,
    Success,
    Failure(Seq<char>),
    Raw(Seq<char>),
}

impl View for OutputEvent {
    type V = OutputEventView;

    open spec fn view(&self) -> OutputEventView {
        match *self {
            OutputEvent::Progress(l) => OutputEventView::Progress(l@),
            OutputEvent::TwoFactorRequired => OutputEventView::TwoFactorRequired,
            OutputEvent::GuardRequired => OutputEventView::GuardRequired,
            OutputEvent::CredentialInvalid => OutputEventView::CredentialInvalid,
            OutputEvent::GuardInvalid => OutputEventView::GuardInvalid,
            OutputEvent::PlatformUnsupported => OutputEventView::PlatformUnsupported,
            OutputEvent::NoSubscription => OutputEventView::NoSubscription,
            OutputEvent::Success => OutputEventView::Success,
            OutputEvent::Failure(l) => OutputEventView::Failure(l@),
            OutputEvent::Raw(l) => OutputEventView::Raw(l@),
        }
    }
}

/// The classification table.
pub open spec fn classify_spec(line: Seq<char>) -> OutputEventView {
    if has_substring(line, "Update state"@) || has_substring(line, "Progress:"@) {
        OutputEventView::Progress(line)
    } else if has_substring(line, "Two factor code:"@) {
        OutputEventView::TwoFactorRequired
    } else if has_substring(line, "Steam Guard code"@) || has_substring(line, "Two-factor code:"@) {
        OutputEventView::GuardRequired
    } else if has_substring(line, "Invalid Password"@) {
        OutputEventView::CredentialInvalid
    } else if has_substring(line, "Invalid Steam Guard code"@) || has_substring(
        line,
        "Invalid two-factor code"@,
    ) {
        OutputEventView::GuardInvalid
    } else if has_substring(line, "Invalid Platform"@) {
        OutputEventView::PlatformUnsupported
    } else if has_substring(line, "No subscription"@) {
        OutputEventView::NoSubscription
    } else if has_substring(line, "Success!"@) || has_substring(line, "fully installed"@) {
        OutputEventView::Success
    } else if has_substring(line, "FAILED"@) || has_substring(line, "ERROR"@) {
        OutputEventView::Failure(line)
    } else {
        OutputEventView::Raw(line)
    }
}

/// Classifies one line of launcher output.
pub fn classify(line: &str) -> (ev: OutputEvent)
    ensures
        ev@ == classify_spec(line@),
{
    let chars = to_chars(line);
    if chars_contain(&chars, "Update state") || chars_contain(&chars, "Progress:") {
        OutputEvent::Progress(String::from_str(line))
    } else if chars_contain(&chars, "Two factor code:") {
        OutputEvent::TwoFactorRequired
    } else if chars_contain(&chars, "Steam Guard code") || chars_contain(&chars, "Two-factor code:") {
        OutputEvent::GuardRequired
    } else if chars_contain(&chars, "Invalid Password") {
        OutputEvent::CredentialInvalid
    } else if chars_contain(&chars, "Invalid Steam Guard code") || chars_contain(&chars, "Invalid two-factor code") {
        OutputEvent::GuardInvalid
    } else if chars_contain(&chars, "Invalid Platform") {
        OutputEvent::PlatformUnsupported
    } else if chars_contain(&chars, "No subscription") {
        OutputEvent::NoSubscription
    } else if chars_contain(&chars, "Success!") || chars_contain(&chars, "fully installed") {
        OutputEvent::Success
    } else if chars_contain(&chars, "FAILED") || chars_contain(&chars, "ERROR") {
        OutputEvent::Failure(String::from_str(line))
    } else {
        OutputEvent::Raw(String::from_str(line))
    }
}

/// A run of characters inside an occurrence occurs too.
pub proof fn lemma_substring_of_substring(hay: Seq<char>, outer: Seq<char>, inner: Seq<char>)
    requires
        has_substring(hay, outer),
        has_substring(outer, inner),
    ensures
        has_substring(hay, inner),
{
    let i = choose|i: int| occurs_at(hay, outer, i);
    let j = choose|j: int| occurs_at(outer, inner, j);
    let window = hay.subrange(i, i + outer.len());
    assert(hay.subrange(i + j, i + j + inner.len()) =~= window.subrange(j, j + inner.len()));
    assert(occurs_at(hay, inner, i + j));
}

/// The notice of a rejected Steam Guard code holds the words of the notice
/// that a code is needed, and that rule stands higher in the table. So a
/// line is classified as a rejected code only for the two-factor wording.
pub proof fn lemma_guard_invalid_wording(line: Seq<char>)
    requires
        classify_spec(line) == OutputEventView::GuardInvalid,
    ensures
        has_substring(line, "Invalid two-factor code"@),
        !has_substring(line, "Invalid Steam Guard code"@),
{
    if has_substring(line, "Invalid Steam Guard code"@) {
        reveal_strlit("Invalid Steam Guard code");
        reveal_strlit("Steam Guard code");
        let outer = "Invalid Steam Guard code"@;
        let inner = "Steam Guard code"@;
        assert(outer.subrange(8, 24) =~= inner);
        assert(occurs_at(outer, inner, 8));
        lemma_substring_of_substring(line, outer, inner);
    }
}

impl Clone for OutputEvent {
    fn clone(&self) -> (copy: Self)
        ensures
            copy == *self,
    {
        match self {
            OutputEvent::Progress(l) => OutputEvent::Progress(l.clone()),
            OutputEvent::TwoFactorRequired => OutputEvent::TwoFactorRequired,
            OutputEvent::GuardRequired => OutputEvent::GuardRequired,
            OutputEvent::CredentialInvalid => OutputEvent::CredentialInvalid,
            OutputEvent::GuardInvalid => OutputEvent::GuardInvalid,
            OutputEvent::PlatformUnsupported => OutputEvent::PlatformUnsupported,
            OutputEvent::NoSubscription => OutputEvent::NoSubscription,
            OutputEvent::Success => OutputEvent::Success,
            OutputEvent::Failure(l) => OutputEvent::Failure(l.clone()),
            OutputEvent::Raw(l) => OutputEvent::Raw(l.clone()),
        }
    }
}

} // verus!
