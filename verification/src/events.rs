//! The bridge to the user interface: the events that the engine publishes,
//! and the one that it takes back.

use vstd::prelude::*;
use vstd::string::*;
use crate::classify::{classify, classify_spec, OutputEvent, OutputEventView};
use crate::text::{decimal, decimal_digits};

verus! {

/// An event published to the user interface.
#[derive(Debug, PartialEq, Eq)]
pub enum UiEvent {
    /// A progress line of the launcher.
    Progress(String),
    /// The launcher waits for a two-factor code.
    TwoFactorRequired,
    /// The update went through; carries the app id in decimal.
    UpdateSuccess(String),
    /// The launcher reported a failure; carries the offending line.
    UpdateError(String),
}

/// The mathematical value of a [`UiEvent`].
pub enum UiEventView {
    Progress(Seq<char>),
    TwoFactorRequired,
    UpdateSuccess(Seq<char>),
    UpdateError(Seq<char>),
}

impl View for UiEvent {
    type V = UiEventView;

    open spec fn view(&self) -> UiEventView {
        match *self {
            UiEvent::Progress(l) => UiEventView::Progress(l@),
            UiEvent::TwoFactorRequired => UiEventView::TwoFactorRequired,
            UiEvent::UpdateSuccess(id) => UiEventView::UpdateSuccess(id@),
            UiEvent::UpdateError(l) => UiEventView::UpdateError(l@),
        }
    }
}

impl DeepView for UiEvent {
    type V = UiEventView;

    open spec fn deep_view(&self) -> UiEventView {
        self@
    }
}

impl UiEventView {
    /// The name under which the event is published.
    pub open spec fn name(self) -> Seq<char> {
        match self {
            UiEventView::Progress(_) => "steam-update-progress"@,
            UiEventView::TwoFactorRequired => "steam-2fa-required"@,
            UiEventView::UpdateSuccess(_) => "steam-update-success"@,
            UiEventView::UpdateError(_) => "steam-update-error"@,
        }
    }

    /// The text that travels with the event, if any.
    pub open spec fn payload(self) -> Option<Seq<char>> {
        match self {
            UiEventView::Progress(l) => Some(l),
            UiEventView::TwoFactorRequired => None,
            UiEventView::UpdateSuccess(id) => Some(id),
            UiEventView::UpdateError(l) => Some(l),
        }
    }
}

/// The view of an optional text.
pub open spec fn text_view(t: Option<String>) -> Option<Seq<char>> {
    match t {
        Some(s) => Some(s@),
        None => None,
    }
}

impl UiEvent {
    /// The name under which the event is published.
    pub fn name(&self) -> (n: &'static str)
        ensures
            n@ == self@.name(),
    {
        match self {
            UiEvent::Progress(_) => "steam-update-progress",
            UiEvent::TwoFactorRequired => "steam-2fa-required",
            UiEvent::UpdateSuccess(_) => "steam-update-success",
            UiEvent::UpdateError(_) => "steam-update-error",
        }
    }

    /// The text that travels with the event, if any.
    pub fn payload(&self) -> (p: Option<String>)
        ensures
            text_view(p) == self@.payload(),
    {
        match self {
            UiEvent::Progress(l) => Some(l.clone()),
            UiEvent::TwoFactorRequired => None,
            UiEvent::UpdateSuccess(id) => Some(id.clone()),
            UiEvent::UpdateError(l) => Some(l.clone()),
        }
    }
}

/// The name of the event by which the user interface hands in a two-factor
/// code.
pub fn submit_code_event_name() -> (n: &'static str)
    ensures
        n@ == "submit-2fa-code"@,
{
    "submit-2fa-code"
}

/// The event to publish for a classified line of a session on `app_id`, if
/// the line calls for one.
pub open spec fn ui_event_spec(ev: OutputEventView, app_id: u32) -> Option<UiEventView> {
    match ev {
        OutputEventView::Progress(l) => Some(UiEventView::Progress(l)),
        OutputEventView::TwoFactorRequired => Some(UiEventView::TwoFactorRequired),
        OutputEventView::Success => Some(UiEventView::UpdateSuccess(decimal_digits(app_id as nat))),
        OutputEventView::Failure(l) => Some(UiEventView::UpdateError(l)),
        _ => None,
    }
}

/// The view of an optional event.
pub open spec fn ui_event_view(e: Option<UiEvent>) -> Option<UiEventView> {
    match e {
        Some(e) => Some(e@),
        None => None,
    }
}

/// The event to publish for a classified line of a session on `app_id`, if
/// the line calls for one.
pub fn ui_event(ev: &OutputEvent, app_id: u32) -> (e: Option<UiEvent>)
    ensures
        ui_event_view(e) == ui_event_spec(ev@, app_id),
{
    match ev {
        OutputEvent::Progress(l) => Some(UiEvent::Progress(l.clone())),
        OutputEvent::TwoFactorRequired => Some(UiEvent::TwoFactorRequired),
        OutputEvent::Success => Some(UiEvent::UpdateSuccess(decimal(app_id))),
        OutputEvent::Failure(l) => Some(UiEvent::UpdateError(l.clone())),
        _ => None,
    }
}

/// The events that one line gives rise to: none or one.
pub open spec fn line_events(line: Seq<char>, app_id: u32) -> Seq<UiEventView> {
    match ui_event_spec(classify_spec(line), app_id) {
        Some(e) => seq![e],
        None => Seq::empty(),
    }
}

/// The events delivered to the user interface after the launcher has
/// printed `lines`: those of each line, in the order of the lines.
pub open spec fn delivered(lines: Seq<Seq<char>>, app_id: u32) -> Seq<UiEventView>
    decreases lines.len(),
{
    if lines.len() == 0 {
        Seq::empty()
    } else {
        delivered(lines.drop_last(), app_id) + line_events(lines.last(), app_id)
    }
}

/// The events to deliver for `lines`, oldest first.
pub fn deliver(lines: &Vec<String>, app_id: u32) -> (events: Vec<UiEvent>)
    ensures
        events.deep_view() == delivered(lines.deep_view(), app_id),
{
    let mut events: Vec<UiEvent> = Vec::new();
    let mut i: usize = 0;
    assert(lines.deep_view().take(0) =~= Seq::<Seq<char>>::empty());
    while i < lines.len()
        invariant
            i <= lines.len(),
            events.deep_view() == delivered(lines.deep_view().take(i as int), app_id),
        decreases lines.len() - i,
    {
        let ghost before = events.deep_view();
        let ghost all = lines.deep_view();
        let ev = classify(lines[i].as_str());
        match ui_event(&ev, app_id) {
            Some(e) => {
                events.push(e);
                assert(events.deep_view() =~= before.push(e@));
            },
            None => {},
        }
        proof {
            assert(all.take(i + 1).drop_last() =~= all.take(i as int));
            assert(all.take(i + 1).last() == lines[i as int]@);
            assert(events.deep_view() =~= before + line_events(lines[i as int]@, app_id));
        }
        i += 1;
    }
    assert(lines.deep_view().take(lines.len() as int) =~= lines.deep_view());
    events
}

/// Delivery goes line by line: the events of two runs of lines, one after
/// the other, are the events of the first followed by those of the second.
pub proof fn lemma_delivered_concat(a: Seq<Seq<char>>, b: Seq<Seq<char>>, app_id: u32)
    ensures
        delivered(a + b, app_id) == delivered(a, app_id) + delivered(b, app_id),
    decreases b.len(),
{
    if b.len() == 0 {
        assert(a + b =~= a);
        assert(delivered(a, app_id) + delivered(b, app_id) =~= delivered(a, app_id));
    } else {
        assert((a + b).drop_last() =~= a + b.drop_last());
        assert((a + b).last() == b.last());
        lemma_delivered_concat(a, b.drop_last(), app_id);
        assert(delivered(a + b, app_id) =~= delivered(a, app_id) + delivered(b, app_id));
    }
}

/// What has been delivered stays delivered, in its order: the events for the
/// first `k` lines are a prefix of the events for all of them.
pub proof fn lemma_delivered_prefix_stable(lines: Seq<Seq<char>>, k: int, app_id: u32)
    requires
        0 <= k <= lines.len(),
    ensures
        delivered(lines.take(k), app_id).is_prefix_of(delivered(lines, app_id)),
{
    assert(lines.take(k) + lines.skip(k) =~= lines);
    lemma_delivered_concat(lines.take(k), lines.skip(k), app_id);
    let head = delivered(lines.take(k), app_id);
    let tail = delivered(lines.skip(k), app_id);
    assert((head + tail).subrange(0, head.len() as int) =~= head);
}

impl Clone for UiEvent {
    fn clone(&self) -> (copy: Self)
        ensures
            copy == *self,
    {
        match self {
            UiEvent::Progress(l) => UiEvent::Progress(l.clone()),
            UiEvent::TwoFactorRequired => UiEvent::TwoFactorRequired,
            UiEvent::UpdateSuccess(id) => UiEvent::UpdateSuccess(id.clone()),
            UiEvent::UpdateError(l) => UiEvent::UpdateError(l.clone()),
        }
    }
}

} // verus!
