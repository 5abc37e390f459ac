//! The platform installer as a sequence of decisions.
//!
//! The caller does the work on disk and on the network; after each piece of
//! work it reports how that went and is told what comes next.

use vstd::prelude::*;
use vstd::string::*;
use crate::error::{EngineError, EngineErrorView};
use crate::platform::Platform;
use crate::text::join2;

verus! {

/// One piece of work of an installation.
#[derive(Clone, Copy, Debug, PartialEq, Eq, Structural)]
pub enum InstallStep {
    /// Create the install directory with its parents; an existing directory
    /// is no failure.
    CreateDir,
    /// Download the platform's archive into the install directory.
    Download,
    /// Unpack the archive in place.
    Extract,
    /// Delete the archive.
    RemoveArchive,
    /// Grant the launcher its execute bit.
    MarkExecutable,
}

/// How `ensure-installed` ended.
#[derive(Clone, Copy, Debug, PartialEq, Eq, Structural)]
pub enum InstallOutcome {
    /// The launcher was on disk already.
    AlreadyPresent,
    /// The launcher has been installed.
    Installed,
}

/// What the caller has to do next.
#[derive(Debug, PartialEq, Eq)]
pub enum InstallDecision {
    /// Carry out this step and report back.
    Perform(InstallStep),
    /// Done.
    Finish(InstallOutcome),
    /// Give up with this error.
    Abort(EngineError),
}

/// The mathematical value of an [`InstallDecision`].
pub enum InstallDecisionView {
    Perform(InstallStep),
    Finish(InstallOutcome),
    Abort(EngineErrorView),
}

impl View for InstallDecision {
    type V = InstallDecisionView;

    open spec fn view(&self) -> InstallDecisionView {
        match *self {
            InstallDecision::Perform(s) => InstallDecisionView::Perform(s),
            InstallDecision::Finish(o) => InstallDecisionView::Finish(o),
            InstallDecision::Abort(e) => InstallDecisionView::Abort(e@),
        }
    }
}

impl InstallOutcome {
    /// The status text of the outcome.
    pub open spec fn status_spec(self) -> Seq<char> {
        match self {
            InstallOutcome::AlreadyPresent => "SteamCMD is already installed"@,
            InstallOutcome::Installed => "SteamCMD has been installed successfully"@,
        }
    }

    /// The status text of the outcome.
    pub fn status(self) -> (text: String)
        ensures
            text@ == self.status_spec(),
    {
        match self {
            InstallOutcome::AlreadyPresent => String::from_str("SteamCMD is already installed"),
            InstallOutcome::Installed => String::from_str(
                "SteamCMD has been installed successfully",
            ),
        }
    }
}

/// The first decision of `ensure-installed`: nothing is to be done when the
/// launcher is present.
pub open spec fn ensure_spec(launcher_present: bool) -> InstallDecisionView {
    if launcher_present {
        InstallDecisionView::Finish(InstallOutcome::AlreadyPresent)
    } else {
        InstallDecisionView::Perform(InstallStep::CreateDir)
    }
}

/// The decision after `step` has been carried out; `failure` holds the
/// cause if it failed.
pub open spec fn install_spec(
    platform: Platform,
    step: InstallStep,
    failure: Option<Seq<char>>,
) -> InstallDecisionView {
    match step {
        InstallStep::CreateDir => match failure {
            Some(cause) => InstallDecisionView::Abort(
                EngineErrorView::InstallerIoFailed(
                    "Failed to create SteamCMD directory: "@ + cause,
                ),
            ),
            None => InstallDecisionView::Perform(InstallStep::Download),
        },
        InstallStep::Download => match failure {
            Some(_) => InstallDecisionView::Abort(EngineErrorView::InstallerDownloadFailed),
            None => InstallDecisionView::Perform(InstallStep::Extract),
        },
        InstallStep::Extract => match failure {
            Some(_) => InstallDecisionView::Abort(EngineErrorView::InstallerExtractFailed),
            None => InstallDecisionView::Perform(InstallStep::RemoveArchive),
        },
        InstallStep::RemoveArchive => if platform.is_posix() {
            InstallDecisionView::Perform(InstallStep::MarkExecutable)
        } else {
            InstallDecisionView::Finish(InstallOutcome::Installed)
        },
        InstallStep::MarkExecutable => match failure {
            Some(_) => InstallDecisionView::Abort(
                EngineErrorView::InstallerIoFailed("Failed to make steamcmd.sh executable"@),
            ),
            None => InstallDecisionView::Finish(InstallOutcome::Installed),
        },
    }
}

/// The view of an optional failure cause.
pub open spec fn cause_view(failure: Option<String>) -> Option<Seq<char>> {
    match failure {
        Some(c) => Some(c@),
        None => None,
    }
}

/// Starts `ensure-installed`. `launcher_present` says whether the launcher
/// binary exists in the install directory.
pub fn ensure_steamcmd(launcher_present: bool) -> (d: InstallDecision)
    ensures
        d@ == ensure_spec(launcher_present),
{
    if launcher_present {
        InstallDecision::Finish(InstallOutcome::AlreadyPresent)
    } else {
        InstallDecision::Perform(InstallStep::CreateDir)
    }
}

/// Continues an installation after `step` has been carried out. `failure`
/// is `None` if the step went through, and holds the cause if it did not.
pub fn install_steamcmd(platform: Platform, step: InstallStep, failure: Option<String>) -> (d:
    InstallDecision)
    ensures
        d@ == install_spec(platform, step, cause_view(failure)),
{
    match step {
        InstallStep::CreateDir => match failure {
            Some(cause) => InstallDecision::Abort(
                EngineError::InstallerIoFailed(
                    join2("Failed to create SteamCMD directory: ", cause.as_str()),
                ),
            ),
            None => InstallDecision::Perform(InstallStep::Download),
        },
        InstallStep::Download => match failure {
            Some(_) => InstallDecision::Abort(EngineError::InstallerDownloadFailed),
            None => InstallDecision::Perform(InstallStep::Extract),
        },
        InstallStep::Extract => match failure {
            Some(_) => InstallDecision::Abort(EngineError::InstallerExtractFailed),
            None => InstallDecision::Perform(InstallStep::RemoveArchive),
        },
        InstallStep::RemoveArchive => if platform.posix() {
            InstallDecision::Perform(InstallStep::MarkExecutable)
        } else {
            InstallDecision::Finish(InstallOutcome::Installed)
        },
        InstallStep::MarkExecutable => match failure {
            Some(_) => InstallDecision::Abort(
                EngineError::InstallerIoFailed(
                    String::from_str("Failed to make steamcmd.sh executable"),
                ),
            ),
            None => InstallDecision::Finish(InstallOutcome::Installed),
        },
    }
}

/// The place of a step in the order of an installation.
pub open spec fn rank(step: InstallStep) -> nat {
    match step {
        InstallStep::CreateDir => 0,
        InstallStep::Download => 1,
        InstallStep::Extract => 2,
        InstallStep::RemoveArchive => 3,
        InstallStep::MarkExecutable => 4,
    }
}

/// A whole run: the steps that were carried out, in order, and how it
/// ended.
pub struct InstallRun {
    pub steps: Seq<InstallStep>,
    pub end: Result<InstallOutcome, EngineErrorView>,
}

/// The run that starts with `step`, in a world where `world(s)` tells
/// whether step `s` fails, and why.
pub open spec fn run_from(
    platform: Platform,
    step: InstallStep,
    world: spec_fn(InstallStep) -> Option<Seq<char>>,
) -> InstallRun
    decreases 5 - rank(step),
{
    match install_spec(platform, step, world(step)) {
        InstallDecisionView::Perform(next) => {
            let rest = run_from(platform, next, world);
            InstallRun { steps: seq![step] + rest.steps, end: rest.end }
        },
        InstallDecisionView::Finish(outcome) => InstallRun { steps: seq![step], end: Ok(outcome) },
        InstallDecisionView::Abort(e) => InstallRun { steps: seq![step], end: Err(e) },
    }
}

/// The run of `ensure-installed`.
pub open spec fn ensure_run(
    platform: Platform,
    launcher_present: bool,
    world: spec_fn(InstallStep) -> Option<Seq<char>>,
) -> InstallRun {
    match ensure_spec(launcher_present) {
        InstallDecisionView::Perform(first) => run_from(platform, first, world),
        InstallDecisionView::Finish(outcome) => InstallRun { steps: Seq::empty(), end: Ok(outcome) },
        InstallDecisionView::Abort(e) => InstallRun { steps: Seq::empty(), end: Err(e) },
    }
}

/// The steps of a complete installation on `platform`.
pub open spec fn full_plan(platform: Platform) -> Seq<InstallStep> {
    if platform.is_posix() {
        seq![
            InstallStep::CreateDir,
            InstallStep::Download,
            InstallStep::Extract,
            InstallStep::RemoveArchive,
            InstallStep::MarkExecutable,
        ]
    } else {
        seq![
            InstallStep::CreateDir,
            InstallStep::Download,
            InstallStep::Extract,
            InstallStep::RemoveArchive,
        ]
    }
}

/// Every decision moves forward in the order of the steps.
pub proof fn lemma_install_moves_forward(
    platform: Platform,
    step: InstallStep,
    failure: Option<Seq<char>>,
)
    ensures
        install_spec(platform, step, failure) matches InstallDecisionView::Perform(next) ==> rank(
            next,
        ) == rank(step) + 1,
{
}

/// With the launcher present, `ensure-installed` carries out no step at all:
/// nothing is downloaded, however often it is called.
pub proof fn lemma_present_needs_no_work(
    platform: Platform,
    world: spec_fn(InstallStep) -> Option<Seq<char>>,
)
    ensures
        ensure_run(platform, true, world).steps == Seq::<InstallStep>::empty(),
        ensure_run(platform, true, world).end == Ok::<InstallOutcome, EngineErrorView>(
            InstallOutcome::AlreadyPresent,
        ),
{
}

/// `ensure-installed` reports `Installed` only after the whole plan was
/// carried out, with the directory created, the archive downloaded and
/// unpacked, and, on a POSIX platform, the launcher marked executable.
pub proof fn lemma_installed_means_plan_done(
    platform: Platform,
    launcher_present: bool,
    world: spec_fn(InstallStep) -> Option<Seq<char>>,
)
    requires
        ensure_run(platform, launcher_present, world).end == Ok::<InstallOutcome, EngineErrorView>(
            InstallOutcome::Installed,
        ),
    ensures
        !launcher_present,
        ensure_run(platform, launcher_present, world).steps == full_plan(platform),
        world(InstallStep::CreateDir) is None,
        world(InstallStep::Download) is None,
        world(InstallStep::Extract) is None,
        platform.is_posix() ==> world(InstallStep::MarkExecutable) is None,
{
    reveal_with_fuel(run_from, 6);
    assert(ensure_run(platform, launcher_present, world).steps =~= full_plan(platform));
}

/// An installation goes through whenever no step fails but, at most, the
/// removal of the archive.
pub proof fn lemma_install_succeeds(
    platform: Platform,
    world: spec_fn(InstallStep) -> Option<Seq<char>>,
)
    requires
        world(InstallStep::CreateDir) is None,
        world(InstallStep::Download) is None,
        world(InstallStep::Extract) is None,
        platform.is_posix() ==> world(InstallStep::MarkExecutable) is None,
    ensures
        ensure_run(platform, false, world).end == Ok::<InstallOutcome, EngineErrorView>(
            InstallOutcome::Installed,
        ),
        ensure_run(platform, false, world).steps == full_plan(platform),
{
    reveal_with_fuel(run_from, 6);
    assert(ensure_run(platform, false, world).steps =~= full_plan(platform));
}

/// A failed download ends the run at once: nothing is unpacked.
pub proof fn lemma_download_failure_stops(
    platform: Platform,
    world: spec_fn(InstallStep) -> Option<Seq<char>>,
)
    requires
        world(InstallStep::CreateDir) is None,
        world(InstallStep::Download) is Some,
    ensures
        ensure_run(platform, false, world).end == Err::<InstallOutcome, EngineErrorView>(
            EngineErrorView::InstallerDownloadFailed,
        ),
        ensure_run(platform, false, world).steps == seq![
            InstallStep::CreateDir,
            InstallStep::Download,
        ],
{
    reveal_with_fuel(run_from, 3);
    assert(ensure_run(platform, false, world).steps =~= seq![
        InstallStep::CreateDir,
        InstallStep::Download,
    ]);
}

/// `ensure-installed` reports `AlreadyPresent` only where the launcher was
/// found on disk, and then without having carried out any step.
pub proof fn lemma_already_present_means_found(
    platform: Platform,
    launcher_present: bool,
    world: spec_fn(InstallStep) -> Option<Seq<char>>,
)
    requires
        ensure_run(platform, launcher_present, world).end == Ok::<InstallOutcome, EngineErrorView>(
            InstallOutcome::AlreadyPresent,
        ),
    ensures
        launcher_present,
        ensure_run(platform, launcher_present, world).steps == Seq::<InstallStep>::empty(),
{
    reveal_with_fuel(run_from, 6);
}

} // verus!
