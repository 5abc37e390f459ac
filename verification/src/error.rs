//! The errors that the engine's commands report, and the text shown for each.

use vstd::prelude::*;
use vstd::string::*;

verus! {

/// Why a command of the engine failed.
///
/// A variant with a `String` carries the complete human-readable detail; the
/// others have one fixed text each.
#[derive(Debug, PartialEq, Eq)]
pub enum EngineError {
    /// The launcher archive could not be downloaded.
    InstallerDownloadFailed,
    /// The launcher archive could not be unpacked.
    InstallerExtractFailed,
    /// The install directory could not be prepared, or the launcher could
    /// not be marked executable.
    InstallerIoFailed(String),
    /// The launcher is not on disk.
    LauncherMissing,
    /// Another session is live.
    Busy,
    /// The game has no build for the host platform.
    PlatformUnsupported,
    /// The account does not own the game.
    NoSubscription,
    /// The update did not go through.
    UpdateFailed(String),
    /// The launcher rejected user name or password.
    CredentialInvalid,
    /// The launcher asks for a one-time code and none was given.
    GuardRequired,
    /// The launcher rejected the one-time code.
    GuardInvalid,
    /// Signing in failed for another reason.
    AuthFailed(String),
    /// The credential store could not be read or written.
    StoreIoFailed(String),
}

/// The mathematical value of an [`EngineError`].
pub enum EngineErrorView {
    InstallerDownloadFailed,
    InstallerExtractFailed,
    InstallerIoFailed(Seq<char>),
    LauncherMissing,
    Busy,
    PlatformUnsupported,
    NoSubscription,
    UpdateFailed(Seq<char>),
    CredentialInvalid,
    GuardRequired,
    GuardInvalid,
    AuthFailed(Seq<char>),
    StoreIoFailed(Seq<char>),
}

impl View for EngineError {
    type V = EngineErrorView;

    open spec fn view(&self) -> EngineErrorView {
        match *self {
            EngineError::InstallerDownloadFailed => EngineErrorView::InstallerDownloadFailed,
            EngineError::InstallerExtractFailed => EngineErrorView::InstallerExtractFailed,
            EngineError::InstallerIoFailed(d) => EngineErrorView::InstallerIoFailed(d@),
            EngineError::LauncherMissing => EngineErrorView::LauncherMissing,
            EngineError::Busy => EngineErrorView::Busy,
            EngineError::PlatformUnsupported => EngineErrorView::PlatformUnsupported,
            EngineError::NoSubscription => EngineErrorView::NoSubscription,
            EngineError::UpdateFailed(d) => EngineErrorView::UpdateFailed(d@),
            EngineError::CredentialInvalid => EngineErrorView::CredentialInvalid,
            EngineError::GuardRequired => EngineErrorView::GuardRequired,
            EngineError::GuardInvalid => EngineErrorView::GuardInvalid,
            EngineError::AuthFailed(d) => EngineErrorView::AuthFailed(d@),
            EngineError::StoreIoFailed(d) => EngineErrorView::StoreIoFailed(d@),
        }
    }
}

impl EngineErrorView {
    /// The text shown to the user for this error.
    pub open spec fn message(self) -> Seq<char> {
        match self {
            EngineErrorView::InstallerDownloadFailed => "Failed to download SteamCMD"@,
            EngineErrorView::InstallerExtractFailed => "Failed to extract SteamCMD"@,
            EngineErrorView::InstallerIoFailed(d) => d,
            EngineErrorView::LauncherMissing => "SteamCMD not found"@,
            EngineErrorView::Busy => "Another SteamCMD session is already running"@,
            EngineErrorView::PlatformUnsupported => "This game is not available for your platform"@,
            EngineErrorView::NoSubscription => "You don't have access to this game"@,
            EngineErrorView::UpdateFailed(d) => d,
            EngineErrorView::CredentialInvalid => "Invalid username or password"@,
            EngineErrorView::GuardRequired => "Steam Guard code required"@,
            EngineErrorView::GuardInvalid => "Invalid Steam Guard code"@,
            EngineErrorView::AuthFailed(d) => d,
            EngineErrorView::StoreIoFailed(d) => d,
        }
    }
}

impl EngineError {
    /// The text shown to the user for this error.
    pub fn message(&self) -> (text: String)
        ensures
            text@ == self@.message(),
    {
        match self {
            EngineError::InstallerDownloadFailed => String::from_str("Failed to download SteamCMD"),
            EngineError::InstallerExtractFailed => String::from_str("Failed to extract SteamCMD"),
            EngineError::InstallerIoFailed(d) => d.clone(),
            EngineError::LauncherMissing => String::from_str("SteamCMD not found"),
            EngineError::Busy => String::from_str("Another SteamCMD session is already running"),
            EngineError::PlatformUnsupported => String::from_str(
                "This game is not available for your platform",
            ),
            EngineError::NoSubscription => String::from_str("You don't have access to this game"),
            EngineError::UpdateFailed(d) => d.clone(),
            EngineError::CredentialInvalid => String::from_str("Invalid username or password"),
            EngineError::GuardRequired => String::from_str("Steam Guard code required"),
            EngineError::GuardInvalid => String::from_str("Invalid Steam Guard code"),
            EngineError::AuthFailed(d) => d.clone(),
            EngineError::StoreIoFailed(d) => d.clone(),
        }
    }
}

/// The mathematical value of a command's result: the status text, or the
/// error.
pub open spec fn outcome_view(r: Result<String, EngineError>) -> Result<Seq<char>, EngineErrorView> {
    match r {
        Ok(text) => Ok(text@),
        Err(e) => Err(e@),
    }
}

impl Clone for EngineError {
    fn clone(&self) -> (copy: Self)
        ensures
            copy == *self,
    {
        match self {
            EngineError::InstallerDownloadFailed => EngineError::InstallerDownloadFailed,
            EngineError::InstallerExtractFailed => EngineError::InstallerExtractFailed,
            EngineError::InstallerIoFailed(d) => EngineError::InstallerIoFailed(d.clone()),
            EngineError::LauncherMissing => EngineError::LauncherMissing,
            EngineError::Busy => EngineError::Busy,
            EngineError::PlatformUnsupported => EngineError::PlatformUnsupported,
            EngineError::NoSubscription => EngineError::NoSubscription,
            EngineError::UpdateFailed(d) => EngineError::UpdateFailed(d.clone()),
            EngineError::CredentialInvalid => EngineError::CredentialInvalid,
            EngineError::GuardRequired => EngineError::GuardRequired,
            EngineError::GuardInvalid => EngineError::GuardInvalid,
            EngineError::AuthFailed(d) => EngineError::AuthFailed(d.clone()),
            EngineError::StoreIoFailed(d) => EngineError::StoreIoFailed(d.clone()),
        }
    }
}

} // verus!
