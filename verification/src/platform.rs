//! Host platforms and the launcher artifact that belongs to each.

use vstd::prelude::*;
use vstd::string::*;
use crate::text::join2;

verus! {

/// The operating systems for which the vendor publishes a launcher.
#[derive(Clone, Copy, Debug, PartialEq, Eq, Structural)]
pub enum Platform {
    Windows,
    Linux,
    Macos,
}

impl Platform {
    /// Whether the platform follows POSIX file permissions, so that the
    /// launcher needs its execute bit set after extraction.
    pub open spec fn is_posix(self) -> bool {
        self != Platform::Windows
    }

    #[verifier::when_used_as_spec(is_posix)]
    pub fn posix(self) -> (b: bool)
        ensures
            b == self.is_posix(),
    {
        match self {
            Platform::Windows => false,
            Platform::Linux => true,
            Platform::Macos => true,
        }
    }
}

/// What has to be fetched and unpacked to install the launcher.
#[derive(Debug, PartialEq, Eq)]
pub struct LauncherArtifact {
    /// Where the archive is downloaded from.
    pub archive_url: String,
    /// The archive's file name inside the install directory.
    pub archive_filename: String,
    /// The launcher's file name inside the install directory.
    pub launcher_filename: String,
    /// Whether the launcher must be marked executable after extraction.
    pub needs_chmod: bool,
}

/// The mathematical value of a [`LauncherArtifact`].
pub struct LauncherArtifactView {
    pub archive_url: Seq<char>,
    pub archive_filename: Seq<char>,
    pub launcher_filename: Seq<char>,
    pub needs_chmod: bool,
}

impl View for LauncherArtifact {
    type V = LauncherArtifactView;

    open spec fn view(&self) -> LauncherArtifactView {
        LauncherArtifactView {
            archive_url: self.archive_url@,
            archive_filename: self.archive_filename@,
            launcher_filename: self.launcher_filename@,
            needs_chmod: self.needs_chmod,
        }
    }
}

/// The directory of the vendor's content-delivery network that holds the
/// launcher archives.
pub open spec fn cdn_base() -> Seq<char> {
    "https://steamcdn-a.akamaihd.net/client/installer/"@
}

/// The file name of the launcher archive for `platform`.
pub open spec fn archive_filename_spec(platform: Platform) -> Seq<char> {
    match platform {
        Platform::Windows => "steamcmd.zip"@,
        Platform::Linux => "steamcmd_linux.tar.gz"@,
        Platform::Macos => "steamcmd_osx.tar.gz"@,
    }
}

/// The file name of the launcher for `platform`.
pub open spec fn launcher_filename_spec(platform: Platform) -> Seq<char> {
    match platform {
        Platform::Windows => "steamcmd.exe"@,
        Platform::Linux => "steamcmd.sh"@,
        Platform::Macos => "steamcmd.sh"@,
    }
}

/// The platform matrix.
pub open spec fn artifact_spec(platform: Platform) -> LauncherArtifactView {
    LauncherArtifactView {
        archive_url: cdn_base() + archive_filename_spec(platform),
        archive_filename: archive_filename_spec(platform),
        launcher_filename: launcher_filename_spec(platform),
        needs_chmod: platform.is_posix(),
    }
}

/// The file name of the launcher archive for `platform`.
pub fn archive_filename(platform: Platform) -> (name: &'static str)
    ensures
        name@ == archive_filename_spec(platform),
{
    match platform {
        Platform::Windows => "steamcmd.zip",
        Platform::Linux => "steamcmd_linux.tar.gz",
        Platform::Macos => "steamcmd_osx.tar.gz",
    }
}

/// The file name of the launcher for `platform`.
pub fn launcher_filename(platform: Platform) -> (name: &'static str)
    ensures
        name@ == launcher_filename_spec(platform),
{
    match platform {
        Platform::Windows => "steamcmd.exe",
        Platform::Linux => "steamcmd.sh",
        Platform::Macos => "steamcmd.sh",
    }
}

/// The launcher artifact for `platform`.
pub fn artifact_for(platform: Platform) -> (artifact: LauncherArtifact)
    ensures
        artifact@ == artifact_spec(platform),
{
    let archive = archive_filename(platform);
    LauncherArtifact {
        archive_url: join2("https://steamcdn-a.akamaihd.net/client/installer/", archive),
        archive_filename: String::from_str(archive),
        launcher_filename: String::from_str(launcher_filename(platform)),
        needs_chmod: platform.posix(),
    }
}

/// The name of the install directory, a child of the directory that holds
/// the host executable.
pub fn install_dir_name() -> (name: &'static str)
    ensures
        name@ == "steamcmd"@,
{
    "steamcmd"
}

/// The name of the credential store's file, in the directory that holds the
/// host executable.
pub fn store_file_name() -> (name: &'static str)
    ensures
        name@ == "steam.db"@,
{
    "steam.db"
}

/// Each platform has an archive of its own: the archive's name tells the
/// platform, and so does the address it is fetched from.
pub proof fn lemma_archive_tells_platform(p: Platform, q: Platform)
    requires
        artifact_spec(p).archive_filename == artifact_spec(q).archive_filename
            || artifact_spec(p).archive_url == artifact_spec(q).archive_url,
    ensures
        p == q,
{
    reveal_strlit("steamcmd.zip");
    reveal_strlit("steamcmd_linux.tar.gz");
    reveal_strlit("steamcmd_osx.tar.gz");
    let a = archive_filename_spec(p);
    let b = archive_filename_spec(q);
    assert((cdn_base() + a).len() == cdn_base().len() + a.len());
    assert((cdn_base() + b).len() == cdn_base().len() + b.len());
}

} // verus!
