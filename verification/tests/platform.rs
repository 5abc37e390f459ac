use steamcmd_engine::platform::{
    archive_filename, artifact_for, install_dir_name, launcher_filename, store_file_name,
    LauncherArtifact, Platform,
};

#[test]
fn windows_artifact() {
    assert_eq!(
        artifact_for(Platform::Windows),
        LauncherArtifact {
            archive_url: "https://steamcdn-a.akamaihd.net/client/installer/steamcmd.zip"
                .to_string(),
            archive_filename: "steamcmd.zip".to_string(),
            launcher_filename: "steamcmd.exe".to_string(),
            needs_chmod: false,
        }
    );
}

#[test]
fn linux_artifact() {
    assert_eq!(
        artifact_for(Platform::Linux),
        LauncherArtifact {
            archive_url: "https://steamcdn-a.akamaihd.net/client/installer/steamcmd_linux.tar.gz"
                .to_string(),
            archive_filename: "steamcmd_linux.tar.gz".to_string(),
            launcher_filename: "steamcmd.sh".to_string(),
            needs_chmod: true,
        }
    );
}

#[test]
fn macos_artifact() {
    assert_eq!(
        artifact_for(Platform::Macos),
        LauncherArtifact {
            archive_url: "https://steamcdn-a.akamaihd.net/client/installer/steamcmd_osx.tar.gz"
                .to_string(),
            archive_filename: "steamcmd_osx.tar.gz".to_string(),
            launcher_filename: "steamcmd.sh".to_string(),
            needs_chmod: true,
        }
    );
}

#[test]
fn the_artifact_is_a_function_of_the_platform() {
    for p in [Platform::Windows, Platform::Linux, Platform::Macos] {
        assert_eq!(artifact_for(p), artifact_for(p));
        assert_eq!(artifact_for(p).archive_filename, archive_filename(p));
        assert_eq!(artifact_for(p).launcher_filename, launcher_filename(p));
        assert_eq!(artifact_for(p).needs_chmod, p.posix());
    }
}

#[test]
fn each_platform_has_an_archive_of_its_own() {
    let names = [
        archive_filename(Platform::Windows),
        archive_filename(Platform::Linux),
        archive_filename(Platform::Macos),
    ];
    assert_ne!(names[0], names[1]);
    assert_ne!(names[0], names[2]);
    assert_ne!(names[1], names[2]);
}

#[test]
fn only_windows_is_not_posix() {
    assert!(!Platform::Windows.posix());
    assert!(Platform::Linux.posix());
    assert!(Platform::Macos.posix());
}

#[test]
fn names_on_disk() {
    assert_eq!(install_dir_name(), "steamcmd");
    assert_eq!(store_file_name(), "steam.db");
}
