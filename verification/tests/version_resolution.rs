use hegemonia_launcher::errors::LauncherError;
use hegemonia_launcher::manifest::{VersionEntry, VersionManifest, find_version};
use hegemonia_launcher::platform::Os;
use hegemonia_launcher::session::{LaunchSession, LaunchStage, default_config, game_ready};

fn manifest_with(ids: &[(&str, &str)]) -> VersionManifest {
    VersionManifest {
        versions: ids
            .iter()
            .map(|(id, url)| VersionEntry { id: id.to_string(), url: url.to_string() })
            .collect(),
    }
}

#[test]
fn pinned_version_is_found() {
    let m = manifest_with(&[("1.20.3", "https://m/3.json"), ("1.20.4", "https://m/4.json")]);
    assert_eq!(find_version(&m, "1.20.4"), Some(1));
    let mut session = LaunchSession::new(default_config());
    let i = session.on_manifest(&m).unwrap();
    assert_eq!(i, 1);
    assert_eq!(session.stage, LaunchStage::VersionResolved);
    assert_eq!(session.metadata_url.as_deref(), Some("https://m/4.json"));
    let target = session.client_fetch_target("/g/versions", "https://dl/client.jar", Os::Linux);
    assert_eq!(target.url, "https://dl/client.jar");
    assert_eq!(target.dest, "/g/versions/1.20.4.jar");
}

#[test]
fn absent_pinned_version_fails_without_downloads() {
    // the manifest lists only 1.20.3 while the launcher pins 1.20.4
    let m = manifest_with(&[("1.20.3", "https://m/3.json")]);
    assert_eq!(find_version(&m, "1.20.4"), None);
    let mut session = LaunchSession::new(default_config());
    let err = session.on_manifest(&m).unwrap_err();
    match err {
        LauncherError::VersionNotFound(id) => assert_eq!(id, "1.20.4"),
        other => panic!("unexpected error: {}", other.message()),
    }
    // the session is failed: no later stage, hence no download, begins
    assert_eq!(session.stage, LaunchStage::Failed);
    assert!(session.metadata_url.is_none());
}

#[test]
fn first_matching_entry_wins() {
    let m = manifest_with(&[("1.20.4", "https://m/first.json"), ("1.20.4", "https://m/dup.json")]);
    assert_eq!(find_version(&m, "1.20.4"), Some(0));
}

#[test]
fn default_configuration_is_pinned() {
    let c = default_config();
    assert_eq!(c.minecraft_version, "1.20.4");
    assert_eq!(c.fabric_loader_version, "0.16.9");
    assert_eq!(
        c.version_manifest_url,
        "https://piston-meta.mojang.com/mc/game/version_manifest_v2.json"
    );
    assert_eq!(c.fabric_meta_base, "https://meta.fabricmc.net/v2");
    assert_eq!(c.resource_host, "https://resources.download.minecraft.net");
    assert_eq!(c.default_maven_base, "https://maven.fabricmc.net/");
    assert_eq!(c.api_base, "http://api.hegemonia.net/api");
}

#[test]
fn error_messages() {
    assert_eq!(
        LauncherError::VersionNotFound("1.20.4".to_string()).message(),
        "Version 1.20.4 not found"
    );
    assert_eq!(LauncherError::HttpStatus(404).message(), "HTTP error: 404");
    assert_eq!(
        LauncherError::Network("timed out".to_string()).message(),
        "Download failed: timed out"
    );
    assert_eq!(LauncherError::EarlyCrash.message(), "Game exited during startup");
}

#[test]
fn game_ready_needs_client_and_mods() {
    assert!(game_ready(true, true));
    assert!(!game_ready(true, false));
    assert!(!game_ready(false, true));
    assert!(!game_ready(false, false));
}

#[test]
fn remaining_error_messages() {
    assert_eq!(
        LauncherError::Parse("bad json".to_string()).message(),
        "Failed to parse: bad json"
    );
    assert_eq!(
        LauncherError::Filesystem("denied".to_string()).message(),
        "Filesystem error: denied"
    );
    assert_eq!(
        LauncherError::RuntimeProvisioning("no runtime".to_string()).message(),
        "Runtime provisioning failed: no runtime"
    );
    assert_eq!(
        LauncherError::ProcessSpawn("not found".to_string()).message(),
        "Failed to start process: not found"
    );
}
