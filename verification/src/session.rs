//! The launch session: the immutable configuration of a launch attempt
//! and the stage gate over version resolution. A failed resolution bars
//! every later stage, so no download is planned after it.

use vstd::prelude::*;
use crate::errors::LauncherError;
use crate::fetch::FetchTarget;
use crate::manifest::VersionManifest;
use crate::paths::client_jar_path;
use crate::platform::{Os, path_sep_char};
use crate::text::str_eq;

verus! {

/// The pinned versions and endpoints of one launch attempt, passed in
/// explicitly so the core can be exercised against mock endpoints.
#[derive(Clone, Debug)]
pub struct LauncherConfig {
    pub minecraft_version: String,
    pub fabric_loader_version: String,
    pub version_manifest_url: String,
    pub fabric_meta_base: String,
    pub resource_host: String,
    pub default_maven_base: String,
    pub api_base: String,
}

/// The configuration the launcher ships with: the pinned version triad
/// and the production endpoints.
pub fn default_config() -> (r: LauncherConfig)
    ensures
        r.minecraft_version@ == "1.20.4"@,
        r.fabric_loader_version@ == "0.16.9"@,
        r.version_manifest_url@
            == "https://piston-meta.mojang.com/mc/game/version_manifest_v2.json"@,
        r.fabric_meta_base@ == "https://meta.fabricmc.net/v2"@,
        r.resource_host@ == "https://resources.download.minecraft.net"@,
        r.default_maven_base@ == "https://maven.fabricmc.net/"@,
        r.api_base@ == "http://api.hegemonia.net/api"@,
{
    LauncherConfig {
        minecraft_version: "1.20.4".to_owned(),
        fabric_loader_version: "0.16.9".to_owned(),
        version_manifest_url: "https://piston-meta.mojang.com/mc/game/version_manifest_v2.json".to_owned(),
        fabric_meta_base: "https://meta.fabricmc.net/v2".to_owned(),
        resource_host: "https://resources.download.minecraft.net".to_owned(),
        default_maven_base: "https://maven.fabricmc.net/".to_owned(),
        api_base: "http://api.hegemonia.net/api".to_owned(),
    }
}

/// Where a launch attempt stands.
#[derive(Clone, Copy, PartialEq, Eq, Structural, Debug)]
pub enum LaunchStage {
    /// Nothing resolved yet; the manifest fetch is owed.
    Created,
    /// The pinned version was found; its metadata URL is at hand.
    VersionResolved,
    /// Resolution failed; every later stage is barred.
    Failed,
}

/// One launch attempt: its configuration and its stage.
pub struct LaunchSession {
    pub config: LauncherConfig,
    pub stage: LaunchStage,
    pub metadata_url: Option<String>,
}

impl LaunchSession {
    /// Opens a session over `config`.
    pub fn new(config: LauncherConfig) -> (r: Self)
        ensures
            r.stage == LaunchStage::Created,
            r.metadata_url is None,
            r.config.minecraft_version@ == config.minecraft_version@,
            r.config.fabric_loader_version@ == config.fabric_loader_version@,
            r.config.version_manifest_url@ == config.version_manifest_url@,
            r.config.fabric_meta_base@ == config.fabric_meta_base@,
            r.config.resource_host@ == config.resource_host@,
            r.config.default_maven_base@ == config.default_maven_base@,
            r.config.api_base@ == config.api_base@,
    {
        LaunchSession { config, stage: LaunchStage::Created, metadata_url: None }
    }

    /// Resolves the pinned version against the fetched manifest: the
    /// first entry whose id matches decides. An absent version fails
    /// the session with `VersionNotFound`, and no later stage — hence
    /// no content download — can begin.
    pub fn on_manifest(&mut self, manifest: &VersionManifest) -> (r: Result<usize, LauncherError>)
        requires
            old(self).stage == LaunchStage::Created,
            old(self).metadata_url is None,
        ensures
            final(self).config == old(self).config,
            match r {
                Ok(i) => {
                    &&& final(self).stage == LaunchStage::VersionResolved
                    &&& i < manifest.versions@.len()
                    &&& manifest.versions@[i as int].id@ == old(self).config.minecraft_version@
                    &&& forall|j: int|
                        0 <= j < i ==> manifest.versions@[j].id@ != old(
                            self,
                        ).config.minecraft_version@
                    &&& final(self).metadata_url matches Some(u) && u@ == manifest.versions@[
                        i as int
                    ].url@
                },
                Err(e) => {
                    &&& final(self).stage == LaunchStage::Failed
                    &&& final(self).metadata_url is None
                    &&& e matches LauncherError::VersionNotFound(id) && id@ == old(
                        self,
                    ).config.minecraft_version@
                    &&& forall|j: int|
                        0 <= j < manifest.versions@.len() ==> manifest.versions@[j].id@ != old(
                            self,
                        ).config.minecraft_version@
                },
            },
    {
        let mut i: usize = 0;
        while i < manifest.versions.len()
            invariant
                i <= manifest.versions.len(),
                forall|j: int|
                    0 <= j < i ==> manifest.versions@[j].id@ != self.config.minecraft_version@,
                self.stage == old(self).stage,
                self.metadata_url == old(self).metadata_url,
                self.config == old(self).config,
            decreases manifest.versions.len() - i,
        {
            if str_eq(manifest.versions[i].id.as_str(), self.config.minecraft_version.as_str()) {
                self.stage = LaunchStage::VersionResolved;
                self.metadata_url = Some(manifest.versions[i].url.clone());
                return Ok(i);
            }
            i += 1;
        }
        self.stage = LaunchStage::Failed;
        Err(LauncherError::VersionNotFound(self.config.minecraft_version.clone()))
    }

    /// The client binary transfer, addressed as `versions/<id>.jar`;
    /// owed only once the version is resolved.
    pub fn client_fetch_target(&self, versions_dir: &str, client_url: &str, os: Os) -> (r:
        FetchTarget)
        requires
            self.stage == LaunchStage::VersionResolved,
        ensures
            r.url@ == client_url@,
            r.dest@ == versions_dir@ + seq![path_sep_char(os)] + self.config.minecraft_version@
                + ".jar"@,
    {
        FetchTarget {
            url: client_url.to_owned(),
            dest: client_jar_path(versions_dir, self.config.minecraft_version.as_str(), os),
        }
    }
}

/// Whether the game files are ready to launch: the client archive is on
/// disk and at least one mod is installed.
pub fn game_ready(client_exists: bool, mods_present: bool) -> (r: bool)
    ensures
        r == (client_exists && mods_present),
{
    client_exists && mods_present
}

} // verus!
