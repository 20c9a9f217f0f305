//! The modpack: its manifest data model, the built-in fallback manifest
//! used when the pack API is unreachable, the mod download plan and the
//! installation status report.

use vstd::prelude::*;
use crate::fetch::{FetchTarget, missing_indices};
use crate::paths::join_path;
use crate::platform::{Os, path_sep_char};

verus! {

/// One mod of the pack: identity, artifact file name, download source
/// and integrity fields.
#[derive(Clone, Debug)]
pub struct ModInfo {
    pub id: String,
    pub name: String,
    pub version: String,
    pub file_name: String,
    pub url: Option<String>,
    pub sha256: String,
    pub size: u64,
    pub required: bool,
}

/// The pack's resource pack, when it ships one.
#[derive(Clone, Debug)]
pub struct ResourcePackInfo {
    pub name: String,
    pub version: String,
    pub file_name: String,
    pub url: Option<String>,
    pub sha256: String,
    pub size: u64,
}

/// The modpack manifest: pinned versions and the mods to install.
#[derive(Clone, Debug)]
pub struct HegemoniaPack {
    pub version: String,
    pub minecraft_version: String,
    pub fabric_version: String,
    pub mods: Vec<ModInfo>,
    pub resource_pack: Option<ResourcePackInfo>,
}

/// What is already installed on the host, and whether an update is due.
#[derive(Clone, Debug)]
pub struct InstallationStatus {
    pub minecraft_installed: bool,
    pub fabric_installed: bool,
    pub mods_installed: bool,
    pub mods_outdated: Vec<String>,
    pub resource_pack_installed: bool,
    pub needs_update: bool,
}

/// The record written beside the installed pack describing what was
/// installed and when.
#[derive(Clone, Debug)]
pub struct VersionFileInfo {
    pub pack_version: String,
    pub minecraft_version: String,
    pub fabric_version: String,
    pub installed_at: String,
    pub mods_installed: u64,
}

fn mk_mod(id: &str, name: &str, version: &str, file_name: &str, url: &str, size: u64) -> (r:
    ModInfo)
    ensures
        r.id@ == id@,
        r.name@ == name@,
        r.version@ == version@,
        r.file_name@ == file_name@,
        r.url matches Some(u) && u@ == url@,
        r.sha256@ == Seq::<char>::empty(),
        r.size == size,
        r.required == true,
{
    ModInfo {
        id: id.to_owned(),
        name: name.to_owned(),
        version: version.to_owned(),
        file_name: file_name.to_owned(),
        url: Some(url.to_owned()),
        sha256: String::new(),
        size,
        required: true,
    }
}

/// The built-in manifest used when the pack API cannot be reached: the
/// pinned version triad and the six required mods.
pub fn get_fallback_manifest() -> (r: HegemoniaPack)
    ensures
        r.version@ == "1.0.0"@,
        r.minecraft_version@ == "1.20.4"@,
        r.fabric_version@ == "0.16.9"@,
        r.resource_pack is None,
        r.mods@.len() == 6,
        r.mods@[0].id@ == "fabric-api"@ && r.mods@[0].name@ == "Fabric API"@ && r.mods@[0].version@
            == "0.92.0+1.20.4"@ && r.mods@[0].file_name@ == "fabric-api-0.92.0+1.20.4.jar"@
            && (r.mods@[0].url matches Some(u) && u@
            == "https://cdn.modrinth.com/data/P7dR8mSH/versions/P7uGFii0/fabric-api-0.92.0%2B1.20.4.jar"@)
            && r.mods@[0].sha256@ == Seq::<char>::empty() && r.mods@[0].size == 2134567 && r.mods@[0].required,
        r.mods@[1].id@ == "sodium"@ && r.mods@[1].name@ == "Sodium"@ && r.mods@[1].version@
            == "0.5.8+mc1.20.4"@ && r.mods@[1].file_name@ == "sodium-fabric-0.5.8+mc1.20.4.jar"@
            && (r.mods@[1].url matches Some(u) && u@
            == "https://cdn.modrinth.com/data/AANobbMI/versions/b4hTi3mo/sodium-fabric-0.5.8%2Bmc1.20.4.jar"@)
            && r.mods@[1].sha256@ == Seq::<char>::empty() && r.mods@[1].size == 1876234 && r.mods@[1].required,
        r.mods@[2].id@ == "lithium"@ && r.mods@[2].name@ == "Lithium"@ && r.mods@[2].version@
            == "0.12.1+mc1.20.4"@ && r.mods@[2].file_name@
            == "lithium-fabric-mc1.20.4-0.12.1.jar"@ && (r.mods@[2].url matches Some(u) && u@
            == "https://cdn.modrinth.com/data/gvQqBUqZ/versions/nMhjKWVE/lithium-fabric-mc1.20.4-0.12.1.jar"@)
            && r.mods@[2].sha256@ == Seq::<char>::empty() && r.mods@[2].size == 598432 && r.mods@[2].required,
        r.mods@[3].id@ == "modmenu"@ && r.mods@[3].name@ == "Mod Menu"@ && r.mods@[3].version@
            == "9.0.0"@ && r.mods@[3].file_name@ == "modmenu-9.0.0.jar"@ && (r.mods@[3].url
            matches Some(u) && u@
            == "https://cdn.modrinth.com/data/mOgUt4GM/versions/IYlsoQxR/modmenu-9.0.0.jar"@)
            && r.mods@[3].sha256@ == Seq::<char>::empty() && r.mods@[3].size == 342156 && r.mods@[3].required,
        r.mods@[4].id@ == "worldmap"@ && r.mods@[4].name@ == "Xaero's World Map"@ && r.mods@[
            4
        ].version@ == "1.37.8"@ && r.mods@[4].file_name@
            == "XaerosWorldMap_1.37.8_Fabric_1.20.4.jar"@ && (r.mods@[4].url matches Some(u)
            && u@
            == "https://cdn.modrinth.com/data/NcUtCpym/versions/hy3cqOH4/XaerosWorldMap_1.37.8_Fabric_1.20.4.jar"@)
            && r.mods@[4].sha256@ == Seq::<char>::empty() && r.mods@[4].size == 1023456 && r.mods@[4].required,
        r.mods@[5].id@ == "minimap"@ && r.mods@[5].name@ == "Xaero's Minimap"@ && r.mods@[
            5
        ].version@ == "24.0.3"@ && r.mods@[5].file_name@
            == "Xaeros_Minimap_24.0.3_Fabric_1.20.4.jar"@ && (r.mods@[5].url matches Some(u)
            && u@
            == "https://cdn.modrinth.com/data/1bokaNcj/versions/xnCFTkHC/Xaeros_Minimap_24.0.3_Fabric_1.20.4.jar"@)
            && r.mods@[5].sha256@ == Seq::<char>::empty() && r.mods@[5].size == 876543 && r.mods@[5].required,
{
    let mut mods: Vec<ModInfo> = Vec::new();
    mods.push(
        mk_mod(
            "fabric-api",
            "Fabric API",
            "0.92.0+1.20.4",
            "fabric-api-0.92.0+1.20.4.jar",
            "https://cdn.modrinth.com/data/P7dR8mSH/versions/P7uGFii0/fabric-api-0.92.0%2B1.20.4.jar",
            2134567,
        ),
    );
    mods.push(
        mk_mod(
            "sodium",
            "Sodium",
            "0.5.8+mc1.20.4",
            "sodium-fabric-0.5.8+mc1.20.4.jar",
            "https://cdn.modrinth.com/data/AANobbMI/versions/b4hTi3mo/sodium-fabric-0.5.8%2Bmc1.20.4.jar",
            1876234,
        ),
    );
    mods.push(
        mk_mod(
            "lithium",
            "Lithium",
            "0.12.1+mc1.20.4",
            "lithium-fabric-mc1.20.4-0.12.1.jar",
            "https://cdn.modrinth.com/data/gvQqBUqZ/versions/nMhjKWVE/lithium-fabric-mc1.20.4-0.12.1.jar",
            598432,
        ),
    );
    mods.push(
        mk_mod(
            "modmenu",
            "Mod Menu",
            "9.0.0",
            "modmenu-9.0.0.jar",
            "https://cdn.modrinth.com/data/mOgUt4GM/versions/IYlsoQxR/modmenu-9.0.0.jar",
            342156,
        ),
    );
    mods.push(
        mk_mod(
            "worldmap",
            "Xaero's World Map",
            "1.37.8",
            "XaerosWorldMap_1.37.8_Fabric_1.20.4.jar",
            "https://cdn.modrinth.com/data/NcUtCpym/versions/hy3cqOH4/XaerosWorldMap_1.37.8_Fabric_1.20.4.jar",
            1023456,
        ),
    );
    mods.push(
        mk_mod(
            "minimap",
            "Xaero's Minimap",
            "24.0.3",
            "Xaeros_Minimap_24.0.3_Fabric_1.20.4.jar",
            "https://cdn.modrinth.com/data/1bokaNcj/versions/xnCFTkHC/Xaeros_Minimap_24.0.3_Fabric_1.20.4.jar",
            876543,
        ),
    );
    HegemoniaPack {
        version: "1.0.0".to_owned(),
        minecraft_version: "1.20.4".to_owned(),
        fabric_version: "0.16.9".to_owned(),
        mods,
        resource_pack: None,
    }
}

/// Plans the mod downloads: one fetch target for each mod whose file is
/// absent, from its own URL where the manifest gives one, else from the
/// pack API.
pub fn plan_mod_downloads(
    mods: &Vec<ModInfo>,
    present: &Vec<bool>,
    mods_dir: &str,
    api_base: &str,
    os: Os,
) -> (r: Vec<FetchTarget>)
    requires
        mods.len() == present.len(),
    ensures
        r@.len() == missing_indices(present@).len(),
        forall|k: int|
            0 <= k < r@.len() ==> r@[k].url@ == (match mods@[missing_indices(present@)[k]].url {
                Some(u) => u@,
                None => api_base@ + "/modpack/mods/"@ + mods@[
                    missing_indices(present@)[k]
                ].file_name@,
            }),
        forall|k: int|
            0 <= k < r@.len() ==> r@[k].dest@ == mods_dir@ + seq![path_sep_char(os)] + mods@[
                missing_indices(present@)[k]
            ].file_name@,
{
    let mut r: Vec<FetchTarget> = Vec::new();
    let mut i: usize = 0;
    proof {
        assert(present@.take(0) =~= Seq::<bool>::empty());
    }
    while i < present.len()
        invariant
            i <= present.len(),
            mods.len() == present.len(),
            r@.len() == missing_indices(present@.take(i as int)).len(),
            forall|k: int|
                0 <= k < r@.len() ==> r@[k].url@ == (match mods@[
                    missing_indices(present@.take(i as int))[k]
                ].url {
                    Some(u) => u@,
                    None => api_base@ + "/modpack/mods/"@ + mods@[
                        missing_indices(present@.take(i as int))[k]
                    ].file_name@,
                }),
            forall|k: int|
                0 <= k < r@.len() ==> r@[k].dest@ == mods_dir@ + seq![path_sep_char(os)] + mods@[
                    missing_indices(present@.take(i as int))[k]
                ].file_name@,
        decreases present.len() - i,
    {
        proof {
            assert(present@.take(i as int + 1).drop_last() =~= present@.take(i as int));
            assert(present@.take(i as int + 1).last() == present@[i as int]);
        }
        if !present[i] {
            let url: String = match &mods[i].url {
                Some(u) => u.clone(),
                None => {
                    let mut out = api_base.to_owned();
                    out.append("/modpack/mods/");
                    out.append(mods[i].file_name.as_str());
                    proof {
                        assert(out@ =~= api_base@ + "/modpack/mods/"@ + mods@[
                            i as int
                        ].file_name@);
                    }
                    out
                },
            };
            let dest = join_path(mods_dir, os, mods[i].file_name.as_str());
            r.push(FetchTarget { url, dest });
        }
        i += 1;
    }
    proof {
        assert(present@.take(present.len() as int) =~= present@);
    }
    r
}

/// The transfer that installs the resource pack, from its own URL where
/// the manifest gives one, else from the pack API.
pub fn resource_pack_target(
    pack: &ResourcePackInfo,
    resourcepacks_dir: &str,
    api_base: &str,
    os: Os,
) -> (r: FetchTarget)
    ensures
        r.url@ == (match pack.url {
            Some(u) => u@,
            None => api_base@ + "/modpack/resourcepacks/"@ + pack.file_name@,
        }),
        r.dest@ == resourcepacks_dir@ + seq![path_sep_char(os)] + pack.file_name@,
{
    let url: String = match &pack.url {
        Some(u) => u.clone(),
        None => {
            let mut out = api_base.to_owned();
            out.append("/modpack/resourcepacks/");
            out.append(pack.file_name.as_str());
            proof {
                assert(out@ =~= api_base@ + "/modpack/resourcepacks/"@ + pack.file_name@);
            }
            out
        },
    };
    let dest = join_path(resourcepacks_dir, os, pack.file_name.as_str());
    FetchTarget { url, dest }
}

/// Assembles the installation status from the probed facts; an update is
/// due when mods or the resource pack are missing or any mod is
/// outdated.
pub fn installation_status(
    minecraft_installed: bool,
    fabric_installed: bool,
    mods_installed: bool,
    resource_pack_installed: bool,
    mods_outdated: Vec<String>,
) -> (r: InstallationStatus)
    ensures
        r.minecraft_installed == minecraft_installed,
        r.fabric_installed == fabric_installed,
        r.mods_installed == mods_installed,
        r.resource_pack_installed == resource_pack_installed,
        r.mods_outdated@ == mods_outdated@,
        r.needs_update == (!mods_installed || !resource_pack_installed || mods_outdated@.len()
            > 0),
{
    let needs_update = !mods_installed || !resource_pack_installed || mods_outdated.len() > 0;
    InstallationStatus {
        minecraft_installed,
        fabric_installed,
        mods_installed,
        mods_outdated,
        resource_pack_installed,
        needs_update,
    }
}

/// The fixed location of the mod-loader installer archive.
pub fn fabric_installer_url() -> (r: &'static str)
    ensures
        r@ == "https://maven.fabricmc.net/net/fabricmc/fabric-installer/1.0.1/fabric-installer-1.0.1.jar"@,
{
    "https://maven.fabricmc.net/net/fabricmc/fabric-installer/1.0.1/fabric-installer-1.0.1.jar"
}

/// The argument vector that runs the mod-loader installer against the
/// stock game directory for the pinned version pair.
pub fn fabric_installer_args(
    installer_path: &str,
    minecraft_dir: &str,
    mc_version: &str,
    loader_version: &str,
) -> (r: Vec<String>)
    ensures
        r@.len() == 10,
        r@[0]@ == "-jar"@,
        r@[1]@ == installer_path@,
        r@[2]@ == "client"@,
        r@[3]@ == "-dir"@,
        r@[4]@ == minecraft_dir@,
        r@[5]@ == "-mcversion"@,
        r@[6]@ == mc_version@,
        r@[7]@ == "-loader"@,
        r@[8]@ == loader_version@,
        r@[9]@ == "-noprofile"@,
{
    let mut r: Vec<String> = Vec::new();
    r.push("-jar".to_owned());
    r.push(installer_path.to_owned());
    r.push("client".to_owned());
    r.push("-dir".to_owned());
    r.push(minecraft_dir.to_owned());
    r.push("-mcversion".to_owned());
    r.push(mc_version.to_owned());
    r.push("-loader".to_owned());
    r.push(loader_version.to_owned());
    r.push("-noprofile".to_owned());
    r
}

/// The profile entry registered with the stock launcher so it starts
/// the modded version inside the pack's game directory.
#[derive(Clone, Debug)]
pub struct MinecraftProfileEntry {
    pub created: String,
    pub game_dir: String,
    pub icon: String,
    pub java_args: String,
    pub last_version_id: String,
    pub name: String,
    pub profile_type: String,
}

/// Relies on chrono's `Utc::now` and `DateTime::to_rfc3339`: the current
/// time rendered in RFC 3339 form. The clock decides the value, so
/// nothing is assumed of it.
#[verifier::external_body]
fn now_rfc3339() -> String {
    chrono::Utc::now().to_rfc3339()
}

/// The profile entry's field values, stamped with the current time;
/// `version_id` is the mod-loader profile's version identifier.
pub fn minecraft_profile_entry_now(game_dir: &str, version_id: &str) -> (r: MinecraftProfileEntry)
    ensures
        r.game_dir@ == game_dir@,
        r.icon@
            == "data:image/png;base64,iVBORw0KGgoAAAANSUhEUgAAAAEAAAABCAYAAAAfFcSJAAAADUlEQVR42mNk+M9QDwADhgGAWjR9awAAAABJRU5ErkJggg=="@,
        r.java_args@
            == "-Xmx4G -XX:+UnlockExperimentalVMOptions -XX:+UseG1GC -XX:G1NewSizePercent=20 -XX:G1ReservePercent=20 -XX:MaxGCPauseMillis=50 -XX:G1HeapRegionSize=32M"@,
        r.last_version_id@ == version_id@,
        r.name@ == "Hegemonia"@,
        r.profile_type@ == "custom"@,
{
    MinecraftProfileEntry {
        created: now_rfc3339(),
        game_dir: game_dir.to_owned(),
        icon: "data:image/png;base64,iVBORw0KGgoAAAANSUhEUgAAAAEAAAABCAYAAAAfFcSJAAAADUlEQVR42mNk+M9QDwADhgGAWjR9awAAAABJRU5ErkJggg==".to_owned(),
        java_args: "-Xmx4G -XX:+UnlockExperimentalVMOptions -XX:+UseG1GC -XX:G1NewSizePercent=20 -XX:G1ReservePercent=20 -XX:MaxGCPauseMillis=50 -XX:G1HeapRegionSize=32M".to_owned(),
        last_version_id: version_id.to_owned(),
        name: "Hegemonia".to_owned(),
        profile_type: "custom".to_owned(),
    }
}

/// The record to write beside the installed pack, stamped with the
/// current time.
pub fn version_file_info_now(pack: &HegemoniaPack, mods_installed: u64) -> (r: VersionFileInfo)
    ensures
        r.pack_version@ == pack.version@,
        r.minecraft_version@ == pack.minecraft_version@,
        r.fabric_version@ == pack.fabric_version@,
        r.mods_installed == mods_installed,
{
    let installed_at = now_rfc3339();
    VersionFileInfo {
        pack_version: pack.version.clone(),
        minecraft_version: pack.minecraft_version.clone(),
        fabric_version: pack.fabric_version.clone(),
        installed_at,
        mods_installed,
    }
}

} // verus!
