use hegemonia_launcher::modpack::{
    ModInfo, ResourcePackInfo, fabric_installer_args, fabric_installer_url,
    get_fallback_manifest, installation_status, minecraft_profile_entry_now, plan_mod_downloads,
    resource_pack_target, version_file_info_now,
};
use hegemonia_launcher::platform::Os;
use hegemonia_launcher::progress::{
    asset_stage_progress, fabric_stage_progress, library_stage_progress, make_progress,
};
use hegemonia_launcher::system::{make_minecraft_path, make_system_info, version_line};

#[test]
fn fallback_manifest_lists_the_required_mods() {
    let pack = get_fallback_manifest();
    assert_eq!(pack.version, "1.0.0");
    assert_eq!(pack.minecraft_version, "1.20.4");
    assert_eq!(pack.fabric_version, "0.16.9");
    assert!(pack.resource_pack.is_none());
    assert_eq!(pack.mods.len(), 6);
    let ids: Vec<&str> = pack.mods.iter().map(|m| m.id.as_str()).collect();
    assert_eq!(ids, ["fabric-api", "sodium", "lithium", "modmenu", "worldmap", "minimap"]);
    assert_eq!(pack.mods[0].file_name, "fabric-api-0.92.0+1.20.4.jar");
    assert_eq!(pack.mods[0].size, 2134567);
    assert!(pack.mods.iter().all(|m| m.required));
    assert!(pack.mods.iter().all(|m| m.url.is_some()));
    assert!(pack.mods.iter().all(|m| m.sha256.is_empty()));
    assert_eq!(
        pack.mods[5].url.as_deref(),
        Some("https://cdn.modrinth.com/data/1bokaNcj/versions/xnCFTkHC/Xaeros_Minimap_24.0.3_Fabric_1.20.4.jar")
    );
}

#[test]
fn mod_plan_skips_installed_files_and_falls_back_to_the_api() {
    let mods = vec![
        ModInfo {
            id: "a".to_string(),
            name: "A".to_string(),
            version: "1".to_string(),
            file_name: "a-1.jar".to_string(),
            url: Some("https://cdn.example/a-1.jar".to_string()),
            sha256: String::new(),
            size: 1,
            required: true,
        },
        ModInfo {
            id: "b".to_string(),
            name: "B".to_string(),
            version: "2".to_string(),
            file_name: "b-2.jar".to_string(),
            url: None,
            sha256: String::new(),
            size: 2,
            required: true,
        },
        ModInfo {
            id: "c".to_string(),
            name: "C".to_string(),
            version: "3".to_string(),
            file_name: "c-3.jar".to_string(),
            url: Some("https://cdn.example/c-3.jar".to_string()),
            sha256: String::new(),
            size: 3,
            required: true,
        },
    ];
    let present = vec![false, false, true];
    let plan = plan_mod_downloads(&mods, &present, "mods", "https://api.example/api", Os::Linux);
    assert_eq!(plan.len(), 2);
    assert_eq!(plan[0].url, "https://cdn.example/a-1.jar");
    assert_eq!(plan[0].dest, "mods/a-1.jar");
    assert_eq!(plan[1].url, "https://api.example/api/modpack/mods/b-2.jar");
    assert_eq!(plan[1].dest, "mods/b-2.jar");
}

#[test]
fn resource_pack_comes_from_the_api_when_unaddressed() {
    let rp = ResourcePackInfo {
        name: "pack".to_string(),
        version: "1".to_string(),
        file_name: "hegemonia.zip".to_string(),
        url: None,
        sha256: String::new(),
        size: 9,
    };
    let t = resource_pack_target(&rp, "rp", "https://api.example/api", Os::Linux);
    assert_eq!(t.url, "https://api.example/api/modpack/resourcepacks/hegemonia.zip");
    assert_eq!(t.dest, "rp/hegemonia.zip");
}

#[test]
fn installation_status_decides_when_an_update_is_due() {
    let s = installation_status(true, true, true, true, Vec::new());
    assert!(!s.needs_update);
    let s = installation_status(true, true, false, true, Vec::new());
    assert!(s.needs_update);
    let s = installation_status(true, true, true, false, Vec::new());
    assert!(s.needs_update);
    let s = installation_status(true, true, true, true, vec!["sodium".to_string()]);
    assert!(s.needs_update);
    assert_eq!(s.mods_outdated, vec!["sodium".to_string()]);
}

#[test]
fn version_file_records_the_install() {
    let pack = get_fallback_manifest();
    let info = version_file_info_now(&pack, 6);
    assert_eq!(info.pack_version, "1.0.0");
    assert_eq!(info.minecraft_version, "1.20.4");
    assert_eq!(info.fabric_version, "0.16.9");
    assert_eq!(info.mods_installed, 6);
}

#[test]
fn progress_formulas() {
    assert_eq!(library_stage_progress(0, 10), 15);
    assert_eq!(library_stage_progress(9, 10), 37);
    assert_eq!(asset_stage_progress(0, 100), 45);
    assert_eq!(asset_stage_progress(100, 100), 65);
    assert_eq!(asset_stage_progress(50, 100), 55);
    assert_eq!(fabric_stage_progress(0, 4), 70);
    assert_eq!(fabric_stage_progress(3, 4), 81);
    let p = make_progress("assets", "Assets 100/2000", 55, 100);
    assert_eq!(p.stage, "assets");
    assert_eq!(p.message, "Assets 100/2000");
    assert_eq!(p.current, 55);
    assert_eq!(p.total, 100);
}

#[test]
fn version_banner_first_line() {
    assert_eq!(version_line("openjdk version \"21\"\nOpenJDK Runtime"), "openjdk version \"21\"");
    assert_eq!(version_line("openjdk version \"21\"\r\nOpenJDK Runtime"), "openjdk version \"21\"");
    assert_eq!(version_line("single line"), "single line");
    assert_eq!(version_line(""), "Unknown");
}

#[test]
fn system_info_reports_the_probed_facts() {
    let info = make_system_info(
        "linux".to_string(),
        "x86_64".to_string(),
        &Some("openjdk version \"21\"\nmore".to_string()),
    );
    assert_eq!(info.os, "linux");
    assert_eq!(info.arch, "x86_64");
    assert_eq!(info.java_version.as_deref(), Some("openjdk version \"21\""));
    assert_eq!(info.ram_total, 4096);
    let none = make_system_info("linux".to_string(), "x86_64".to_string(), &None);
    assert!(none.java_version.is_none());

    let p = make_minecraft_path("/home/u/.minecraft".to_string(), false);
    assert_eq!(p.path, "/home/u/.minecraft");
    assert!(!p.exists);
}

#[test]
fn fabric_installer_invocation() {
    assert_eq!(
        fabric_installer_url(),
        "https://maven.fabricmc.net/net/fabricmc/fabric-installer/1.0.1/fabric-installer-1.0.1.jar"
    );
    let args = fabric_installer_args("/t/fabric-installer.jar", "/home/u/.minecraft", "1.20.4", "0.16.9");
    assert_eq!(
        args,
        vec![
            "-jar",
            "/t/fabric-installer.jar",
            "client",
            "-dir",
            "/home/u/.minecraft",
            "-mcversion",
            "1.20.4",
            "-loader",
            "0.16.9",
            "-noprofile",
        ]
    );
}

#[test]
fn profile_entry_fields() {
    let entry = minecraft_profile_entry_now("/home/u/.hegemonia", "fabric-loader-0.16.9-1.20.4");
    assert_eq!(entry.game_dir, "/home/u/.hegemonia");
    assert_eq!(entry.last_version_id, "fabric-loader-0.16.9-1.20.4");
    assert_eq!(entry.name, "Hegemonia");
    assert_eq!(entry.profile_type, "custom");
    assert_eq!(
        entry.java_args,
        "-Xmx4G -XX:+UnlockExperimentalVMOptions -XX:+UseG1GC -XX:G1NewSizePercent=20 -XX:G1ReservePercent=20 -XX:MaxGCPauseMillis=50 -XX:G1HeapRegionSize=32M"
    );
    assert!(entry.icon.starts_with("data:image/png;base64,"));
}
