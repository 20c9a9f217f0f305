use hegemonia_launcher::fetch::{
    FetchAction, fetch_decision, plan_asset_downloads, plan_asset_sync, plan_fabric_libraries,
    plan_library_downloads,
};
use hegemonia_launcher::manifest::{
    ArtifactInfo, AssetObjectEntry, FabricLibrary, Library,
};
use hegemonia_launcher::platform::{Arch, Os};
use hegemonia_launcher::rules::{Rule, RuleAction};

fn artifact(path: &str, url: &str) -> ArtifactInfo {
    ArtifactInfo {
        path: path.to_string(),
        url: url.to_string(),
        checksum: String::new(),
        size: 1,
    }
}

#[test]
fn fetch_twice_downloads_once() {
    // a simulated filesystem: the destination is first absent, then
    // written by the one download
    let mut present = false;
    let mut downloads = 0;
    for _ in 0..2 {
        match fetch_decision(present) {
            FetchAction::Download => {
                downloads += 1;
                present = true;
            }
            FetchAction::UseExisting => {}
        }
    }
    assert_eq!(downloads, 1);
    assert_eq!(fetch_decision(present), FetchAction::UseExisting);
}

#[test]
fn fetch_existing_never_downloads() {
    assert_eq!(fetch_decision(true), FetchAction::UseExisting);
    assert_eq!(fetch_decision(false), FetchAction::Download);
}

#[test]
fn asset_sync_fetches_exactly_the_missing() {
    let present = vec![false, true, false, true, false];
    let plan = plan_asset_sync(&present);
    assert_eq!(plan, vec![0, 2, 4]);
    // five objects of which two exist: exactly three fetches
    assert_eq!(plan.len(), 5 - 2);
}

#[test]
fn asset_sync_with_all_present_is_empty() {
    assert_eq!(plan_asset_sync(&vec![true, true]), Vec::<usize>::new());
    assert_eq!(plan_asset_sync(&Vec::new()), Vec::<usize>::new());
}

#[test]
fn asset_downloads_are_content_addressed() {
    let objects = vec![
        AssetObjectEntry { name: "icons/a.png".to_string(), hash: "ab12cd".to_string(), size: 3 },
        AssetObjectEntry { name: "sounds/b.ogg".to_string(), hash: "ff00aa".to_string(), size: 4 },
    ];
    let present = vec![true, false];
    let plan = plan_asset_downloads(&objects, &present, "assets", "https://h", Os::Linux);
    assert_eq!(plan.len(), 1);
    assert_eq!(plan[0].url, "https://h/ff/ff00aa");
    assert_eq!(plan[0].dest, "assets/objects/ff/ff00aa");
}

#[test]
fn library_plan_skips_denied_libraries() {
    let allowed = Library {
        coordinate: "org.example:keep:1.0".to_string(),
        artifact: Some(artifact("org/example/keep/1.0/keep-1.0.jar", "https://u/keep.jar")),
        classifiers: Vec::new(),
        platform_native_keys: Vec::new(),
        rules: None,
    };
    let denied = Library {
        coordinate: "org.example:drop:1.0".to_string(),
        artifact: Some(artifact("org/example/drop/1.0/drop-1.0.jar", "https://u/drop.jar")),
        classifiers: Vec::new(),
        platform_native_keys: Vec::new(),
        rules: Some(vec![Rule { action: RuleAction::Deny, os: None }]),
    };
    let plan = plan_library_downloads(&vec![allowed, denied], "libs", Os::Linux, Arch::X64);
    assert_eq!(plan.len(), 1);
    let p = &plan[0];
    assert_eq!(p.classpath_entry.as_deref(), Some("libs/org/example/keep/1.0/keep-1.0.jar"));
    let fetch = p.artifact_fetch.as_ref().unwrap();
    assert_eq!(fetch.url, "https://u/keep.jar");
    assert_eq!(fetch.dest, "libs/org/example/keep/1.0/keep-1.0.jar");
    assert!(p.native_fetch.is_none());
}

#[test]
fn library_plan_resolves_native_classifier() {
    let lib = Library {
        coordinate: "org.lwjgl:lwjgl:3.3".to_string(),
        artifact: None,
        classifiers: vec![(
            "natives-linux-64".to_string(),
            artifact("org/lwjgl/lwjgl-natives-linux.jar", "https://u/n.jar"),
        )],
        platform_native_keys: vec![(
            "linux".to_string(),
            "natives-linux-${arch}".to_string(),
        )],
        rules: None,
    };
    let plan = plan_library_downloads(&vec![lib], "libs", Os::Linux, Arch::X64);
    assert_eq!(plan.len(), 1);
    let native = plan[0].native_fetch.as_ref().unwrap();
    assert_eq!(native.url, "https://u/n.jar");
    assert_eq!(native.dest, "libs/org/lwjgl/lwjgl-natives-linux.jar");
    assert!(plan[0].classpath_entry.is_none());
}

#[test]
fn fabric_plan_uses_override_or_default_repository() {
    let libs = vec![
        FabricLibrary {
            name: "net.fabricmc:fabric-loader:0.16.9".to_string(),
            url: None,
        },
        FabricLibrary {
            name: "org.ow2.asm:asm:9.6".to_string(),
            url: Some("https://repo.example/".to_string()),
        },
    ];
    let plan = plan_fabric_libraries(&libs, "libs", "https://maven.fabricmc.net/", Os::Linux);
    assert_eq!(plan.len(), 2);
    assert_eq!(
        plan[0].url,
        "https://maven.fabricmc.net/net/fabricmc/fabric-loader/0.16.9/fabric-loader-0.16.9.jar"
    );
    assert_eq!(
        plan[0].dest,
        "libs/net/fabricmc/fabric-loader/0.16.9/fabric-loader-0.16.9.jar"
    );
    assert_eq!(plan[1].url, "https://repo.example/org/ow2/asm/asm/9.6/asm-9.6.jar");
    assert_eq!(plan[1].dest, "libs/org/ow2/asm/asm/9.6/asm-9.6.jar");
}
