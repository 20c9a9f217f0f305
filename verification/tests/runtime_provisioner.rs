use hegemonia_launcher::platform::Os;
use hegemonia_launcher::runtime::{
    ProvisionAction, ProvisionPhase, RuntimeProvisioner, bundled_java_candidates,
    is_javapath_shim, java_home_candidate, java_version_output_ok, javaw_variant,
    provisioned_java_exe, runtime_archive_name, runtime_download_url, system_java_candidates,
};

#[test]
fn version_output_inspection() {
    assert!(java_version_output_ok("openjdk version \"21.0.5\" 2024-10-15"));
    assert!(java_version_output_ok("java version \"17.0.1\""));
    assert!(!java_version_output_ok("Java HotSpot 32-Bit Server VM, java version 1.8"));
    assert!(!java_version_output_ok("command not found"));
    assert!(!java_version_output_ok(""));
}

#[test]
fn archive_format_differs_by_os() {
    assert_eq!(runtime_archive_name(Os::Windows), "java.zip");
    assert_eq!(runtime_archive_name(Os::MacOs), "java.tar.gz");
    assert_eq!(runtime_archive_name(Os::Linux), "java.tar.gz");
    assert!(runtime_download_url(Os::Windows).ends_with(".zip"));
    assert!(runtime_download_url(Os::MacOs).ends_with(".tar.gz"));
    assert!(runtime_download_url(Os::Linux).ends_with(".tar.gz"));
}

#[test]
fn provisioned_executable_paths() {
    assert_eq!(
        provisioned_java_exe("j", Os::Windows),
        "j\\jdk-21.0.5+11-jre\\bin\\javaw.exe"
    );
    assert_eq!(
        provisioned_java_exe("j", Os::MacOs),
        "j/jdk-21.0.5+11-jre/Contents/Home/bin/java"
    );
    assert_eq!(provisioned_java_exe("j", Os::Linux), "j/jdk-21.0.5+11-jre/bin/java");
}

#[test]
fn candidate_lists() {
    let bundled = bundled_java_candidates("j", Os::Windows);
    assert_eq!(bundled.len(), 2);
    assert_eq!(bundled[0], "j\\jdk-21.0.5+11-jre\\bin\\javaw.exe");
    assert_eq!(bundled[1], "j\\bin\\javaw.exe");
    assert_eq!(bundled_java_candidates("j", Os::Linux).len(), 1);

    let win = system_java_candidates(Os::Windows, "H", "A", "L");
    assert_eq!(win.len(), 23);
    assert!(win[0].starts_with("A\\.minecraft\\runtime\\java-runtime-delta"));
    assert!(win[2].starts_with("L\\Packages\\"));
    assert_eq!(win[6], "C:\\Program Files\\Eclipse Adoptium\\jdk-21.0.5.11-hotspot\\bin\\javaw.exe");

    let mac = system_java_candidates(Os::MacOs, "/Users/u", "", "");
    assert_eq!(mac.len(), 6);
    assert!(mac[0].starts_with("/Users/u/Library/Application Support/minecraft/runtime/"));

    let linux = system_java_candidates(Os::Linux, "/home/u", "", "");
    assert_eq!(linux.len(), 6);
    assert_eq!(linux[2], "/usr/lib/jvm/java-21-openjdk/bin/java");
}

#[test]
fn java_home_candidates() {
    assert_eq!(java_home_candidate("J", Os::Windows), "J\\bin\\javaw.exe");
    assert_eq!(java_home_candidate("J", Os::Linux), "J/bin/java");
}

#[test]
fn javapath_shim_detection_is_case_insensitive() {
    assert!(is_javapath_shim("C:\\ProgramData\\Oracle\\Java\\javapath\\java.exe"));
    assert!(is_javapath_shim("C:\\ProgramData\\Oracle\\Java\\JavaPath\\java.exe"));
    assert!(!is_javapath_shim("C:\\Program Files\\Java\\jdk-21\\bin\\java.exe"));
}

#[test]
fn javaw_replacement() {
    assert_eq!(javaw_variant("C:\\x\\java.exe"), "C:\\x\\javaw.exe");
    assert_eq!(javaw_variant("/usr/bin/java"), "/usr/bin/java");
}

#[test]
fn candidate_found_ends_the_search() {
    let mut p = RuntimeProvisioner::new(
        vec!["good".to_string(), "never".to_string()],
        "u".to_string(),
        "a".to_string(),
        "e".to_string(),
    );
    match p.next_action() {
        ProvisionAction::Probe { path } => assert_eq!(path, "good"),
        _ => panic!("expected a probe"),
    }
    assert!(p.on_probe_result(true));
    assert_eq!(p.phase, ProvisionPhase::Done);
    assert_eq!(p.handle.as_ref().unwrap().path, "good");
}

#[test]
fn exhausted_candidates_fall_back_to_download() {
    // no local runtime is found; the download endpoint works and the
    // unpacked executable passes verification
    let mut p = RuntimeProvisioner::new(
        vec!["c0".to_string(), "c1".to_string()],
        "https://vendor/java.tar.gz".to_string(),
        "java/java.tar.gz".to_string(),
        "java/jdk-21.0.5+11-jre/bin/java".to_string(),
    );
    for expected in ["c0", "c1"] {
        match p.next_action() {
            ProvisionAction::Probe { path } => assert_eq!(path, expected),
            _ => panic!("expected a probe"),
        }
        assert!(!p.on_probe_result(false));
    }
    match p.next_action() {
        ProvisionAction::FetchAndExtract { url, archive, exe } => {
            assert_eq!(url, "https://vendor/java.tar.gz");
            assert_eq!(archive, "java/java.tar.gz");
            assert_eq!(exe, "java/jdk-21.0.5+11-jre/bin/java");
        }
        _ => panic!("expected the download fallback"),
    }
    p.on_fetch_result(true);
    assert_eq!(p.phase, ProvisionPhase::AwaitingProvisionedProbe);
    p.on_provisioned_probe(true);
    assert_eq!(p.phase, ProvisionPhase::Done);
    assert_eq!(p.handle.as_ref().unwrap().path, "java/jdk-21.0.5+11-jre/bin/java");
}

#[test]
fn failed_download_is_fatal() {
    let mut p = RuntimeProvisioner::new(
        Vec::new(),
        "u".to_string(),
        "a".to_string(),
        "e".to_string(),
    );
    match p.next_action() {
        ProvisionAction::FetchAndExtract { .. } => {}
        _ => panic!("expected the download fallback"),
    }
    p.on_fetch_result(false);
    assert_eq!(p.phase, ProvisionPhase::Failed);
    assert!(p.handle.is_none());
}
