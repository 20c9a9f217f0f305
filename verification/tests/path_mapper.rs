use hegemonia_launcher::paths::{
    asset_index_path, asset_object_path, asset_object_url, client_jar_path, fabric_profile_url,
    fabric_version_id, get_assets_dir, get_game_dir, get_hegemonia_dir, get_java_dir,
    get_libraries_dir, get_minecraft_dir, get_mods_dir, get_natives_dir, get_versions_dir,
    is_jar_file, join_path, launch_log_path, maven_to_path, split_str,
};
use hegemonia_launcher::platform::{
    Os, get_arch, get_classpath_separator, get_os_name, get_total_ram, path_separator,
};
use hegemonia_launcher::platform::Arch;

#[test]
fn coordinate_without_classifier() {
    assert_eq!(maven_to_path("org.example:lib:1.0"), "org/example/lib/1.0/lib-1.0.jar");
}

#[test]
fn coordinate_with_classifier() {
    assert_eq!(
        maven_to_path("org.example:lib:1.0:natives-linux"),
        "org/example/lib/1.0/lib-1.0-natives-linux.jar"
    );
}

#[test]
fn short_coordinate_is_returned_unchanged() {
    assert_eq!(maven_to_path("justaname"), "justaname");
    assert_eq!(maven_to_path("group:artifact"), "group:artifact");
}

#[test]
fn deep_group_is_flattened() {
    assert_eq!(
        maven_to_path("net.fabricmc.fabric-loader:fabric-loader:0.16.9"),
        "net/fabricmc/fabric-loader/fabric-loader/0.16.9/fabric-loader-0.16.9.jar"
    );
}

#[test]
fn split_keeps_empty_parts() {
    let parts = split_str("a::b", ':');
    assert_eq!(parts, vec!["a".to_string(), "".to_string(), "b".to_string()]);
    let parts = split_str("", ':');
    assert_eq!(parts, vec!["".to_string()]);
}

#[test]
fn os_names_and_separators() {
    assert_eq!(get_os_name(Os::Windows), "windows");
    assert_eq!(get_os_name(Os::MacOs), "osx");
    assert_eq!(get_os_name(Os::Linux), "linux");
    assert_eq!(get_arch(Arch::X64), "64");
    assert_eq!(get_arch(Arch::X86), "32");
    assert_eq!(get_classpath_separator(Os::Windows), ";");
    assert_eq!(get_classpath_separator(Os::Linux), ":");
    assert_eq!(path_separator(Os::Windows), '\\');
    assert_eq!(path_separator(Os::MacOs), '/');
    assert_eq!(get_total_ram(), 4096);
}

#[test]
fn game_directory_layout() {
    let game = get_game_dir("/home/u", Os::Linux);
    assert_eq!(game, "/home/u/.hegemonia");
    assert_eq!(get_hegemonia_dir("/home/u", Os::Linux), "/home/u/.hegemonia");
    assert_eq!(
        get_hegemonia_dir("C:\\Users\\u", Os::Windows),
        "C:\\Users\\u\\AppData\\Roaming\\.hegemonia"
    );
    assert_eq!(
        get_hegemonia_dir("/Users/u", Os::MacOs),
        "/Users/u/Library/Application Support/hegemonia"
    );
    assert_eq!(get_minecraft_dir("/home/u", Os::Linux), "/home/u/.minecraft");
    assert_eq!(
        get_minecraft_dir("C:\\Users\\u", Os::Windows),
        "C:\\Users\\u\\AppData\\Roaming\\.minecraft"
    );
    assert_eq!(
        get_minecraft_dir("/Users/u", Os::MacOs),
        "/Users/u/Library/Application Support/minecraft"
    );
    assert_eq!(get_natives_dir(&game, Os::Linux), "/home/u/.hegemonia/natives");
    assert_eq!(get_libraries_dir(&game, Os::Linux), "/home/u/.hegemonia/libraries");
    assert_eq!(get_assets_dir(&game, Os::Linux), "/home/u/.hegemonia/assets");
    assert_eq!(get_versions_dir(&game, Os::Linux), "/home/u/.hegemonia/versions");
    assert_eq!(get_java_dir(&game, Os::Linux), "/home/u/.hegemonia/java");
    assert_eq!(get_mods_dir(&game, Os::Linux), "/home/u/.hegemonia/mods");
    assert_eq!(launch_log_path(&game, Os::Linux), "/home/u/.hegemonia/launch.log");
}

#[test]
fn join_path_uses_the_platform_separator() {
    assert_eq!(join_path("base", Os::Windows, "x"), "base\\x");
    assert_eq!(join_path("base", Os::Linux, "x"), "base/x");
}

#[test]
fn client_jar_and_asset_paths() {
    assert_eq!(client_jar_path("v", "1.20.4", Os::Linux), "v/1.20.4.jar");
    assert_eq!(asset_index_path("assets", "12", Os::Linux), "assets/indexes/12.json");
    assert_eq!(
        asset_object_path("assets", "ab12cd", Os::Linux),
        "assets/objects/ab/ab12cd"
    );
    assert_eq!(
        asset_object_url("https://resources.example", "ab12cd"),
        "https://resources.example/ab/ab12cd"
    );
}

#[test]
fn fabric_identifiers() {
    assert_eq!(fabric_version_id("0.16.9", "1.20.4"), "fabric-loader-0.16.9-1.20.4");
    assert_eq!(
        fabric_profile_url("https://meta.fabricmc.net/v2", "1.20.4", "0.16.9"),
        "https://meta.fabricmc.net/v2/versions/loader/1.20.4/0.16.9/profile/json"
    );
}

#[test]
fn jar_files_are_recognized() {
    assert!(is_jar_file("sodium-fabric-0.5.8.jar"));
    assert!(!is_jar_file("readme.txt"));
    assert!(!is_jar_file("jar"));
}
