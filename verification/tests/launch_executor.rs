use hegemonia_launcher::launch::{
    LaunchOutcome, LaunchParams, build_launch_args, classify_launch, crash_grace_millis,
    crash_log_content, launch_log_content, log_with_error, log_with_pid, success_message,
};
use hegemonia_launcher::text::join_strs;

fn params(server_ip: &str, server_port: &str) -> LaunchParams {
    LaunchParams {
        ram_mb: 2048,
        natives_dir: "/g/natives".to_string(),
        classpath: "/g/libraries/a.jar:/g/versions/1.20.4.jar".to_string(),
        main_class: "net.fabricmc.loader.impl.launch.knot.KnotClient".to_string(),
        username: "alice".to_string(),
        version_id: "fabric-loader-0.16.9-1.20.4".to_string(),
        game_dir: "/g".to_string(),
        assets_dir: "/g/assets".to_string(),
        asset_index_id: "12".to_string(),
        uuid: "uuid-1".to_string(),
        access_token: "token-1".to_string(),
        server_ip: server_ip.to_string(),
        server_port: server_port.to_string(),
    }
}

#[test]
fn argument_vector_without_server() {
    let args = build_launch_args(&params("", ""));
    let expected = vec![
        "-Xmx2048M",
        "-Xms512M",
        "-Djava.library.path=/g/natives",
        "-Dfile.encoding=UTF-8",
        "-cp",
        "/g/libraries/a.jar:/g/versions/1.20.4.jar",
        "net.fabricmc.loader.impl.launch.knot.KnotClient",
        "--username",
        "alice",
        "--version",
        "fabric-loader-0.16.9-1.20.4",
        "--gameDir",
        "/g",
        "--assetsDir",
        "/g/assets",
        "--assetIndex",
        "12",
        "--uuid",
        "uuid-1",
        "--accessToken",
        "token-1",
        "--userType",
        "legacy",
        "--versionType",
        "release",
    ];
    assert_eq!(args, expected);
}

#[test]
fn server_address_is_appended() {
    let args = build_launch_args(&params("play.example.net", "25565"));
    assert_eq!(args.len(), 29);
    assert_eq!(&args[25..], ["--server", "play.example.net", "--port", "25565"]);

    let args = build_launch_args(&params("play.example.net", ""));
    assert_eq!(args.len(), 27);
    assert_eq!(&args[25..], ["--server", "play.example.net"]);
}

#[test]
fn log_contains_command_line_and_identity() {
    let args = build_launch_args(&params("", ""));
    let line = join_strs(&args, " ");
    let log = launch_log_content("2024-01-01T00:00:00Z", "alice", "uuid-1", "/usr/bin/java", &line);
    assert!(log.contains("Username: alice"));
    assert!(log.contains("UUID: uuid-1"));
    assert!(log.contains("Java: /usr/bin/java"));
    assert!(log.contains("-Xmx2048M"));
    assert!(log.contains("--accessToken token-1"));
}

#[test]
fn early_crash_is_detected_and_logged() {
    // the process exited within the grace window with a non-zero status
    let outcome = classify_launch(4242, &Some(Some(1)));
    assert!(matches!(outcome, LaunchOutcome::EarlyCrash { status: Some(1) }));

    let args = build_launch_args(&params("", ""));
    let line = join_strs(&args, " ");
    let base = launch_log_content("now", "alice", "uuid-1", "java", &line);
    let log = crash_log_content(&base, "some stdout", "Error: Could not find main class");
    assert!(log.contains(&line));
    assert!(log.contains("Error: Could not find main class"));
}

#[test]
fn running_process_is_a_success() {
    let outcome = classify_launch(4242, &None);
    assert!(matches!(outcome, LaunchOutcome::Started { pid: 4242 }));
    assert_eq!(success_message(4242), "Minecraft lance! (PID: 4242)");
}

#[test]
fn grace_window_is_two_seconds() {
    assert_eq!(crash_grace_millis(), 2000);
}

#[test]
fn log_suffixes() {
    assert_eq!(log_with_pid("base", 7), "base\nPID: 7\n");
    assert_eq!(log_with_error("base", "boom"), "base\nERROR: boom\n");
}
