//! Launch executor: assembles the runtime invocation from the resolved
//! pieces, renders the diagnostic log, and classifies the short-horizon
//! liveness poll into a started process or an early crash.

use vstd::prelude::*;
use crate::text::{dec_str_of, has_substring, lemma_concat_contains_middle, u64_to_dec};

verus! {

/// Everything the launch command needs, fully resolved; never partially
/// built.
#[derive(Clone, Debug)]
pub struct LaunchParams {
    pub ram_mb: u32,
    pub natives_dir: String,
    pub classpath: String,
    pub main_class: String,
    pub username: String,
    pub version_id: String,
    pub game_dir: String,
    pub assets_dir: String,
    pub asset_index_id: String,
    pub uuid: String,
    pub access_token: String,
    pub server_ip: String,
    pub server_port: String,
}

/// Builds the argument vector: heap flags, native-library path,
/// classpath, main class, then the game's identity and directory
/// arguments, with the optional auto-connect server address appended
/// last.
pub fn build_launch_args(p: &LaunchParams) -> (r: Vec<String>)
    ensures
        r@.len() == 25 + (if p.server_ip@.len() > 0 {
            if p.server_port@.len() > 0 {
                4int
            } else {
                2int
            }
        } else {
            0int
        }),
        r@[0]@ == "-Xmx"@ + dec_str_of(p.ram_mb as int) + "M"@,
        r@[1]@ == "-Xms512M"@,
        r@[2]@ == "-Djava.library.path="@ + p.natives_dir@,
        r@[3]@ == "-Dfile.encoding=UTF-8"@,
        r@[4]@ == "-cp"@,
        r@[5]@ == p.classpath@,
        r@[6]@ == p.main_class@,
        r@[7]@ == "--username"@,
        r@[8]@ == p.username@,
        r@[9]@ == "--version"@,
        r@[10]@ == p.version_id@,
        r@[11]@ == "--gameDir"@,
        r@[12]@ == p.game_dir@,
        r@[13]@ == "--assetsDir"@,
        r@[14]@ == p.assets_dir@,
        r@[15]@ == "--assetIndex"@,
        r@[16]@ == p.asset_index_id@,
        r@[17]@ == "--uuid"@,
        r@[18]@ == p.uuid@,
        r@[19]@ == "--accessToken"@,
        r@[20]@ == p.access_token@,
        r@[21]@ == "--userType"@,
        r@[22]@ == "legacy"@,
        r@[23]@ == "--versionType"@,
        r@[24]@ == "release"@,
        p.server_ip@.len() > 0 ==> r@[25]@ == "--server"@ && r@[26]@ == p.server_ip@,
        p.server_ip@.len() > 0 && p.server_port@.len() > 0 ==> r@[27]@ == "--port"@ && r@[28]@
            == p.server_port@,
{
    let mut r: Vec<String> = Vec::new();
    let mut xmx = "-Xmx".to_owned();
    let digits = u64_to_dec(p.ram_mb as u64);
    xmx.append(digits.as_str());
    xmx.append("M");
    proof {
        assert(xmx@ =~= "-Xmx"@ + dec_str_of(p.ram_mb as int) + "M"@);
    }
    r.push(xmx);
    r.push("-Xms512M".to_owned());
    let mut natives = "-Djava.library.path=".to_owned();
    natives.append(p.natives_dir.as_str());
    r.push(natives);
    r.push("-Dfile.encoding=UTF-8".to_owned());
    r.push("-cp".to_owned());
    r.push(p.classpath.clone());
    r.push(p.main_class.clone());
    r.push("--username".to_owned());
    r.push(p.username.clone());
    r.push("--version".to_owned());
    r.push(p.version_id.clone());
    r.push("--gameDir".to_owned());
    r.push(p.game_dir.clone());
    r.push("--assetsDir".to_owned());
    r.push(p.assets_dir.clone());
    r.push("--assetIndex".to_owned());
    r.push(p.asset_index_id.clone());
    r.push("--uuid".to_owned());
    r.push(p.uuid.clone());
    r.push("--accessToken".to_owned());
    r.push(p.access_token.clone());
    r.push("--userType".to_owned());
    r.push("legacy".to_owned());
    r.push("--versionType".to_owned());
    r.push("release".to_owned());
    if !p.server_ip.as_str().is_empty() {
        r.push("--server".to_owned());
        r.push(p.server_ip.clone());
        if !p.server_port.as_str().is_empty() {
            r.push("--port".to_owned());
            r.push(p.server_port.clone());
        }
    }
    r
}

/// The diagnostic log header: timestamp, identity fields, runtime path
/// and the resolved command line.
pub open spec fn launch_log_spec(
    ts: Seq<char>,
    username: Seq<char>,
    uuid: Seq<char>,
    java: Seq<char>,
    args_line: Seq<char>,
) -> Seq<char> {
    "Launch at: "@ + ts + "\nUsername: "@ + username + "\nUUID: "@ + uuid + "\nJava: "@ + java
        + "\nArgs: "@ + args_line + "\n"@
}

/// Renders the diagnostic log header.
pub fn launch_log_content(
    ts: &str,
    username: &str,
    uuid: &str,
    java: &str,
    args_line: &str,
) -> (r: String)
    ensures
        r@ == launch_log_spec(ts@, username@, uuid@, java@, args_line@),
{
    let mut out = "Launch at: ".to_owned();
    out.append(ts);
    out.append("\nUsername: ");
    out.append(username);
    out.append("\nUUID: ");
    out.append(uuid);
    out.append("\nJava: ");
    out.append(java);
    out.append("\nArgs: ");
    out.append(args_line);
    out.append("\n");
    proof {
        assert(out@ =~= launch_log_spec(ts@, username@, uuid@, java@, args_line@));
    }
    out
}

/// The log with the spawned process id appended.
pub fn log_with_pid(base: &str, pid: u32) -> (r: String)
    ensures
        r@ == base@ + "\nPID: "@ + dec_str_of(pid as int) + "\n"@,
{
    let mut out = base.to_owned();
    out.append("\nPID: ");
    let digits = u64_to_dec(pid as u64);
    out.append(digits.as_str());
    out.append("\n");
    proof {
        assert(out@ =~= base@ + "\nPID: "@ + dec_str_of(pid as int) + "\n"@);
    }
    out
}

/// The log with a fatal error appended.
pub fn log_with_error(base: &str, err: &str) -> (r: String)
    ensures
        r@ == base@ + "\nERROR: "@ + err@ + "\n"@,
{
    let mut out = base.to_owned();
    out.append("\nERROR: ");
    out.append(err);
    out.append("\n");
    proof {
        assert(out@ =~= base@ + "\nERROR: "@ + err@ + "\n"@);
    }
    out
}

/// The crash log: the header followed by the captured output streams.
pub open spec fn crash_log_spec(base: Seq<char>, out: Seq<char>, err: Seq<char>) -> Seq<char> {
    base + "\nSTDOUT:\n"@ + out + "\nSTDERR:\n"@ + err + "\n"@
}

/// Renders the crash log from the header and the captured streams.
pub fn crash_log_content(base: &str, stdout: &str, stderr: &str) -> (r: String)
    ensures
        r@ == crash_log_spec(base@, stdout@, stderr@),
{
    let mut o = base.to_owned();
    o.append("\nSTDOUT:\n");
    o.append(stdout);
    o.append("\nSTDERR:\n");
    o.append(stderr);
    o.append("\n");
    proof {
        assert(o@ =~= crash_log_spec(base@, stdout@, stderr@));
    }
    o
}

/// What the single liveness poll after the grace wait found.
#[derive(Clone, Copy, Debug)]
pub enum LaunchOutcome {
    /// The process was still running: launch succeeded, report the id.
    Started { pid: u32 },
    /// The process had already exited: an immediate failure, with its
    /// exit code where the platform reported one.
    EarlyCrash { status: Option<i32> },
}

/// The classification of the poll: an exited process is an early crash,
/// a running one a success.
pub open spec fn classify_spec(pid: u32, exit: Option<Option<i32>>) -> LaunchOutcome {
    match exit {
        Some(st) => LaunchOutcome::EarlyCrash { status: st },
        None => LaunchOutcome::Started { pid },
    }
}

/// Classifies the single liveness poll performed after the grace wait.
pub fn classify_launch(pid: u32, exit: &Option<Option<i32>>) -> (r: LaunchOutcome)
    ensures
        r == classify_spec(pid, *exit),
{
    match exit {
        Some(st) => LaunchOutcome::EarlyCrash { status: *st },
        None => LaunchOutcome::Started { pid },
    }
}

/// The fixed grace wait, in milliseconds, before the liveness poll.
/// A heuristic: it only catches immediate failures.
pub fn crash_grace_millis() -> (r: u64)
    ensures
        r == 2000,
{
    2000
}

/// The human-readable success message carrying the process id.
pub fn success_message(pid: u32) -> (r: String)
    ensures
        r@ == "Minecraft lance! (PID: "@ + dec_str_of(pid as int) + ")"@,
{
    let mut out = "Minecraft lance! (PID: ".to_owned();
    let digits = u64_to_dec(pid as u64);
    out.append(digits.as_str());
    out.append(")");
    proof {
        assert(out@ =~= "Minecraft lance! (PID: "@ + dec_str_of(pid as int) + ")"@);
    }
    out
}

/// Law (LaunchExecutor): a process that exited within the grace window
/// is classified as an early crash, and the crash log holds both the
/// resolved command line and the captured stderr.
pub proof fn lemma_early_crash_logged(
    pid: u32,
    status: Option<i32>,
    ts: Seq<char>,
    username: Seq<char>,
    uuid: Seq<char>,
    java: Seq<char>,
    args_line: Seq<char>,
    out: Seq<char>,
    err: Seq<char>,
)
    ensures
        classify_spec(pid, Some(status)) == (LaunchOutcome::EarlyCrash { status }),
        has_substring(
            crash_log_spec(launch_log_spec(ts, username, uuid, java, args_line), out, err),
            args_line,
        ),
        has_substring(
            crash_log_spec(launch_log_spec(ts, username, uuid, java, args_line), out, err),
            err,
        ),
{
    let base = launch_log_spec(ts, username, uuid, java, args_line);
    let s = crash_log_spec(base, out, err);
    let x1 = "Launch at: "@ + ts + "\nUsername: "@ + username + "\nUUID: "@ + uuid + "\nJava: "@
        + java + "\nArgs: "@;
    let y1 = "\n"@ + "\nSTDOUT:\n"@ + out + "\nSTDERR:\n"@ + err + "\n"@;
    assert(s =~= x1 + args_line + y1);
    lemma_concat_contains_middle(x1, args_line, y1);
    let x2 = base + "\nSTDOUT:\n"@ + out + "\nSTDERR:\n"@;
    let y2 = "\n"@;
    assert(s =~= x2 + err + y2);
    lemma_concat_contains_middle(x2, err, y2);
}

} // verus!
