//! Runtime provisioner: finds a usable managed-runtime executable on the
//! host, walking a fixed candidate order, or falls back to downloading
//! and unpacking a pinned runtime archive. Every candidate must execute,
//! report a version marker, and not be a 32-bit build.

use vstd::prelude::*;
use crate::paths::{concat_strs, join_path};
use crate::platform::Os;
use crate::text::{contains_str, has_substring, replace_all, replace_all_spec};

verus! {

/// Whether the combined output of a version query names a recognizable
/// runtime while not revealing a 32-bit build.
pub fn java_version_output_ok(out: &str) -> (r: bool)
    ensures
        r == ((has_substring(out@, "version"@) || has_substring(out@, "openjdk"@))
            && !has_substring(out@, "32-Bit"@)),
{
    (contains_str(out, "version") || contains_str(out, "openjdk")) && !contains_str(
        out,
        "32-Bit",
    )
}

/// The fixed vendor endpoint serving the pinned runtime archive for
/// `os`.
pub open spec fn runtime_download_url_spec(os: Os) -> Seq<char> {
    match os {
        Os::Windows => "https://github.com/adoptium/temurin21-binaries/releases/download/jdk-21.0.5%2B11/OpenJDK21U-jre_x64_windows_hotspot_21.0.5_11.zip"@,
        Os::MacOs => "https://github.com/adoptium/temurin21-binaries/releases/download/jdk-21.0.5%2B11/OpenJDK21U-jre_x64_mac_hotspot_21.0.5_11.tar.gz"@,
        Os::Linux => "https://github.com/adoptium/temurin21-binaries/releases/download/jdk-21.0.5%2B11/OpenJDK21U-jre_x64_linux_hotspot_21.0.5_11.tar.gz"@,
    }
}

/// Returns the runtime archive URL for `os`.
pub fn runtime_download_url(os: Os) -> (r: &'static str)
    ensures
        r@ == runtime_download_url_spec(os),
{
    match os {
        Os::Windows => "https://github.com/adoptium/temurin21-binaries/releases/download/jdk-21.0.5%2B11/OpenJDK21U-jre_x64_windows_hotspot_21.0.5_11.zip",
        Os::MacOs => "https://github.com/adoptium/temurin21-binaries/releases/download/jdk-21.0.5%2B11/OpenJDK21U-jre_x64_mac_hotspot_21.0.5_11.tar.gz",
        Os::Linux => "https://github.com/adoptium/temurin21-binaries/releases/download/jdk-21.0.5%2B11/OpenJDK21U-jre_x64_linux_hotspot_21.0.5_11.tar.gz",
    }
}

/// The local file name of the runtime archive: a zip on Windows, a
/// gzipped tar elsewhere.
pub fn runtime_archive_name(os: Os) -> (r: &'static str)
    ensures
        r@ == match os {
            Os::Windows => "java.zip"@,
            _ => "java.tar.gz"@,
        },
{
    match os {
        Os::Windows => "java.zip",
        _ => "java.tar.gz",
    }
}

/// The path of the runtime executable that unpacking the pinned archive
/// produces under the bundled-runtime directory.
pub open spec fn provisioned_java_exe_spec(java_dir: Seq<char>, os: Os) -> Seq<char> {
    match os {
        Os::Windows => java_dir + seq!['\\'] + "jdk-21.0.5+11-jre"@ + seq!['\\'] + "bin"@
            + seq!['\\'] + "javaw.exe"@,
        Os::MacOs => java_dir + seq!['/'] + "jdk-21.0.5+11-jre"@ + seq!['/'] + "Contents"@
            + seq!['/'] + "Home"@ + seq!['/'] + "bin"@ + seq!['/'] + "java"@,
        Os::Linux => java_dir + seq!['/'] + "jdk-21.0.5+11-jre"@ + seq!['/'] + "bin"@ + seq![
            '/',
        ] + "java"@,
    }
}

/// Returns the provisioned runtime executable path for `os`.
pub fn provisioned_java_exe(java_dir: &str, os: Os) -> (r: String)
    ensures
        r@ == provisioned_java_exe_spec(java_dir@, os),
{
    match os {
        Os::Windows => {
            let a = join_path(java_dir, os, "jdk-21.0.5+11-jre");
            let b = join_path(a.as_str(), os, "bin");
            let r = join_path(b.as_str(), os, "javaw.exe");
            proof {
                assert(r@ =~= provisioned_java_exe_spec(java_dir@, os));
            }
            r
        },
        Os::MacOs => {
            let a = join_path(java_dir, os, "jdk-21.0.5+11-jre");
            let b = join_path(a.as_str(), os, "Contents");
            let c = join_path(b.as_str(), os, "Home");
            let d = join_path(c.as_str(), os, "bin");
            let r = join_path(d.as_str(), os, "java");
            proof {
                assert(r@ =~= provisioned_java_exe_spec(java_dir@, os));
            }
            r
        },
        Os::Linux => {
            let a = join_path(java_dir, os, "jdk-21.0.5+11-jre");
            let b = join_path(a.as_str(), os, "bin");
            let r = join_path(b.as_str(), os, "java");
            proof {
                assert(r@ =~= provisioned_java_exe_spec(java_dir@, os));
            }
            r
        },
    }
}

/// The candidate executables a prior provisioning run may have left
/// under the bundled-runtime directory.
pub open spec fn bundled_candidates_spec(java_dir: Seq<char>, os: Os) -> Seq<Seq<char>> {
    match os {
        Os::Windows => seq![
            provisioned_java_exe_spec(java_dir, os),
            java_dir + seq!['\\'] + "bin"@ + seq!['\\'] + "javaw.exe"@,
        ],
        _ => seq![provisioned_java_exe_spec(java_dir, os)],
    }
}

/// Returns the bundled-runtime candidates, probed first.
pub fn bundled_java_candidates(java_dir: &str, os: Os) -> (r: Vec<String>)
    ensures
        r.deep_view() == bundled_candidates_spec(java_dir@, os),
{
    let mut r: Vec<String> = Vec::new();
    r.push(provisioned_java_exe(java_dir, os));
    match os {
        Os::Windows => {
            let a = join_path(java_dir, os, "bin");
            r.push(join_path(a.as_str(), os, "javaw.exe"));
            proof {
                assert(r.deep_view() =~~= bundled_candidates_spec(java_dir@, os));
            }
        },
        _ => {
            proof {
                assert(r.deep_view() =~~= bundled_candidates_spec(java_dir@, os));
            }
        },
    }
    r
}

/// The well-known per-OS locations where the vendor launcher keeps its
/// runtime, followed by common vendor install locations.
pub open spec fn system_candidates_spec(
    os: Os,
    home: Seq<char>,
    appdata: Seq<char>,
    localappdata: Seq<char>,
) -> Seq<Seq<char>> {
    match os {
        Os::Windows => seq![
            appdata
                + "\\.minecraft\\runtime\\java-runtime-delta\\windows-x64\\java-runtime-delta\\bin\\javaw.exe"@,
            appdata
                + "\\.minecraft\\runtime\\java-runtime-gamma\\windows-x64\\java-runtime-gamma\\bin\\javaw.exe"@,
            localappdata
                + "\\Packages\\Microsoft.4297127D64EC6_8wekyb3d8bbwe\\LocalCache\\Local\\runtime\\java-runtime-delta\\windows-x64\\java-runtime-delta\\bin\\javaw.exe"@,
            localappdata
                + "\\Packages\\Microsoft.4297127D64EC6_8wekyb3d8bbwe\\LocalCache\\Local\\runtime\\java-runtime-gamma\\windows-x64\\java-runtime-gamma\\bin\\javaw.exe"@,
            appdata
                + "\\.minecraft\\runtime\\java-runtime-beta\\windows-x64\\java-runtime-beta\\bin\\javaw.exe"@,
            appdata + "\\.minecraft\\runtime\\jre-legacy\\windows-x64\\jre-legacy\\bin\\javaw.exe"@,
            "C:\\Program Files\\Eclipse Adoptium\\jdk-21.0.5.11-hotspot\\bin\\javaw.exe"@,
            "C:\\Program Files\\Eclipse Adoptium\\jdk-21\\bin\\javaw.exe"@,
            "C:\\Program Files\\Eclipse Adoptium\\jre-21.0.5.11-hotspot\\bin\\javaw.exe"@,
            "C:\\Program Files\\Eclipse Adoptium\\jdk-17.0.13.11-hotspot\\bin\\javaw.exe"@,
            "C:\\Program Files\\Eclipse Adoptium\\jdk-17\\bin\\javaw.exe"@,
            "C:\\Program Files\\Java\\jdk-21\\bin\\javaw.exe"@,
            "C:\\Program Files\\Java\\jdk-17\\bin\\javaw.exe"@,
            "C:\\Program Files\\Java\\jre-21\\bin\\javaw.exe"@,
            "C:\\Program Files\\Java\\jre-17\\bin\\javaw.exe"@,
            "C:\\Program Files\\Microsoft\\jdk-21.0.5.11-hotspot\\bin\\javaw.exe"@,
            "C:\\Program Files\\Microsoft\\jdk-17.0.13.11-hotspot\\bin\\javaw.exe"@,
            "C:\\Program Files\\Zulu\\zulu-21\\bin\\javaw.exe"@,
            "C:\\Program Files\\Zulu\\zulu-17\\bin\\javaw.exe"@,
            "C:\\Program Files\\BellSoft\\LibericaJDK-21\\bin\\javaw.exe"@,
            "C:\\Program Files\\BellSoft\\LibericaJDK-17\\bin\\javaw.exe"@,
            "C:\\Program Files\\Amazon Corretto\\jdk21.0.5_11\\bin\\javaw.exe"@,
            "C:\\Program Files\\Amazon Corretto\\jdk17.0.13_11\\bin\\javaw.exe"@,
        ],
        Os::MacOs => seq![
            home
                + "/Library/Application Support/minecraft/runtime/java-runtime-delta/mac-os/java-runtime-delta/jre.bundle/Contents/Home/bin/java"@,
            home
                + "/Library/Application Support/minecraft/runtime/java-runtime-delta/mac-os-arm64/java-runtime-delta/jre.bundle/Contents/Home/bin/java"@,
            home
                + "/Library/Application Support/minecraft/runtime/java-runtime-gamma/mac-os/java-runtime-gamma/jre.bundle/Contents/Home/bin/java"@,
            home
                + "/Library/Application Support/minecraft/runtime/java-runtime-gamma/mac-os-arm64/java-runtime-gamma/jre.bundle/Contents/Home/bin/java"@,
            "/Library/Java/JavaVirtualMachines/temurin-21.jdk/Contents/Home/bin/java"@,
            "/Library/Java/JavaVirtualMachines/temurin-17.jdk/Contents/Home/bin/java"@,
        ],
        Os::Linux => seq![
            home + "/.minecraft/runtime/java-runtime-delta/linux/java-runtime-delta/bin/java"@,
            home + "/.minecraft/runtime/java-runtime-gamma/linux/java-runtime-gamma/bin/java"@,
            "/usr/lib/jvm/java-21-openjdk/bin/java"@,
            "/usr/lib/jvm/java-17-openjdk/bin/java"@,
            "/usr/lib/jvm/temurin-21-jdk/bin/java"@,
            "/usr/lib/jvm/temurin-17-jdk/bin/java"@,
        ],
    }
}

/// Returns the system-wide candidates for `os`, probed after the
/// bundled ones.
pub fn system_java_candidates(os: Os, home: &str, appdata: &str, localappdata: &str) -> (r: Vec<
    String,
>)
    ensures
        r.deep_view() == system_candidates_spec(os, home@, appdata@, localappdata@),
{
    let mut r: Vec<String> = Vec::new();
    match os {
        Os::Windows => {
            r.push(concat_strs(appdata, "\\.minecraft\\runtime\\java-runtime-delta\\windows-x64\\java-runtime-delta\\bin\\javaw.exe"));
            r.push(concat_strs(appdata, "\\.minecraft\\runtime\\java-runtime-gamma\\windows-x64\\java-runtime-gamma\\bin\\javaw.exe"));
            r.push(concat_strs(localappdata, "\\Packages\\Microsoft.4297127D64EC6_8wekyb3d8bbwe\\LocalCache\\Local\\runtime\\java-runtime-delta\\windows-x64\\java-runtime-delta\\bin\\javaw.exe"));
            r.push(concat_strs(localappdata, "\\Packages\\Microsoft.4297127D64EC6_8wekyb3d8bbwe\\LocalCache\\Local\\runtime\\java-runtime-gamma\\windows-x64\\java-runtime-gamma\\bin\\javaw.exe"));
            r.push(concat_strs(appdata, "\\.minecraft\\runtime\\java-runtime-beta\\windows-x64\\java-runtime-beta\\bin\\javaw.exe"));
            r.push(concat_strs(appdata, "\\.minecraft\\runtime\\jre-legacy\\windows-x64\\jre-legacy\\bin\\javaw.exe"));
            r.push("C:\\Program Files\\Eclipse Adoptium\\jdk-21.0.5.11-hotspot\\bin\\javaw.exe".to_owned());
            r.push("C:\\Program Files\\Eclipse Adoptium\\jdk-21\\bin\\javaw.exe".to_owned());
            r.push("C:\\Program Files\\Eclipse Adoptium\\jre-21.0.5.11-hotspot\\bin\\javaw.exe".to_owned());
            r.push("C:\\Program Files\\Eclipse Adoptium\\jdk-17.0.13.11-hotspot\\bin\\javaw.exe".to_owned());
            r.push("C:\\Program Files\\Eclipse Adoptium\\jdk-17\\bin\\javaw.exe".to_owned());
            r.push("C:\\Program Files\\Java\\jdk-21\\bin\\javaw.exe".to_owned());
            r.push("C:\\Program Files\\Java\\jdk-17\\bin\\javaw.exe".to_owned());
            r.push("C:\\Program Files\\Java\\jre-21\\bin\\javaw.exe".to_owned());
            r.push("C:\\Program Files\\Java\\jre-17\\bin\\javaw.exe".to_owned());
            r.push("C:\\Program Files\\Microsoft\\jdk-21.0.5.11-hotspot\\bin\\javaw.exe".to_owned());
            r.push("C:\\Program Files\\Microsoft\\jdk-17.0.13.11-hotspot\\bin\\javaw.exe".to_owned());
            r.push("C:\\Program Files\\Zulu\\zulu-21\\bin\\javaw.exe".to_owned());
            r.push("C:\\Program Files\\Zulu\\zulu-17\\bin\\javaw.exe".to_owned());
            r.push("C:\\Program Files\\BellSoft\\LibericaJDK-21\\bin\\javaw.exe".to_owned());
            r.push("C:\\Program Files\\BellSoft\\LibericaJDK-17\\bin\\javaw.exe".to_owned());
            r.push("C:\\Program Files\\Amazon Corretto\\jdk21.0.5_11\\bin\\javaw.exe".to_owned());
            r.push("C:\\Program Files\\Amazon Corretto\\jdk17.0.13_11\\bin\\javaw.exe".to_owned());
        },
        Os::MacOs => {
            r.push(concat_strs(home, "/Library/Application Support/minecraft/runtime/java-runtime-delta/mac-os/java-runtime-delta/jre.bundle/Contents/Home/bin/java"));
            r.push(concat_strs(home, "/Library/Application Support/minecraft/runtime/java-runtime-delta/mac-os-arm64/java-runtime-delta/jre.bundle/Contents/Home/bin/java"));
            r.push(concat_strs(home, "/Library/Application Support/minecraft/runtime/java-runtime-gamma/mac-os/java-runtime-gamma/jre.bundle/Contents/Home/bin/java"));
            r.push(concat_strs(home, "/Library/Application Support/minecraft/runtime/java-runtime-gamma/mac-os-arm64/java-runtime-gamma/jre.bundle/Contents/Home/bin/java"));
            r.push("/Library/Java/JavaVirtualMachines/temurin-21.jdk/Contents/Home/bin/java".to_owned());
            r.push("/Library/Java/JavaVirtualMachines/temurin-17.jdk/Contents/Home/bin/java".to_owned());
        },
        Os::Linux => {
            r.push(concat_strs(home, "/.minecraft/runtime/java-runtime-delta/linux/java-runtime-delta/bin/java"));
            r.push(concat_strs(home, "/.minecraft/runtime/java-runtime-gamma/linux/java-runtime-gamma/bin/java"));
            r.push("/usr/lib/jvm/java-21-openjdk/bin/java".to_owned());
            r.push("/usr/lib/jvm/java-17-openjdk/bin/java".to_owned());
            r.push("/usr/lib/jvm/temurin-21-jdk/bin/java".to_owned());
            r.push("/usr/lib/jvm/temurin-17-jdk/bin/java".to_owned());
        },
    }
    proof {
        assert(r.deep_view() =~~= system_candidates_spec(os, home@, appdata@, localappdata@));
    }
    r
}

/// The runtime executable under a JAVA_HOME directory.
pub fn java_home_candidate(java_home: &str, os: Os) -> (r: String)
    ensures
        r@ == java_home@ + match os {
            Os::Windows => "\\bin\\javaw.exe"@,
            _ => "/bin/java"@,
        },
{
    match os {
        Os::Windows => concat_strs(java_home, "\\bin\\javaw.exe"),
        _ => concat_strs(java_home, "/bin/java"),
    }
}

/// The lower-case form of an ASCII letter; other characters are kept.
pub open spec fn lower_ascii_char(c: char) -> char {
    if 'A' <= c && c <= 'Z' {
        (((c as u8) + 32) as u8) as char
    } else {
        c
    }
}

fn to_lower_ascii(c: char) -> (r: char)
    ensures
        r == lower_ascii_char(c),
{
    if 'A' <= c && c <= 'Z' {
        ((c as u8) + 32) as char
    } else {
        c
    }
}

/// Whether a search-path entry is the known broken shim wrapper: its
/// ASCII-lowered form holds "javapath".
pub fn is_javapath_shim(path: &str) -> (r: bool)
    ensures
        r == has_substring(path@.map_values(|c: char| lower_ascii_char(c)), "javapath"@),
{
    let len = path.unicode_len();
    let mut lowered = String::new();
    let mut i: usize = 0;
    while i < len
        invariant
            i <= len,
            len == path@.len(),
            lowered@ == path@.take(i as int).map_values(|c: char| lower_ascii_char(c)),
        decreases len - i,
    {
        let c = to_lower_ascii(path.get_char(i));
        lowered.push(c);
        proof {
            assert(lowered@ =~= path@.take(i as int + 1).map_values(
                |c: char| lower_ascii_char(c),
            ));
        }
        i += 1;
    }
    proof {
        assert(path@.take(len as int) =~= path@);
    }
    contains_str(lowered.as_str(), "javapath")
}

/// The javaw variant of a search-path entry: every "java.exe" replaced
/// with "javaw.exe".
pub fn javaw_variant(path: &str) -> (r: String)
    ensures
        r@ == replace_all_spec(path@, "java.exe"@, "javaw.exe"@),
{
    proof {
        reveal_strlit("java.exe");
    }
    replace_all(path, "java.exe", "javaw.exe")
}

/// A runtime executable that passed verification.
#[derive(Clone, Debug)]
pub struct RuntimeHandle {
    pub path: String,
}

/// Where the provisioner stands in its search.
#[derive(Clone, Copy, PartialEq, Eq, Structural, Debug)]
pub enum ProvisionPhase {
    /// Walking the candidate list.
    Searching,
    /// A candidate was handed out for probing.
    AwaitingProbe,
    /// The archive download and extraction were handed out.
    AwaitingFetch,
    /// The freshly provisioned executable was handed out for probing.
    AwaitingProvisionedProbe,
    /// A verified runtime is at hand.
    Done,
    /// Download or extraction failed: fatal.
    Failed,
}

/// What the surrounding process must do next.
#[derive(Clone, Debug)]
pub enum ProvisionAction {
    /// Execute the candidate with a version-query flag and report
    /// whether its output passed verification.
    Probe { path: String },
    /// Download the archive, unpack it beside it, delete the archive,
    /// and report success or failure.
    FetchAndExtract { url: String, archive: String, exe: String },
}

/// The provisioner: candidates are probed in order; when all fail, the
/// pinned archive is fetched and the unpacked executable is probed in
/// turn.
pub struct RuntimeProvisioner {
    pub candidates: Vec<String>,
    pub next: usize,
    pub url: String,
    pub archive: String,
    pub exe: String,
    pub phase: ProvisionPhase,
    pub handle: Option<RuntimeHandle>,
}

impl RuntimeProvisioner {
    /// The provisioner's internal consistency: an index into the
    /// candidate list while probing, and a handle exactly when done.
    pub open spec fn wf(&self) -> bool {
        &&& self.phase == ProvisionPhase::AwaitingProbe ==> self.next < self.candidates@.len()
        &&& self.phase == ProvisionPhase::Done <==> self.handle is Some
    }

    /// Starts a search over `candidates`, with the archive endpoint and
    /// destination fixed up front.
    pub fn new(candidates: Vec<String>, url: String, archive: String, exe: String) -> (r: Self)
        ensures
            r.wf(),
            r.phase == ProvisionPhase::Searching,
            r.next == 0,
            r.candidates@ == candidates@,
            r.url@ == url@,
            r.archive@ == archive@,
            r.exe@ == exe@,
    {
        RuntimeProvisioner {
            candidates,
            next: 0,
            url,
            archive,
            exe,
            phase: ProvisionPhase::Searching,
            handle: None,
        }
    }

    /// Hands out the next piece of outside work: probing the next
    /// candidate while any is left, else fetching the pinned archive.
    pub fn next_action(&mut self) -> (a: ProvisionAction)
        requires
            old(self).wf(),
            old(self).phase == ProvisionPhase::Searching,
        ensures
            final(self).wf(),
            final(self).candidates@ == old(self).candidates@,
            final(self).next == old(self).next,
            final(self).url@ == old(self).url@,
            final(self).archive@ == old(self).archive@,
            final(self).exe@ == old(self).exe@,
            old(self).next < old(self).candidates@.len() ==> final(self).phase
                == ProvisionPhase::AwaitingProbe && (a matches ProvisionAction::Probe { path }
                && path@ == old(self).candidates@[old(self).next as int]@),
            old(self).next >= old(self).candidates@.len() ==> final(self).phase
                == ProvisionPhase::AwaitingFetch && (a matches
                ProvisionAction::FetchAndExtract { url, archive, exe } && url@ == old(self).url@
                && archive@ == old(self).archive@ && exe@ == old(self).exe@),
    {
        if self.next < self.candidates.len() {
            self.phase = ProvisionPhase::AwaitingProbe;
            ProvisionAction::Probe { path: self.candidates[self.next].clone() }
        } else {
            self.phase = ProvisionPhase::AwaitingFetch;
            ProvisionAction::FetchAndExtract {
                url: self.url.clone(),
                archive: self.archive.clone(),
                exe: self.exe.clone(),
            }
        }
    }

    /// Records the outcome of probing a candidate: success ends the
    /// search with that candidate as the handle; failure moves on.
    pub fn on_probe_result(&mut self, ok: bool) -> (done: bool)
        requires
            old(self).wf(),
            old(self).phase == ProvisionPhase::AwaitingProbe,
        ensures
            final(self).wf(),
            final(self).candidates@ == old(self).candidates@,
            done == ok,
            ok ==> final(self).phase == ProvisionPhase::Done && (final(self).handle matches
                Some(h) && h.path@ == old(self).candidates@[old(self).next as int]@),
            !ok ==> final(self).phase == ProvisionPhase::Searching && final(self).next == old(
                self,
            ).next + 1 && final(self).handle is None,
    {
        if ok {
            self.handle = Some(RuntimeHandle { path: self.candidates[self.next].clone() });
            self.phase = ProvisionPhase::Done;
            true
        } else {
            let len = self.candidates.len();
            proof {
                assert(self.next < len);
            }
            self.next = self.next + 1;
            self.phase = ProvisionPhase::Searching;
            false
        }
    }

    /// Records the outcome of the download-and-extract fallback:
    /// failure is fatal; success hands the unpacked executable out for
    /// verification.
    pub fn on_fetch_result(&mut self, ok: bool)
        requires
            old(self).wf(),
            old(self).phase == ProvisionPhase::AwaitingFetch,
        ensures
            final(self).wf(),
            final(self).exe@ == old(self).exe@,
            ok ==> final(self).phase == ProvisionPhase::AwaitingProvisionedProbe,
            !ok ==> final(self).phase == ProvisionPhase::Failed,
    {
        if ok {
            self.phase = ProvisionPhase::AwaitingProvisionedProbe;
        } else {
            self.phase = ProvisionPhase::Failed;
        }
    }

    /// Records the verification of the provisioned executable: success
    /// yields the handle; failure is fatal.
    pub fn on_provisioned_probe(&mut self, ok: bool)
        requires
            old(self).wf(),
            old(self).phase == ProvisionPhase::AwaitingProvisionedProbe,
        ensures
            final(self).wf(),
            ok ==> final(self).phase == ProvisionPhase::Done && (final(self).handle matches
                Some(h) && h.path@ == old(self).exe@),
            !ok ==> final(self).phase == ProvisionPhase::Failed && final(self).handle is None,
    {
        if ok {
            self.handle = Some(RuntimeHandle { path: self.exe.clone() });
            self.phase = ProvisionPhase::Done;
        } else {
            self.phase = ProvisionPhase::Failed;
        }
    }
}

} // verus!
