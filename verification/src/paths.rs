//! Path mapping: the Maven-style coordinate mapper and the fixed game
//! directory layout. Every fetch target is addressed by a deterministic
//! path derived from manifest data, so provisioning is resumable.

use vstd::prelude::*;
use crate::platform::{Os, path_sep_char, path_separator};
use crate::text::replace_all;
use crate::text::replace_all_spec;

verus! {

/// `s` split on `sep`; the result always has at least one element.
pub open spec fn split_spec(s: Seq<char>, sep: char) -> Seq<Seq<char>>
    decreases s.len(),
{
    if s.len() == 0 {
        seq![Seq::<char>::empty()]
    } else if s[0] == sep {
        seq![Seq::<char>::empty()] + split_spec(s.skip(1), sep)
    } else {
        let r = split_spec(s.skip(1), sep);
        seq![seq![s[0]] + r[0]] + r.skip(1)
    }
}

pub proof fn lemma_split_spec_len(s: Seq<char>, sep: char)
    ensures
        split_spec(s, sep).len() >= 1,
    decreases s.len(),
{
    if s.len() != 0 {
        lemma_split_spec_len(s.skip(1), sep);
    }
}

/// Splits `s` on the separator character `sep`.
pub fn split_str(s: &str, sep: char) -> (r: Vec<String>)
    ensures
        r.deep_view() == split_spec(s@, sep),
    decreases s@.len(),
{
    let len = s.unicode_len();
    if len == 0 {
        let mut r: Vec<String> = Vec::new();
        r.push(String::new());
        proof {
            assert(r.deep_view() =~~= split_spec(s@, sep));
        }
        r
    } else {
        let c0 = s.get_char(0);
        let rest = s.substring_char(1, len);
        proof {
            assert(rest@ =~= s@.skip(1));
        }
        if c0 == sep {
            let mut r = split_str(rest, sep);
            r.insert(0, String::new());
            proof {
                assert(r.deep_view() =~~= split_spec(s@, sep));
            }
            r
        } else {
            let mut r = split_str(rest, sep);
            proof {
                lemma_split_spec_len(rest@, sep);
                assert(r.deep_view().len() >= 1);
            }
            let mut first = String::new();
            first.push(c0);
            first.append(r[0].as_str());
            r.set(0, first);
            proof {
                assert(r.deep_view() =~~= split_spec(s@, sep));
            }
            r
        }
    }
}

/// The relative path of the artifact named by a Maven-style coordinate
/// `group:artifact:version[:classifier]`. A coordinate with fewer than
/// three parts maps to itself unchanged.
pub open spec fn maven_path_spec(c: Seq<char>) -> Seq<char> {
    let parts = split_spec(c, ':');
    if parts.len() < 3 {
        c
    } else {
        let g = replace_all_spec(parts[0], "."@, "/"@);
        let base = g + "/"@ + parts[1] + "/"@ + parts[2] + "/"@ + parts[1] + "-"@ + parts[2];
        if parts.len() > 3 {
            base + "-"@ + parts[3] + ".jar"@
        } else {
            base + ".jar"@
        }
    }
}

/// Maps a Maven-style coordinate to the relative filesystem path of its
/// artifact.
pub fn maven_to_path(name: &str) -> (r: String)
    ensures
        r@ == maven_path_spec(name@),
{
    let parts = split_str(name, ':');
    if parts.len() < 3 {
        return name.to_owned();
    }
    proof {
        reveal_strlit(".");
    }
    let mut out = replace_all(parts[0].as_str(), ".", "/");
    out.append("/");
    out.append(parts[1].as_str());
    out.append("/");
    out.append(parts[2].as_str());
    out.append("/");
    out.append(parts[1].as_str());
    out.append("-");
    out.append(parts[2].as_str());
    if parts.len() > 3 {
        out.append("-");
        out.append(parts[3].as_str());
    }
    out.append(".jar");
    proof {
        assert(out@ =~= maven_path_spec(name@));
    }
    out
}

/// Appends one path component to `base` using the separator of `os`.
pub fn join_path(base: &str, os: Os, name: &str) -> (r: String)
    ensures
        r@ == base@ + seq![path_sep_char(os)] + name@,
{
    let mut out = base.to_owned();
    out.push(path_separator(os));
    out.append(name);
    proof {
        assert(out@ =~= base@ + seq![path_sep_char(os)] + name@);
    }
    out
}

/// The launcher's own game directory under the user's home directory.
pub open spec fn hegemonia_dir_spec(home: Seq<char>, os: Os) -> Seq<char> {
    match os {
        Os::Windows => home + seq!['\\'] + "AppData"@ + seq!['\\'] + "Roaming"@ + seq!['\\']
            + ".hegemonia"@,
        Os::MacOs => home + seq!['/'] + "Library"@ + seq!['/'] + "Application Support"@
            + seq!['/'] + "hegemonia"@,
        Os::Linux => home + seq!['/'] + ".hegemonia"@,
    }
}

/// Returns the launcher's game directory for the given home directory.
pub fn get_hegemonia_dir(home: &str, os: Os) -> (r: String)
    ensures
        r@ == hegemonia_dir_spec(home@, os),
{
    match os {
        Os::Windows => {
            let a = join_path(home, os, "AppData");
            let b = join_path(a.as_str(), os, "Roaming");
            let r = join_path(b.as_str(), os, ".hegemonia");
            proof {
                assert(r@ =~= hegemonia_dir_spec(home@, os));
            }
            r
        },
        Os::MacOs => {
            let a = join_path(home, os, "Library");
            let b = join_path(a.as_str(), os, "Application Support");
            let r = join_path(b.as_str(), os, "hegemonia");
            proof {
                assert(r@ =~= hegemonia_dir_spec(home@, os));
            }
            r
        },
        Os::Linux => {
            let r = join_path(home, os, ".hegemonia");
            proof {
                assert(r@ =~= hegemonia_dir_spec(home@, os));
            }
            r
        },
    }
}

/// The game directory all provisioning happens under; the launcher uses
/// its own directory rather than the stock game's.
pub fn get_game_dir(home: &str, os: Os) -> (r: String)
    ensures
        r@ == hegemonia_dir_spec(home@, os),
{
    get_hegemonia_dir(home, os)
}

/// The stock game's installation directory under the user's home
/// directory.
pub open spec fn minecraft_dir_spec(home: Seq<char>, os: Os) -> Seq<char> {
    match os {
        Os::Windows => home + seq!['\\'] + "AppData"@ + seq!['\\'] + "Roaming"@ + seq!['\\']
            + ".minecraft"@,
        Os::MacOs => home + seq!['/'] + "Library"@ + seq!['/'] + "Application Support"@
            + seq!['/'] + "minecraft"@,
        Os::Linux => home + seq!['/'] + ".minecraft"@,
    }
}

/// Returns the stock game's installation directory for the given home
/// directory.
pub fn get_minecraft_dir(home: &str, os: Os) -> (r: String)
    ensures
        r@ == minecraft_dir_spec(home@, os),
{
    match os {
        Os::Windows => {
            let a = join_path(home, os, "AppData");
            let b = join_path(a.as_str(), os, "Roaming");
            let r = join_path(b.as_str(), os, ".minecraft");
            proof {
                assert(r@ =~= minecraft_dir_spec(home@, os));
            }
            r
        },
        Os::MacOs => {
            let a = join_path(home, os, "Library");
            let b = join_path(a.as_str(), os, "Application Support");
            let r = join_path(b.as_str(), os, "minecraft");
            proof {
                assert(r@ =~= minecraft_dir_spec(home@, os));
            }
            r
        },
        Os::Linux => {
            let r = join_path(home, os, ".minecraft");
            proof {
                assert(r@ =~= minecraft_dir_spec(home@, os));
            }
            r
        },
    }
}

/// The natives directory under the game directory.
pub fn get_natives_dir(game_dir: &str, os: Os) -> (r: String)
    ensures
        r@ == game_dir@ + seq![path_sep_char(os)] + "natives"@,
{
    join_path(game_dir, os, "natives")
}

/// The libraries directory under the game directory.
pub fn get_libraries_dir(game_dir: &str, os: Os) -> (r: String)
    ensures
        r@ == game_dir@ + seq![path_sep_char(os)] + "libraries"@,
{
    join_path(game_dir, os, "libraries")
}

/// The assets directory under the game directory.
pub fn get_assets_dir(game_dir: &str, os: Os) -> (r: String)
    ensures
        r@ == game_dir@ + seq![path_sep_char(os)] + "assets"@,
{
    join_path(game_dir, os, "assets")
}

/// The versions directory under the game directory.
pub fn get_versions_dir(game_dir: &str, os: Os) -> (r: String)
    ensures
        r@ == game_dir@ + seq![path_sep_char(os)] + "versions"@,
{
    join_path(game_dir, os, "versions")
}

/// The bundled-runtime directory under the game directory.
pub fn get_java_dir(game_dir: &str, os: Os) -> (r: String)
    ensures
        r@ == game_dir@ + seq![path_sep_char(os)] + "java"@,
{
    join_path(game_dir, os, "java")
}

/// The mods directory under the game directory.
pub fn get_mods_dir(game_dir: &str, os: Os) -> (r: String)
    ensures
        r@ == game_dir@ + seq![path_sep_char(os)] + "mods"@,
{
    join_path(game_dir, os, "mods")
}

/// The diagnostic log file under the game directory.
pub fn launch_log_path(game_dir: &str, os: Os) -> (r: String)
    ensures
        r@ == game_dir@ + seq![path_sep_char(os)] + "launch.log"@,
{
    join_path(game_dir, os, "launch.log")
}

/// The client archive path `versions/<id>.jar`.
pub fn client_jar_path(versions_dir: &str, version_id: &str, os: Os) -> (r: String)
    ensures
        r@ == versions_dir@ + seq![path_sep_char(os)] + version_id@ + ".jar"@,
{
    let mut name = version_id.to_owned();
    name.append(".jar");
    let r = join_path(versions_dir, os, name.as_str());
    proof {
        assert(r@ =~= versions_dir@ + seq![path_sep_char(os)] + version_id@ + ".jar"@);
    }
    r
}

/// The on-disk path of the asset index document
/// `assets/indexes/<id>.json`.
pub fn asset_index_path(assets_dir: &str, index_id: &str, os: Os) -> (r: String)
    ensures
        r@ == assets_dir@ + seq![path_sep_char(os)] + "indexes"@ + seq![path_sep_char(os)]
            + index_id@ + ".json"@,
{
    let base = join_path(assets_dir, os, "indexes");
    let mut name = index_id.to_owned();
    name.append(".json");
    let r = join_path(base.as_str(), os, name.as_str());
    proof {
        assert(r@ =~= assets_dir@ + seq![path_sep_char(os)] + "indexes"@ + seq![path_sep_char(
            os,
        )] + index_id@ + ".json"@);
    }
    r
}

/// The content-addressed object path
/// `assets/objects/<2-char prefix>/<hash>`.
pub fn asset_object_path(assets_dir: &str, hash: &str, os: Os) -> (r: String)
    requires
        hash@.len() >= 2,
    ensures
        r@ == assets_dir@ + seq![path_sep_char(os)] + "objects"@ + seq![path_sep_char(os)]
            + hash@.subrange(0, 2) + seq![path_sep_char(os)] + hash@,
{
    let base = join_path(assets_dir, os, "objects");
    let prefix = hash.substring_char(0, 2);
    let mid = join_path(base.as_str(), os, prefix);
    let r = join_path(mid.as_str(), os, hash);
    proof {
        assert(r@ =~= assets_dir@ + seq![path_sep_char(os)] + "objects"@ + seq![path_sep_char(
            os,
        )] + hash@.subrange(0, 2) + seq![path_sep_char(os)] + hash@);
    }
    r
}

/// The download URL of a content-addressed object on the resource host:
/// `<host>/<2-char prefix>/<hash>`.
pub fn asset_object_url(resource_host: &str, hash: &str) -> (r: String)
    requires
        hash@.len() >= 2,
    ensures
        r@ == resource_host@ + seq!['/'] + hash@.subrange(0, 2) + seq!['/'] + hash@,
{
    let mut out = resource_host.to_owned();
    out.push('/');
    let prefix = hash.substring_char(0, 2);
    out.append(prefix);
    out.push('/');
    out.append(hash);
    proof {
        assert(out@ =~= resource_host@ + seq!['/'] + hash@.subrange(0, 2) + seq!['/'] + hash@);
    }
    out
}

/// The version identifier of the mod-loader profile,
/// `fabric-loader-<loader>-<game>`.
pub fn fabric_version_id(loader_version: &str, game_version: &str) -> (r: String)
    ensures
        r@ == "fabric-loader-"@ + loader_version@ + seq!['-'] + game_version@,
{
    let mut out = "fabric-loader-".to_owned();
    out.append(loader_version);
    out.push('-');
    out.append(game_version);
    proof {
        assert(out@ =~= "fabric-loader-"@ + loader_version@ + seq!['-'] + game_version@);
    }
    out
}

/// The mod-loader profile endpoint for a game version and loader
/// version pair.
pub fn fabric_profile_url(meta_base: &str, game_version: &str, loader_version: &str) -> (r:
    String)
    ensures
        r@ == meta_base@ + "/versions/loader/"@ + game_version@ + seq!['/'] + loader_version@
            + "/profile/json"@,
{
    let mut out = meta_base.to_owned();
    out.append("/versions/loader/");
    out.append(game_version);
    out.push('/');
    out.append(loader_version);
    out.append("/profile/json");
    proof {
        assert(out@ =~= meta_base@ + "/versions/loader/"@ + game_version@ + seq!['/']
            + loader_version@ + "/profile/json"@);
    }
    out
}

/// Whether a directory entry names a mod archive.
pub fn is_jar_file(name: &str) -> (r: bool)
    ensures
        r == crate::text::suffix_of(".jar"@, name@),
{
    crate::text::ends_with_str(name, ".jar")
}

/// Concatenates two strings.
pub fn concat_strs(a: &str, b: &str) -> (r: String)
    ensures
        r@ == a@ + b@,
{
    let mut out = a.to_owned();
    out.append(b);
    out
}

} // verus!
