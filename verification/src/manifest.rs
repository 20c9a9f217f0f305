//! Data model of the fetched documents: version manifest, per-version
//! metadata, mod-loader profile and asset index, with the verified
//! lookups over them (pinned-version search, native classifier
//! resolution).

use vstd::prelude::*;
use crate::platform::{Arch, Os, arch_bits_spec, get_arch, get_os_name, os_name_spec};
use crate::rules::Rule;
use crate::text::{replace_all, replace_all_spec, str_eq};

verus! {

/// One entry of the version manifest: a version id and where its full
/// metadata lives.
#[derive(Clone, Debug)]
pub struct VersionEntry {
    pub id: String,
    pub url: String,
}

/// The top-level index of available game versions.
#[derive(Clone, Debug)]
pub struct VersionManifest {
    pub versions: Vec<VersionEntry>,
}

/// A downloadable artifact: its library-relative path, source URL,
/// checksum and size.
#[derive(Clone, Debug)]
pub struct ArtifactInfo {
    pub path: String,
    pub url: String,
    pub checksum: String,
    pub size: u64,
}

/// The client binary download of a version.
#[derive(Clone, Debug)]
pub struct ClientDownload {
    pub url: String,
    pub checksum: String,
    pub size: u64,
}

/// The asset index reference of a version.
#[derive(Clone, Debug)]
pub struct AssetIndexRef {
    pub id: String,
    pub url: String,
}

/// One library dependency of a version: its coordinate, its main
/// artifact, its per-platform native classifiers, and the rules deciding
/// where it applies.
#[derive(Clone, Debug)]
pub struct Library {
    pub coordinate: String,
    pub artifact: Option<ArtifactInfo>,
    pub classifiers: Vec<(String, ArtifactInfo)>,
    pub platform_native_keys: Vec<(String, String)>,
    pub rules: Option<Vec<Rule>>,
}

/// The full metadata of one game version.
#[derive(Clone, Debug)]
pub struct VersionMetadata {
    pub id: String,
    pub asset_index: AssetIndexRef,
    pub client: ClientDownload,
    pub libraries: Vec<Library>,
    pub main_class: String,
}

/// One object of the asset index: its logical name, content hash and
/// size.
#[derive(Clone, Debug)]
pub struct AssetObjectEntry {
    pub name: String,
    pub hash: String,
    pub size: u64,
}

/// One library of the mod-loader profile: a coordinate and an optional
/// repository override.
#[derive(Clone, Debug)]
pub struct FabricLibrary {
    pub name: String,
    pub url: Option<String>,
}

/// The mod-loader profile: the entry-point class and the libraries it
/// needs.
#[derive(Clone, Debug)]
pub struct FabricProfile {
    pub main_class: String,
    pub libraries: Vec<FabricLibrary>,
}

/// Linear search for `pinned` among the manifest's versions; finds the
/// first entry whose id matches.
pub fn find_version(manifest: &VersionManifest, pinned: &str) -> (r: Option<usize>)
    ensures
        match r {
            Some(i) => i < manifest.versions.len() && manifest.versions@[i as int].id@ == pinned@
                && forall|j: int| 0 <= j < i ==> manifest.versions@[j].id@ != pinned@,
            None => forall|j: int|
                0 <= j < manifest.versions.len() ==> manifest.versions@[j].id@ != pinned@,
        },
{
    let mut i: usize = 0;
    while i < manifest.versions.len()
        invariant
            i <= manifest.versions.len(),
            forall|j: int| 0 <= j < i ==> manifest.versions@[j].id@ != pinned@,
        decreases manifest.versions.len() - i,
    {
        if str_eq(manifest.versions[i].id.as_str(), pinned) {
            return Some(i);
        }
        i += 1;
    }
    None
}

/// First-match lookup in a key-to-string association list.
pub open spec fn assoc_str_spec(entries: Seq<(String, String)>, key: Seq<char>) -> Option<
    Seq<char>,
>
    decreases entries.len(),
{
    if entries.len() == 0 {
        None
    } else if entries[0].0@ == key {
        Some(entries[0].1@)
    } else {
        assoc_str_spec(entries.skip(1), key)
    }
}

/// First-match lookup in a key-to-artifact association list.
pub open spec fn assoc_artifact_spec(entries: Seq<(String, ArtifactInfo)>, key: Seq<char>)
    -> Option<ArtifactInfo>
    decreases entries.len(),
{
    if entries.len() == 0 {
        None
    } else if entries[0].0@ == key {
        Some(entries[0].1)
    } else {
        assoc_artifact_spec(entries.skip(1), key)
    }
}

/// Looks `key` up in a key-to-string association list; returns the index
/// of the first match.
pub fn lookup_str_key(entries: &Vec<(String, String)>, key: &str) -> (r: Option<usize>)
    ensures
        match r {
            Some(i) => i < entries.len() && entries@[i as int].0@ == key@ && assoc_str_spec(
                entries@,
                key@,
            ) == Some(entries@[i as int].1@),
            None => assoc_str_spec(entries@, key@) is None,
        },
{
    let mut i: usize = 0;
    proof {
        assert(entries@.skip(0) =~= entries@);
    }
    while i < entries.len()
        invariant
            i <= entries.len(),
            assoc_str_spec(entries@, key@) == assoc_str_spec(entries@.skip(i as int), key@),
        decreases entries.len() - i,
    {
        let ghost tail = entries@.skip(i as int);
        proof {
            assert(tail[0] == entries@[i as int]);
            assert(tail.skip(1) =~= entries@.skip(i as int + 1));
        }
        if str_eq(entries[i].0.as_str(), key) {
            return Some(i);
        }
        i += 1;
    }
    proof {
        assert(entries@.skip(entries.len() as int) =~= Seq::<(String, String)>::empty());
    }
    None
}

/// Looks `key` up in a key-to-artifact association list; returns the
/// index of the first match.
pub fn lookup_artifact_key(entries: &Vec<(String, ArtifactInfo)>, key: &str) -> (r: Option<
    usize,
>)
    ensures
        match r {
            Some(i) => i < entries.len() && entries@[i as int].0@ == key@
                && assoc_artifact_spec(entries@, key@) == Some(entries@[i as int].1),
            None => assoc_artifact_spec(entries@, key@) is None,
        },
{
    let mut i: usize = 0;
    proof {
        assert(entries@.skip(0) =~= entries@);
    }
    while i < entries.len()
        invariant
            i <= entries.len(),
            assoc_artifact_spec(entries@, key@) == assoc_artifact_spec(
                entries@.skip(i as int),
                key@,
            ),
        decreases entries.len() - i,
    {
        let ghost tail = entries@.skip(i as int);
        proof {
            assert(tail[0] == entries@[i as int]);
            assert(tail.skip(1) =~= entries@.skip(i as int + 1));
        }
        if str_eq(entries[i].0.as_str(), key) {
            return Some(i);
        }
        i += 1;
    }
    proof {
        assert(entries@.skip(entries.len() as int) =~= Seq::<(String, ArtifactInfo)>::empty());
    }
    None
}

/// The native classifier key a library selects for the host platform:
/// the per-OS key with the architecture marker substituted.
pub open spec fn native_key_spec(lib: Library, os: Os, arch: Arch) -> Option<Seq<char>> {
    match assoc_str_spec(lib.platform_native_keys@, os_name_spec(os)) {
        None => None,
        Some(k) => Some(replace_all_spec(k, "${arch}"@, arch_bits_spec(arch))),
    }
}

/// The native artifact a library provides for the host platform, if
/// any.
pub open spec fn native_artifact_spec(lib: Library, os: Os, arch: Arch) -> Option<ArtifactInfo> {
    match native_key_spec(lib, os, arch) {
        None => None,
        Some(k) => assoc_artifact_spec(lib.classifiers@, k),
    }
}

/// Resolves the native artifact of `lib` for the host platform; returns
/// the index into `lib.classifiers` of the selected artifact.
pub fn native_artifact_for(lib: &Library, os: Os, arch: Arch) -> (r: Option<usize>)
    ensures
        match r {
            Some(i) => i < lib.classifiers.len() && native_artifact_spec(*lib, os, arch)
                == Some(lib.classifiers@[i as int].1),
            None => native_artifact_spec(*lib, os, arch) is None,
        },
{
    let os_name = get_os_name(os);
    match lookup_str_key(&lib.platform_native_keys, os_name) {
        None => None,
        Some(i) => {
            proof {
                reveal_strlit("${arch}");
            }
            let key = replace_all(lib.platform_native_keys[i].1.as_str(), "${arch}", get_arch(
                arch,
            ));
            lookup_artifact_key(&lib.classifiers, key.as_str())
        },
    }
}

} // verus!
