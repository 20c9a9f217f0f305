//! Download planning: the idempotent "download to path if absent"
//! decision, the asset synchronisation plan, and the library download
//! plans derived from version metadata and the mod-loader profile.

use vstd::prelude::*;
use crate::manifest::{AssetObjectEntry, FabricLibrary, Library, native_artifact_for,
    native_artifact_spec};
use crate::paths::{asset_object_path, asset_object_url, concat_strs, join_path, maven_path_spec,
    maven_to_path};
use crate::platform::{Arch, Os, path_sep_char};
use crate::rules::{library_applies, rules_allow};

verus! {

/// What the content fetcher does for one destination.
#[derive(Clone, Copy, PartialEq, Eq, Structural, Debug)]
pub enum FetchAction {
    /// The destination already exists: succeed without a network call.
    UseExisting,
    /// The destination is absent: download and write it.
    Download,
}

/// One planned transfer: a source URL and a destination path.
#[derive(Clone, Debug)]
pub struct FetchTarget {
    pub url: String,
    pub dest: String,
}

/// The fetcher's decision for a destination that does or does not
/// already exist.
pub fn fetch_decision(dest_exists: bool) -> (r: FetchAction)
    ensures
        r == if dest_exists {
            FetchAction::UseExisting
        } else {
            FetchAction::Download
        },
{
    if dest_exists {
        FetchAction::UseExisting
    } else {
        FetchAction::Download
    }
}

/// Model of the fetcher against a set of already-present destination
/// paths: the action it takes for `dest`.
pub open spec fn fetch_model_action(present: Set<Seq<char>>, dest: Seq<char>) -> FetchAction {
    if present.contains(dest) {
        FetchAction::UseExisting
    } else {
        FetchAction::Download
    }
}

/// Model of the fetcher: the set of present paths after a successful
/// fetch of `dest`.
pub open spec fn fetch_model_after(present: Set<Seq<char>>, dest: Seq<char>) -> Set<Seq<char>> {
    present.insert(dest)
}

/// Law (ContentFetcher idempotence): fetching the same destination twice
/// performs exactly one download when the file was absent and none when
/// it was present; the second call always finds the file and is a no-op
/// success.
pub proof fn lemma_fetch_idempotent(present: Set<Seq<char>>, dest: Seq<char>)
    ensures
        fetch_model_action(fetch_model_after(present, dest), dest) == FetchAction::UseExisting,
        !present.contains(dest) ==> fetch_model_action(present, dest) == FetchAction::Download,
        present.contains(dest) ==> fetch_model_action(present, dest) == FetchAction::UseExisting
            && fetch_model_after(present, dest) == present,
{
    if present.contains(dest) {
        assert(fetch_model_after(present, dest) =~= present);
    }
}

/// The indices of the entries marked absent, in increasing order.
pub open spec fn missing_indices(present: Seq<bool>) -> Seq<int>
    decreases present.len(),
{
    if present.len() == 0 {
        Seq::empty()
    } else {
        let prefix = missing_indices(present.drop_last());
        if present.last() {
            prefix
        } else {
            prefix.push(present.len() - 1)
        }
    }
}

/// The number of entries marked present.
pub open spec fn count_present(present: Seq<bool>) -> int
    decreases present.len(),
{
    if present.len() == 0 {
        0int
    } else {
        count_present(present.drop_last()) + if present.last() {
            1int
        } else {
            0int
        }
    }
}

/// Law (AssetSync): for an index with N objects of which M already exist
/// on disk, exactly N − M objects are fetched.
pub proof fn lemma_asset_fetch_count(present: Seq<bool>)
    ensures
        missing_indices(present).len() + count_present(present) == present.len(),
    decreases present.len(),
{
    if present.len() > 0 {
        lemma_asset_fetch_count(present.drop_last());
    }
}

/// Law (AssetSync): every planned index denotes an absent object, the
/// indices come in strictly increasing order, and no absent object is
/// passed over.
pub proof fn lemma_missing_indices_characterized(present: Seq<bool>)
    ensures
        forall|k: int|
            0 <= k < missing_indices(present).len() ==> 0 <= #[trigger] missing_indices(
                present,
            )[k] < present.len() && !present[missing_indices(present)[k]],
        forall|k1: int, k2: int|
            0 <= k1 < k2 < missing_indices(present).len() ==> #[trigger] missing_indices(
                present,
            )[k1] < #[trigger] missing_indices(present)[k2],
    decreases present.len(),
{
    if present.len() > 0 {
        lemma_missing_indices_characterized(present.drop_last());
        let prefix = missing_indices(present.drop_last());
        let cur = missing_indices(present);
        assert forall|k: int| 0 <= k < cur.len() implies 0 <= #[trigger] cur[k] < present.len()
            && !present[cur[k]] by {
            if k < prefix.len() {
                assert(cur[k] == prefix[k]);
                assert(!present.drop_last()[prefix[k]]);
                assert(present.drop_last()[prefix[k]] == present[prefix[k]]);
            } else {
                assert(cur[k] == present.len() - 1);
            }
        }
        assert forall|k1: int, k2: int| 0 <= k1 < k2 < cur.len() implies #[trigger] cur[k1]
            < #[trigger] cur[k2] by {
            if k2 < prefix.len() {
                assert(cur[k1] == prefix[k1]);
                assert(cur[k2] == prefix[k2]);
            } else {
                assert(cur[k1] == prefix[k1]);
                assert(0 <= prefix[k1] < present.drop_last().len());
                assert(cur[k2] == present.len() - 1);
            }
        }
    }
}

/// Plans the asset synchronisation: returns, in increasing order, the
/// indices of the objects that must be fetched because they are absent.
pub fn plan_asset_sync(present: &Vec<bool>) -> (r: Vec<usize>)
    ensures
        r@.len() == missing_indices(present@).len(),
        forall|k: int| 0 <= k < r@.len() ==> r@[k] as int == missing_indices(present@)[k],
{
    let mut r: Vec<usize> = Vec::new();
    let mut i: usize = 0;
    proof {
        assert(present@.take(0) =~= Seq::<bool>::empty());
    }
    while i < present.len()
        invariant
            i <= present.len(),
            r@.len() == missing_indices(present@.take(i as int)).len(),
            forall|k: int|
                0 <= k < r@.len() ==> r@[k] as int == missing_indices(present@.take(i as int))[k],
        decreases present.len() - i,
    {
        proof {
            assert(present@.take(i as int + 1).drop_last() =~= present@.take(i as int));
            assert(present@.take(i as int + 1).last() == present@[i as int]);
        }
        if !present[i] {
            r.push(i);
        }
        i += 1;
    }
    proof {
        assert(present@.take(present.len() as int) =~= present@);
    }
    r
}

/// Plans the asset downloads themselves: one fetch target per absent
/// object, addressed by the content hash's two-character prefix both on
/// the resource host and under the assets directory.
pub fn plan_asset_downloads(
    objects: &Vec<AssetObjectEntry>,
    present: &Vec<bool>,
    assets_dir: &str,
    resource_host: &str,
    os: Os,
) -> (r: Vec<FetchTarget>)
    requires
        objects.len() == present.len(),
        forall|j: int| 0 <= j < objects@.len() ==> objects@[j].hash@.len() >= 2,
    ensures
        r@.len() == missing_indices(present@).len(),
        forall|k: int|
            0 <= k < r@.len() ==> r@[k].url@ == resource_host@ + seq!['/'] + objects@[
                missing_indices(present@)[k]
            ].hash@.subrange(0, 2) + seq!['/'] + objects@[missing_indices(present@)[k]].hash@,
        forall|k: int|
            0 <= k < r@.len() ==> r@[k].dest@ == assets_dir@ + seq![path_sep_char(os)]
                + "objects"@ + seq![path_sep_char(os)] + objects@[
                missing_indices(present@)[k]
            ].hash@.subrange(0, 2) + seq![path_sep_char(os)] + objects@[
                missing_indices(present@)[k]
            ].hash@,
{
    let mut r: Vec<FetchTarget> = Vec::new();
    let mut i: usize = 0;
    proof {
        assert(present@.take(0) =~= Seq::<bool>::empty());
    }
    while i < present.len()
        invariant
            i <= present.len(),
            objects.len() == present.len(),
            forall|j: int| 0 <= j < objects@.len() ==> objects@[j].hash@.len() >= 2,
            r@.len() == missing_indices(present@.take(i as int)).len(),
            forall|k: int|
                0 <= k < r@.len() ==> r@[k].url@ == resource_host@ + seq!['/'] + objects@[
                    missing_indices(present@.take(i as int))[k]
                ].hash@.subrange(0, 2) + seq!['/'] + objects@[
                    missing_indices(present@.take(i as int))[k]
                ].hash@,
            forall|k: int|
                0 <= k < r@.len() ==> r@[k].dest@ == assets_dir@ + seq![path_sep_char(os)]
                    + "objects"@ + seq![path_sep_char(os)] + objects@[
                    missing_indices(present@.take(i as int))[k]
                ].hash@.subrange(0, 2) + seq![path_sep_char(os)] + objects@[
                    missing_indices(present@.take(i as int))[k]
                ].hash@,
        decreases present.len() - i,
    {
        proof {
            assert(present@.take(i as int + 1).drop_last() =~= present@.take(i as int));
            assert(present@.take(i as int + 1).last() == present@[i as int]);
        }
        if !present[i] {
            let url = asset_object_url(resource_host, objects[i].hash.as_str());
            let dest = asset_object_path(assets_dir, objects[i].hash.as_str(), os);
            r.push(FetchTarget { url, dest });
        }
        i += 1;
    }
    proof {
        assert(present@.take(present.len() as int) =~= present@);
    }
    r
}

/// Whether a library applies on the host OS: its rule list allows the
/// host, or it has no rules.
pub open spec fn lib_applies_spec(lib: Library, host: Os) -> bool {
    match lib.rules {
        Some(v) => rules_allow(v@, host),
        None => true,
    }
}

/// The indices of the libraries that apply on the host OS, in order.
pub open spec fn applying_indices(libs: Seq<Library>, host: Os) -> Seq<int>
    decreases libs.len(),
{
    if libs.len() == 0 {
        Seq::empty()
    } else {
        let prefix = applying_indices(libs.drop_last(), host);
        if lib_applies_spec(libs.last(), host) {
            prefix.push(libs.len() - 1)
        } else {
            prefix
        }
    }
}

/// The number of libraries whose rules allow the host OS.
pub open spec fn count_applying(libs: Seq<Library>, host: Os) -> int
    decreases libs.len(),
{
    if libs.len() == 0 {
        0int
    } else {
        count_applying(libs.drop_last(), host) + if lib_applies_spec(libs.last(), host) {
            1int
        } else {
            0int
        }
    }
}

/// Law (RuleEvaluator over the library stage): the plan covers exactly
/// the libraries whose rules allow the host, in metadata order;
/// libraries selected for the wrong platform are skipped.
pub proof fn lemma_applying_indices_characterized(libs: Seq<Library>, host: Os)
    ensures
        applying_indices(libs, host).len() == count_applying(libs, host),
        forall|k: int|
            0 <= k < applying_indices(libs, host).len() ==> 0 <= #[trigger] applying_indices(
                libs,
                host,
            )[k] < libs.len() && lib_applies_spec(libs[applying_indices(libs, host)[k]], host),
        forall|k1: int, k2: int|
            0 <= k1 < k2 < applying_indices(libs, host).len() ==> #[trigger] applying_indices(
                libs,
                host,
            )[k1] < #[trigger] applying_indices(libs, host)[k2],
    decreases libs.len(),
{
    if libs.len() > 0 {
        lemma_applying_indices_characterized(libs.drop_last(), host);
    }
}

/// The plan for one applying library: its classpath entry and the
/// transfers of its main artifact and its native classifier artifact.
#[derive(Clone, Debug)]
pub struct PlannedLibrary {
    pub classpath_entry: Option<String>,
    pub artifact_fetch: Option<FetchTarget>,
    pub native_fetch: Option<FetchTarget>,
}

/// The plan `p` is correct for the library `lib`: present exactly when
/// the metadata offers an artifact, addressed under the libraries
/// directory by the artifact's relative path.
pub open spec fn planned_for(
    p: PlannedLibrary,
    lib: Library,
    libraries_dir: Seq<char>,
    os: Os,
    arch: Arch,
) -> bool {
    &&& match lib.artifact {
        Some(a) => {
            &&& p.classpath_entry matches Some(c) && c@ == libraries_dir + seq![
                path_sep_char(os),
            ] + a.path@
            &&& p.artifact_fetch matches Some(t) && t.url@ == a.url@ && t.dest@ == libraries_dir
                + seq![path_sep_char(os)] + a.path@
        },
        None => p.classpath_entry is None && p.artifact_fetch is None,
    }
    &&& match native_artifact_spec(lib, os, arch) {
        Some(na) => p.native_fetch matches Some(t) && t.url@ == na.url@ && t.dest@
            == libraries_dir + seq![path_sep_char(os)] + na.path@,
        None => p.native_fetch is None,
    }
}

fn plan_one_library(lib: &Library, libraries_dir: &str, os: Os, arch: Arch) -> (r:
    PlannedLibrary)
    ensures
        planned_for(r, *lib, libraries_dir@, os, arch),
{
    let (classpath_entry, artifact_fetch): (Option<String>, Option<FetchTarget>) = match &lib
        .artifact {
        Some(a) => {
            let dest = join_path(libraries_dir, os, a.path.as_str());
            let entry = dest.clone();
            (Some(entry), Some(FetchTarget { url: a.url.clone(), dest }))
        },
        None => (None, None),
    };
    let native_fetch: Option<FetchTarget> = match native_artifact_for(lib, os, arch) {
        Some(i) => {
            let dest = join_path(libraries_dir, os, lib.classifiers[i].1.path.as_str());
            Some(FetchTarget { url: lib.classifiers[i].1.url.clone(), dest })
        },
        None => None,
    };
    PlannedLibrary { classpath_entry, artifact_fetch, native_fetch }
}

/// Plans the library stage: one plan entry for each library whose rules
/// allow the host OS, in metadata order; libraries whose rules deny the
/// host are skipped entirely.
pub fn plan_library_downloads(
    libs: &Vec<Library>,
    libraries_dir: &str,
    os: Os,
    arch: Arch,
) -> (r: Vec<PlannedLibrary>)
    ensures
        r@.len() == applying_indices(libs@, os).len(),
        forall|k: int|
            0 <= k < r@.len() ==> planned_for(
                r@[k],
                libs@[applying_indices(libs@, os)[k]],
                libraries_dir@,
                os,
                arch,
            ),
{
    let mut r: Vec<PlannedLibrary> = Vec::new();
    let mut i: usize = 0;
    proof {
        assert(libs@.take(0) =~= Seq::<Library>::empty());
    }
    while i < libs.len()
        invariant
            i <= libs.len(),
            r@.len() == applying_indices(libs@.take(i as int), os).len(),
            forall|k: int|
                0 <= k < r@.len() ==> planned_for(
                    r@[k],
                    libs@[applying_indices(libs@.take(i as int), os)[k]],
                    libraries_dir@,
                    os,
                    arch,
                ),
        decreases libs.len() - i,
    {
        proof {
            assert(libs@.take(i as int + 1).drop_last() =~= libs@.take(i as int));
            assert(libs@.take(i as int + 1).last() == libs@[i as int]);
        }
        if library_applies(&libs[i].rules, os) {
            let p = plan_one_library(&libs[i], libraries_dir, os, arch);
            r.push(p);
        }
        i += 1;
    }
    proof {
        assert(libs@.take(libs.len() as int) =~= libs@);
    }
    r
}

/// Plans the mod-loader library stage: every profile library is mapped
/// through the coordinate mapper, fetched from its repository override
/// or the default repository, and stored under the libraries directory.
pub fn plan_fabric_libraries(
    libs: &Vec<FabricLibrary>,
    libraries_dir: &str,
    default_base: &str,
    os: Os,
) -> (r: Vec<FetchTarget>)
    ensures
        r@.len() == libs@.len(),
        forall|k: int|
            0 <= k < libs@.len() ==> r@[k].url@ == (match libs@[k].url {
                Some(u) => u@,
                None => default_base@,
            }) + maven_path_spec(libs@[k].name@),
        forall|k: int|
            0 <= k < libs@.len() ==> r@[k].dest@ == libraries_dir@ + seq![path_sep_char(os)]
                + maven_path_spec(libs@[k].name@),
{
    let mut r: Vec<FetchTarget> = Vec::new();
    let mut i: usize = 0;
    while i < libs.len()
        invariant
            i <= libs.len(),
            r@.len() == i as int,
            forall|k: int|
                0 <= k < i ==> r@[k].url@ == (match libs@[k].url {
                    Some(u) => u@,
                    None => default_base@,
                }) + maven_path_spec(libs@[k].name@),
            forall|k: int|
                0 <= k < i ==> r@[k].dest@ == libraries_dir@ + seq![path_sep_char(os)]
                    + maven_path_spec(libs@[k].name@),
        decreases libs.len() - i,
    {
        let path = maven_to_path(libs[i].name.as_str());
        let url = match &libs[i].url {
            Some(u) => concat_strs(u.as_str(), path.as_str()),
            None => concat_strs(default_base, path.as_str()),
        };
        let dest = join_path(libraries_dir, os, path.as_str());
        r.push(FetchTarget { url, dest });
        i += 1;
    }
    r
}

} // verus!
