//! Natives extractor: reads a downloaded archive held in memory and
//! selects only platform shared-library entries, preserving their
//! relative paths. Extraction is best-effort: a failing entry never
//! aborts the others.
//!
//! The archive parser is the zip crate, behind a small trusted surface;
//! the entry filter and the extraction loops are verified against it.
//! Everything the archive decides is named — whether the bytes parse,
//! whether an entry can be opened, whether its bytes decompress — so the
//! extraction contracts fix the result and the failure count exactly.

use vstd::prelude::*;
use std::io::Read;
use crate::text::{ends_with_str, suffix_of};

verus! {

#[verifier::external_type_specification]
#[verifier::external_body]
#[verifier::reject_recursive_types(T)]
pub struct ExCursor<T>(std::io::Cursor<T>);

#[verifier::external_type_specification]
#[verifier::external_body]
#[verifier::reject_recursive_types(R)]
pub struct ExZipArchive<R>(zip::ZipArchive<R>);

/// Whether these bytes parse as a well-formed archive; a function of
/// the bytes alone.
pub uninterp spec fn zip_wf(data: Seq<u8>) -> bool;

/// The entries a zip archive parsed from these bytes holds: each entry's
/// name and decompressed contents, in central-directory order.
pub uninterp spec fn zip_entries_of(data: Seq<u8>) -> Seq<(Seq<char>, Seq<u8>)>;

/// The entries an open archive holds.
pub uninterp spec fn zip_contents(a: zip::ZipArchive<std::io::Cursor<Vec<u8>>>) -> Seq<
    (Seq<char>, Seq<u8>),
>;

/// Whether entry `i` of the archive can be opened at all: in range, not
/// encrypted, its compression method supported. Fixed by the archive's
/// bytes and metadata, so reads preserve it.
pub uninterp spec fn zip_entry_accessible(
    a: zip::ZipArchive<std::io::Cursor<Vec<u8>>>,
    i: int,
) -> bool;

/// Whether entry `i`'s bytes decompress cleanly to the end. Fixed by the
/// archive's bytes and metadata, so reads preserve it.
pub uninterp spec fn zip_entry_readable(
    a: zip::ZipArchive<std::io::Cursor<Vec<u8>>>,
    i: int,
) -> bool;

/// Relies on `zip::ZipArchive::new` over an in-memory cursor: the parse
/// is a function of the bytes alone, succeeding exactly on well-formed
/// bytes, and an archive parsed from `data` holds the entries of
/// `data`.
#[verifier::external_body]
fn zip_open(data: Vec<u8>) -> (r: Option<zip::ZipArchive<std::io::Cursor<Vec<u8>>>>)
    ensures
        r is Some <==> zip_wf(data@),
        r matches Some(a) ==> zip_contents(a) == zip_entries_of(data@),
{
    match zip::ZipArchive::new(std::io::Cursor::new(data)) {
        Ok(a) => Some(a),
        Err(_) => None,
    }
}

/// Relies on `zip::ZipArchive::len`: the number of entries the archive
/// holds.
#[verifier::external_body]
fn zip_len(a: &zip::ZipArchive<std::io::Cursor<Vec<u8>>>) -> (r: usize)
    ensures
        r == zip_contents(*a).len(),
{
    a.len()
}

/// Relies on `zip::ZipArchive::by_index` and `ZipFile::name`: the name
/// of entry `i`, handed out exactly when the entry can be opened.
/// Reading only moves the cursor: the entries and the per-entry verdicts
/// are unchanged.
#[verifier::external_body]
fn zip_entry_name(a: &mut zip::ZipArchive<std::io::Cursor<Vec<u8>>>, i: usize) -> (r: Option<
    String,
>)
    requires
        i < zip_contents(*old(a)).len(),
    ensures
        zip_contents(*final(a)) == zip_contents(*old(a)),
        forall|j: int|
            #[trigger] zip_entry_accessible(*final(a), j) == zip_entry_accessible(*old(a), j),
        forall|j: int|
            #[trigger] zip_entry_readable(*final(a), j) == zip_entry_readable(*old(a), j),
        r is Some <==> zip_entry_accessible(*old(a), i as int),
        r matches Some(n) ==> n@ == zip_contents(*old(a))[i as int].0,
{
    match a.by_index(i) {
        Ok(f) => Some(f.name().to_string()),
        Err(_) => None,
    }
}

/// Relies on `zip::ZipArchive::by_index` and `Read::read_to_end`: the
/// decompressed bytes of entry `i`, handed out exactly when the entry
/// decompresses cleanly. Reading only moves the cursor: the entries and
/// the per-entry verdicts are unchanged.
#[verifier::external_body]
fn zip_entry_bytes(a: &mut zip::ZipArchive<std::io::Cursor<Vec<u8>>>, i: usize) -> (r: Option<
    Vec<u8>,
>)
    requires
        i < zip_contents(*old(a)).len(),
    ensures
        zip_contents(*final(a)) == zip_contents(*old(a)),
        forall|j: int|
            #[trigger] zip_entry_accessible(*final(a), j) == zip_entry_accessible(*old(a), j),
        forall|j: int|
            #[trigger] zip_entry_readable(*final(a), j) == zip_entry_readable(*old(a), j),
        r is Some <==> zip_entry_readable(*old(a), i as int),
        r matches Some(b) ==> b@ == zip_contents(*old(a))[i as int].1,
{
    match a.by_index(i) {
        Ok(mut f) => {
            let mut buf: Vec<u8> = Vec::new();
            match f.read_to_end(&mut buf) {
                Ok(_) => Some(buf),
                Err(_) => None,
            }
        },
        Err(_) => None,
    }
}

/// An archive held in memory, ready for extraction.
pub struct Archive {
    inner: zip::ZipArchive<std::io::Cursor<Vec<u8>>>,
}

impl View for Archive {
    type V = Seq<(Seq<char>, Seq<u8>)>;

    closed spec fn view(&self) -> Seq<(Seq<char>, Seq<u8>)> {
        zip_contents(self.inner)
    }
}

impl Archive {
    /// Whether entry `i` can be opened at all.
    pub closed spec fn entry_accessible(&self, i: int) -> bool {
        zip_entry_accessible(self.inner, i)
    }

    /// Whether entry `i`'s bytes decompress cleanly.
    pub closed spec fn entry_readable(&self, i: int) -> bool {
        zip_entry_readable(self.inner, i)
    }
}

/// Opens an archive from its bytes: exactly the well-formed byte
/// sequences open, and the archive holds their entries.
pub fn open_archive(data: Vec<u8>) -> (r: Option<Archive>)
    ensures
        r is Some <==> zip_wf(data@),
        r matches Some(a) ==> a@ == zip_entries_of(data@),
{
    match zip_open(data) {
        Some(inner) => Some(Archive { inner }),
        None => None,
    }
}

/// The number of entries the archive holds.
pub fn archive_len(a: &Archive) -> (r: usize)
    ensures
        r == a@.len(),
{
    zip_len(&a.inner)
}

/// An entry name that denotes a platform shared library.
pub open spec fn is_native_name(s: Seq<char>) -> bool {
    suffix_of(".dll"@, s) || suffix_of(".so"@, s) || suffix_of(".dylib"@, s)
}

/// Whether an archive entry name ends in a platform shared-library
/// suffix.
pub fn is_native_entry(name: &str) -> (r: bool)
    ensures
        r == is_native_name(name@),
{
    ends_with_str(name, ".dll") || ends_with_str(name, ".so") || ends_with_str(name, ".dylib")
}

/// The entries whose names carry a shared-library suffix, in archive
/// order.
pub open spec fn native_filter(entries: Seq<(Seq<char>, Seq<u8>)>) -> Seq<(Seq<char>, Seq<u8>)>
    decreases entries.len(),
{
    if entries.len() == 0 {
        Seq::empty()
    } else {
        let prefix = native_filter(entries.drop_last());
        if is_native_name(entries.last().0) {
            prefix.push(entries.last())
        } else {
            prefix
        }
    }
}

/// The number of entries whose names carry a shared-library suffix.
pub open spec fn count_native(entries: Seq<(Seq<char>, Seq<u8>)>) -> int
    decreases entries.len(),
{
    if entries.len() == 0 {
        0int
    } else {
        count_native(entries.drop_last()) + if is_native_name(entries.last().0) {
            1int
        } else {
            0int
        }
    }
}

/// Law (NativesExtractor): the extraction plan holds exactly the
/// archive's native-library entries — one per entry with a
/// shared-library suffix, every planned entry so suffixed, in archive
/// order.
pub proof fn lemma_native_filter_characterized(entries: Seq<(Seq<char>, Seq<u8>)>)
    ensures
        native_filter(entries).len() == count_native(entries),
        forall|k: int|
            0 <= k < native_filter(entries).len() ==> is_native_name(
                (#[trigger] native_filter(entries)[k]).0,
            ),
    decreases entries.len(),
{
    if entries.len() > 0 {
        lemma_native_filter_characterized(entries.drop_last());
    }
}

/// The native-extraction loop fails on entry `i`: its name cannot be
/// read, or it is a native entry whose bytes do not decompress.
pub open spec fn native_entry_failure(a: Archive, i: int) -> bool {
    !a.entry_accessible(i) || (is_native_name(a@[i].0) && !a.entry_readable(i))
}

/// How many of the first `n` entries the native-extraction loop fails
/// on.
pub open spec fn native_read_failures(a: Archive, n: int) -> int
    decreases n,
{
    if n <= 0 {
        0int
    } else {
        native_read_failures(a, n - 1) + if native_entry_failure(a, n - 1) {
            1int
        } else {
            0int
        }
    }
}

/// The native entries among the first `n` that extraction yields: every
/// openable, readable entry with a shared-library suffix, in order.
pub open spec fn native_extracted(a: Archive, n: int) -> Seq<(Seq<char>, Seq<u8>)>
    decreases n,
{
    if n <= 0 {
        Seq::empty()
    } else {
        let prefix = native_extracted(a, n - 1);
        if a.entry_accessible(n - 1) && is_native_name(a@[n - 1].0) && a.entry_readable(n - 1) {
            prefix.push(a@[n - 1])
        } else {
            prefix
        }
    }
}

pub proof fn lemma_native_read_failures_nonneg(a: Archive, n: int)
    ensures
        native_read_failures(a, n) >= 0,
    decreases n,
{
    if n > 0 {
        lemma_native_read_failures_nonneg(a, n - 1);
    }
}

/// When no entry fails, extraction yields exactly the native filter of
/// the archive's first `n` entries.
pub proof fn lemma_native_extracted_complete(a: Archive, n: int)
    requires
        0 <= n <= a@.len(),
        native_read_failures(a, n) == 0,
    ensures
        native_extracted(a, n) == native_filter(a@.take(n)),
    decreases n,
{
    if n == 0 {
        assert(a@.take(0) =~= Seq::<(Seq<char>, Seq<u8>)>::empty());
    } else {
        lemma_native_read_failures_nonneg(a, n - 1);
        assert(!native_entry_failure(a, n - 1));
        lemma_native_extracted_complete(a, n - 1);
        assert(a@.take(n).drop_last() =~= a@.take(n - 1));
        assert(a@.take(n).last() == a@[n - 1]);
    }
}

/// The whole-archive loop fails on entry `i`: its name cannot be read
/// or its bytes do not decompress.
pub open spec fn entry_failure(a: Archive, i: int) -> bool {
    !a.entry_accessible(i) || !a.entry_readable(i)
}

/// How many of the first `n` entries the whole-archive loop fails on.
pub open spec fn read_failures(a: Archive, n: int) -> int
    decreases n,
{
    if n <= 0 {
        0int
    } else {
        read_failures(a, n - 1) + if entry_failure(a, n - 1) {
            1int
        } else {
            0int
        }
    }
}

/// The entries among the first `n` that whole-archive extraction
/// yields: every openable, readable entry, in order.
pub open spec fn entries_extracted(a: Archive, n: int) -> Seq<(Seq<char>, Seq<u8>)>
    decreases n,
{
    if n <= 0 {
        Seq::empty()
    } else {
        let prefix = entries_extracted(a, n - 1);
        if a.entry_accessible(n - 1) && a.entry_readable(n - 1) {
            prefix.push(a@[n - 1])
        } else {
            prefix
        }
    }
}

pub proof fn lemma_read_failures_nonneg(a: Archive, n: int)
    ensures
        read_failures(a, n) >= 0,
    decreases n,
{
    if n > 0 {
        lemma_read_failures_nonneg(a, n - 1);
    }
}

/// When no entry fails, whole-archive extraction yields exactly the
/// archive's first `n` entries.
pub proof fn lemma_entries_extracted_complete(a: Archive, n: int)
    requires
        0 <= n <= a@.len(),
        read_failures(a, n) == 0,
    ensures
        entries_extracted(a, n) == a@.take(n),
    decreases n,
{
    if n == 0 {
        assert(a@.take(0) =~= Seq::<(Seq<char>, Seq<u8>)>::empty());
    } else {
        lemma_read_failures_nonneg(a, n - 1);
        assert(!entry_failure(a, n - 1));
        lemma_entries_extracted_complete(a, n - 1);
        assert(a@.take(n) =~= entries_extracted(a, n - 1).push(a@[n - 1]));
    }
}

/// Extracts the native-library entries: returns the extracted
/// `(relative path, bytes)` pairs and the number of entries that failed
/// to read. A failing entry is skipped, never aborting the others. The
/// result is exactly the archive's openable, readable native entries in
/// order, the failure count exactly the number of entries the loop
/// failed on; when nothing failed, that is exactly the native filter of
/// the archive.
pub fn extract_natives(a: &mut Archive) -> (r: (Vec<(String, Vec<u8>)>, usize))
    ensures
        final(a)@ == old(a)@,
        r.1 == native_read_failures(*old(a), old(a)@.len() as int),
        r.0@.len() == native_extracted(*old(a), old(a)@.len() as int).len(),
        forall|k: int|
            0 <= k < r.0@.len() ==> (#[trigger] r.0@[k]).0@ == native_extracted(
                *old(a),
                old(a)@.len() as int,
            )[k].0 && r.0@[k].1@ == native_extracted(*old(a), old(a)@.len() as int)[k].1,
        r.1 == 0 ==> r.0@.len() == native_filter(old(a)@).len() && (forall|k: int|
            0 <= k < r.0@.len() ==> (#[trigger] r.0@[k]).0@ == native_filter(old(a)@)[k].0
                && r.0@[k].1@ == native_filter(old(a)@)[k].1),
{
    let len = zip_len(&a.inner);
    let mut pairs: Vec<(String, Vec<u8>)> = Vec::new();
    let mut failures: usize = 0;
    let mut i: usize = 0;
    while i < len
        invariant
            i <= len,
            len == a@.len(),
            a@ == old(a)@,
            forall|j: int|
                #[trigger] zip_entry_accessible(a.inner, j) == zip_entry_accessible(
                    old(a).inner,
                    j,
                ),
            forall|j: int|
                #[trigger] zip_entry_readable(a.inner, j) == zip_entry_readable(
                    old(a).inner,
                    j,
                ),
            failures <= i,
            failures as int == native_read_failures(*old(a), i as int),
            pairs@.len() == native_extracted(*old(a), i as int).len(),
            forall|k: int|
                0 <= k < pairs@.len() ==> (#[trigger] pairs@[k]).0@ == native_extracted(
                    *old(a),
                    i as int,
                )[k].0 && pairs@[k].1@ == native_extracted(*old(a), i as int)[k].1,
        decreases len - i,
    {
        proof {
            assert(zip_entry_accessible(a.inner, i as int) == old(a).entry_accessible(
                i as int,
            ));
            assert(zip_entry_readable(a.inner, i as int) == old(a).entry_readable(i as int));
        }
        match zip_entry_name(&mut a.inner, i) {
            None => {
                proof {
                    assert(native_entry_failure(*old(a), i as int));
                }
                failures += 1;
            },
            Some(name) => {
                if is_native_entry(name.as_str()) {
                    match zip_entry_bytes(&mut a.inner, i) {
                        None => {
                            proof {
                                assert(native_entry_failure(*old(a), i as int));
                            }
                            failures += 1;
                        },
                        Some(bytes) => {
                            proof {
                                assert(is_native_name(old(a)@[i as int].0));
                                assert(!native_entry_failure(*old(a), i as int));
                            }
                            pairs.push((name, bytes));
                        },
                    }
                } else {
                    proof {
                        assert(!is_native_name(old(a)@[i as int].0));
                        assert(!native_entry_failure(*old(a), i as int));
                    }
                }
            },
        }
        i += 1;
    }
    proof {
        if failures == 0 {
            lemma_native_extracted_complete(*old(a), len as int);
            assert(old(a)@.take(len as int) =~= old(a)@);
        }
    }
    (pairs, failures)
}

/// Extracts every entry of the archive: returns the `(relative path,
/// bytes)` pairs and the number of entries that failed to read. The
/// result is exactly the archive's openable, readable entries in order,
/// the failure count exactly the number of entries the loop failed on;
/// when nothing failed, that is exactly the archive. Directory entries
/// come out with their trailing separator and empty bytes, for the
/// caller to recreate.
pub fn extract_all(a: &mut Archive) -> (r: (Vec<(String, Vec<u8>)>, usize))
    ensures
        final(a)@ == old(a)@,
        r.1 == read_failures(*old(a), old(a)@.len() as int),
        r.0@.len() == entries_extracted(*old(a), old(a)@.len() as int).len(),
        forall|k: int|
            0 <= k < r.0@.len() ==> (#[trigger] r.0@[k]).0@ == entries_extracted(
                *old(a),
                old(a)@.len() as int,
            )[k].0 && r.0@[k].1@ == entries_extracted(*old(a), old(a)@.len() as int)[k].1,
        r.1 == 0 ==> r.0@.len() == old(a)@.len() && (forall|k: int|
            0 <= k < r.0@.len() ==> (#[trigger] r.0@[k]).0@ == old(a)@[k].0 && r.0@[k].1@ == old(
                a,
            )@[k].1),
{
    let len = zip_len(&a.inner);
    let mut pairs: Vec<(String, Vec<u8>)> = Vec::new();
    let mut failures: usize = 0;
    let mut i: usize = 0;
    while i < len
        invariant
            i <= len,
            len == a@.len(),
            a@ == old(a)@,
            forall|j: int|
                #[trigger] zip_entry_accessible(a.inner, j) == zip_entry_accessible(
                    old(a).inner,
                    j,
                ),
            forall|j: int|
                #[trigger] zip_entry_readable(a.inner, j) == zip_entry_readable(
                    old(a).inner,
                    j,
                ),
            failures <= i,
            failures as int == read_failures(*old(a), i as int),
            pairs@.len() == entries_extracted(*old(a), i as int).len(),
            forall|k: int|
                0 <= k < pairs@.len() ==> (#[trigger] pairs@[k]).0@ == entries_extracted(
                    *old(a),
                    i as int,
                )[k].0 && pairs@[k].1@ == entries_extracted(*old(a), i as int)[k].1,
        decreases len - i,
    {
        proof {
            assert(zip_entry_accessible(a.inner, i as int) == old(a).entry_accessible(
                i as int,
            ));
            assert(zip_entry_readable(a.inner, i as int) == old(a).entry_readable(i as int));
        }
        match zip_entry_name(&mut a.inner, i) {
            None => {
                proof {
                    assert(entry_failure(*old(a), i as int));
                }
                failures += 1;
            },
            Some(name) => {
                match zip_entry_bytes(&mut a.inner, i) {
                    None => {
                        proof {
                            assert(entry_failure(*old(a), i as int));
                        }
                        failures += 1;
                    },
                    Some(bytes) => {
                        proof {
                            assert(!entry_failure(*old(a), i as int));
                        }
                        pairs.push((name, bytes));
                    },
                }
            },
        }
        i += 1;
    }
    proof {
        if failures == 0 {
            lemma_entries_extracted_complete(*old(a), len as int);
            assert(old(a)@.take(len as int) =~= old(a)@);
        }
    }
    (pairs, failures)
}

} // verus!
