use std::io::{Cursor, Write};

use hegemonia_launcher::natives::{extract_all, extract_natives, is_native_entry, open_archive,
    archive_len};

fn build_archive(entries: &[(&str, &[u8])]) -> Vec<u8> {
    let mut writer = zip::ZipWriter::new(Cursor::new(Vec::new()));
    let options = zip::write::SimpleFileOptions::default()
        .compression_method(zip::CompressionMethod::Stored);
    for (name, data) in entries {
        writer.start_file(*name, options).unwrap();
        writer.write_all(data).unwrap();
    }
    writer.finish().unwrap().into_inner()
}

#[test]
fn only_shared_library_entries_are_extracted() {
    let data = build_archive(&[
        ("foo.dll", b"dll bytes"),
        ("bar.txt", b"text"),
        ("sub/baz.so", b"so bytes"),
    ]);
    let mut archive = open_archive(data).unwrap();
    assert_eq!(archive_len(&archive), 3);
    let (pairs, failures) = extract_natives(&mut archive);
    assert_eq!(failures, 0);
    assert_eq!(pairs.len(), 2);
    assert_eq!(pairs[0].0, "foo.dll");
    assert_eq!(pairs[0].1, b"dll bytes");
    assert_eq!(pairs[1].0, "sub/baz.so");
    assert_eq!(pairs[1].1, b"so bytes");
}

#[test]
fn dylib_entries_are_extracted_too() {
    let data = build_archive(&[("lib/liblwjgl.dylib", b"mac"), ("META-INF/MANIFEST.MF", b"m")]);
    let mut archive = open_archive(data).unwrap();
    let (pairs, failures) = extract_natives(&mut archive);
    assert_eq!(failures, 0);
    assert_eq!(pairs.len(), 1);
    assert_eq!(pairs[0].0, "lib/liblwjgl.dylib");
}

#[test]
fn extract_all_returns_every_entry() {
    let data = build_archive(&[("a.txt", b"1"), ("b/c.bin", b"2")]);
    let mut archive = open_archive(data).unwrap();
    let (pairs, failures) = extract_all(&mut archive);
    assert_eq!(failures, 0);
    assert_eq!(pairs.len(), 2);
    assert_eq!(pairs[0].0, "a.txt");
    assert_eq!(pairs[1].0, "b/c.bin");
    assert_eq!(pairs[1].1, b"2");
}

#[test]
fn malformed_bytes_do_not_open() {
    assert!(open_archive(vec![1, 2, 3, 4]).is_none());
}

#[test]
fn native_entry_names() {
    assert!(is_native_entry("foo.dll"));
    assert!(is_native_entry("a/b/c.so"));
    assert!(is_native_entry("lib.dylib"));
    assert!(!is_native_entry("readme.txt"));
    assert!(!is_native_entry("dll"));
    assert!(!is_native_entry("archive.dll.txt"));
}
