use std::io::{Cursor, Read};

use datapack::archive::{is_superseded, keep_last_entries, ArchiveEntry};
use datapack::component::{Component, Json};
use datapack::error::BuildError;
use datapack::archive::ArchiveWriter;

fn entry(path: &str, content: &[u8]) -> ArchiveEntry {
    ArchiveEntry { path: String::from(path), content: content.to_vec() }
}

fn plan(entries: &Vec<ArchiveEntry>) -> Vec<(String, Vec<u8>)> {
    entries.iter().map(|e| (e.path.clone(), e.content.clone())).collect()
}

fn files(bytes: &Vec<u8>) -> Vec<(String, Vec<u8>)> {
    let mut archive = zip::ZipArchive::new(Cursor::new(bytes.clone())).unwrap();
    let mut found: Vec<(String, Vec<u8>)> = Vec::new();
    for index in 0..archive.len() {
        let mut file = archive.by_index(index).unwrap();
        let mut content: Vec<u8> = Vec::new();
        file.read_to_end(&mut content).unwrap();
        found.push((file.name().to_string(), content));
    }
    found
}

#[test]
fn keep_last_of_nothing() {
    assert!(keep_last_entries(&Vec::new()).is_empty());
}

#[test]
fn keep_last_of_distinct_paths_keeps_all() {
    let entries = vec![entry("a", b"1"), entry("b", b"2"), entry("c", b"3")];
    assert_eq!(plan(&keep_last_entries(&entries)), plan(&entries));
}

#[test]
fn keep_last_drops_the_earlier_of_two() {
    let entries = vec![entry("a", b"old"), entry("b", b"2"), entry("a", b"new")];
    assert_eq!(
        plan(&keep_last_entries(&entries)),
        vec![(String::from("b"), b"2".to_vec()), (String::from("a"), b"new".to_vec())]
    );
}

#[test]
fn keep_last_of_many_writes_to_one_path() {
    let entries = vec![entry("a", b"1"), entry("a", b"2"), entry("a", b"3"), entry("a", b"4")];
    assert_eq!(plan(&keep_last_entries(&entries)), vec![(String::from("a"), b"4".to_vec())]);
}

#[test]
fn keep_last_of_interleaved_paths() {
    let entries = vec![
        entry("a", b"1"),
        entry("b", b"2"),
        entry("a", b"3"),
        entry("c", b"4"),
        entry("b", b"5"),
        entry("d", b"6"),
    ];
    assert_eq!(
        plan(&keep_last_entries(&entries)),
        vec![
            (String::from("a"), b"3".to_vec()),
            (String::from("c"), b"4".to_vec()),
            (String::from("b"), b"5".to_vec()),
            (String::from("d"), b"6".to_vec()),
        ]
    );
}

#[test]
fn keep_last_has_no_path_twice() {
    let entries = vec![
        entry("x", b"1"),
        entry("y", b"2"),
        entry("x", b"3"),
        entry("y", b"4"),
        entry("x", b"5"),
        entry("z", b""),
    ];
    let kept = keep_last_entries(&entries);
    for a in 0..kept.len() {
        for b in (a + 1)..kept.len() {
            assert_ne!(kept[a].path, kept[b].path);
        }
    }
    for e in entries.iter() {
        assert!(kept.iter().any(|k| k.path == e.path));
    }
}

#[test]
fn paths_are_compared_exactly() {
    let entries = vec![entry("a", b"1"), entry("A", b"2"), entry("a/", b"3"), entry("a ", b"4")];
    assert_eq!(keep_last_entries(&entries).len(), 4);
}

#[test]
fn superseded_looks_back_only() {
    let entries = vec![entry("a", b"1"), entry("b", b"2"), entry("a", b"3")];
    assert!(is_superseded(&entries, 0));
    assert!(!is_superseded(&entries, 1));
    assert!(!is_superseded(&entries, 2));
}

#[test]
fn empty_archive_is_a_zip_container() {
    let bytes = ArchiveWriter::new().finish().unwrap();
    assert_eq!(bytes.len(), 22);
    assert_eq!(&bytes[0..4], &[0x50, 0x4b, 0x05, 0x06]);
    assert!(files(&bytes).is_empty());
}

#[test]
fn written_files_are_read_back() {
    let mut writer = ArchiveWriter::new();
    Component::write_file(&mut writer, "a.txt", b"alpha").unwrap();
    Component::write_file(&mut writer, "dir/b.bin", &[0, 1, 2, 255]).unwrap();
    Component::write_file(&mut writer, "empty", b"").unwrap();
    let bytes = writer.finish().unwrap();
    assert_eq!(
        files(&bytes),
        vec![
            (String::from("a.txt"), b"alpha".to_vec()),
            (String::from("dir/b.bin"), vec![0, 1, 2, 255]),
            (String::from("empty"), Vec::new()),
        ]
    );
}

#[test]
fn component_is_written_at_its_entry_path() {
    let mut writer = ArchiveWriter::new();
    let component = Component::Recipe(Json::new("{\"r\": 1}", "cake"));
    component.write_to_file(&mut writer, &String::from("test")).unwrap();
    let bytes = writer.finish().unwrap();
    assert_eq!(files(&bytes), vec![(String::from("data/test/recipes/cake.json"), b"{\"r\": 1}".to_vec())]);
}

#[test]
fn files_are_dated_1980() {
    let mut writer = ArchiveWriter::new();
    Component::write_file(&mut writer, "a", b"a").unwrap();
    let bytes = writer.finish().unwrap();
    let mut archive = zip::ZipArchive::new(Cursor::new(bytes)).unwrap();
    let file = archive.by_index(0).unwrap();
    assert_eq!(file.last_modified().year(), 1980);
    assert_eq!(file.last_modified().month(), 1);
    assert_eq!(file.last_modified().day(), 1);
}

#[test]
fn same_files_same_bytes() {
    let mut first = ArchiveWriter::new();
    Component::write_file(&mut first, "a", b"alpha").unwrap();
    Component::write_file(&mut first, "b", b"beta").unwrap();
    let mut second = ArchiveWriter::new();
    Component::write_file(&mut second, "a", b"alpha").unwrap();
    Component::write_file(&mut second, "b", b"beta").unwrap();
    let mut third = ArchiveWriter::new();
    Component::write_file(&mut third, "b", b"beta").unwrap();
    Component::write_file(&mut third, "a", b"alpha").unwrap();
    let first = first.finish().unwrap();
    assert_eq!(first, second.finish().unwrap());
    assert_ne!(first, third.finish().unwrap());
}

#[test]
fn refusal_of_the_archive_becomes_a_sink_error() {
    let error = BuildError::sink_refused("data/a/b.json", &zip::result::ZipError::FileNotFound);
    assert_eq!(
        error,
        BuildError::SinkWrite {
            path: String::from("data/a/b.json"),
            cause: String::from("specified file not found in archive"),
        }
    );
    let error = BuildError::sink_refused("", &zip::result::ZipError::UnsupportedArchive("too new"));
    assert_eq!(
        error,
        BuildError::SinkWrite { path: String::new(), cause: String::from("unsupported Zip archive: too new") }
    );
}

#[test]
fn failed_write_becomes_a_sink_error() {
    let cause = std::io::Error::new(std::io::ErrorKind::Other, "Large file option has not been set");
    assert_eq!(
        BuildError::sink_failed("data/a/big.nbt", &cause),
        BuildError::SinkWrite {
            path: String::from("data/a/big.nbt"),
            cause: String::from("Large file option has not been set"),
        }
    );
}

#[test]
fn failed_encoder_becomes_an_encoding_error() {
    let cause = std::io::Error::new(std::io::ErrorKind::InvalidData, "bad tag");
    assert_eq!(
        BuildError::encoder_failed("house", &cause),
        BuildError::Encoding { path: String::from("house"), cause: String::from("bad tag") }
    );
}

#[test]
fn longest_path_is_taken() {
    let path = "p".repeat(65535);
    let mut writer = ArchiveWriter::new();
    Component::write_file(&mut writer, &path, b"deep").unwrap();
    let bytes = writer.finish().unwrap();
    assert_eq!(files(&bytes), vec![(path, b"deep".to_vec())]);
}

#[test]
fn path_of_one_byte_more_is_refused() {
    let path = "p".repeat(65536);
    let mut writer = ArchiveWriter::new();
    assert_eq!(
        Component::write_file(&mut writer, &path, b"deep"),
        Err(BuildError::PathTooLong { path: path.clone() })
    );
    Component::write_file(&mut writer, "after", b"fine").unwrap();
    let bytes = writer.finish().unwrap();
    assert_eq!(files(&bytes), vec![(String::from("after"), b"fine".to_vec())]);
}

#[test]
fn path_length_counts_bytes_not_characters() {
    let fits = "\u{e9}".repeat(32767);
    assert_eq!(fits.len(), 65534);
    let too_long = "\u{e9}".repeat(32768);
    assert_eq!(too_long.chars().count(), 32768);
    assert_eq!(too_long.len(), 65536);
    let mut writer = ArchiveWriter::new();
    assert!(Component::write_file(&mut writer, &fits, b"").is_ok());
    assert_eq!(
        Component::write_file(&mut writer, &too_long, b""),
        Err(BuildError::PathTooLong { path: too_long.clone() })
    );
    assert_eq!(files(&writer.finish().unwrap()), vec![(fits, Vec::new())]);
}

#[test]
fn component_with_too_long_entry_path_is_refused() {
    let mut writer = ArchiveWriter::new();
    let long = "r".repeat(65535 - "data/test/recipes/.json".len());
    let component = Component::Recipe(Json::new("{}", &long));
    assert_eq!(component.archive_entry_path("test").len(), 65535);
    assert!(component.write_to_file(&mut writer, &String::from("test")).is_ok());
    assert_eq!(
        component.write_to_file(&mut writer, &String::from("test2")),
        Err(BuildError::PathTooLong { path: component.archive_entry_path("test2") })
    );
    assert_eq!(files(&writer.finish().unwrap()).len(), 1);
}

#[test]
fn limits_of_the_archive() {
    assert_eq!(datapack::archive::MAX_PATH_BYTES, 65535);
    assert_eq!(datapack::archive::MAX_FILE_BYTES, 4294967295);
}
