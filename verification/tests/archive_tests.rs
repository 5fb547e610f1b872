use std::io::Read;
use ravenserver::archive::{archive_file_name, classify_pack, classify_unpack, ArchiveError};

#[test]
fn archive_is_named_after_the_theme() {
    assert_eq!(archive_file_name(&b"foo".to_vec()), b"foo.tar".to_vec());
    assert_eq!(archive_file_name(&b"".to_vec()), b".tar".to_vec());
}

#[test]
fn packing_a_missing_theme_is_not_found() {
    assert_eq!(classify_pack(false), Err(ArchiveError::NotFound));
    assert_eq!(classify_pack(true), Ok(()));
}

#[test]
fn unpacking_a_missing_archive_is_not_found() {
    assert_eq!(classify_unpack(false), Err(ArchiveError::NotFound));
    assert_eq!(classify_unpack(true), Ok(()));
}

fn pack_entries(entries: &[(&str, &[u8])]) -> Vec<u8> {
    let mut builder = tar::Builder::new(Vec::new());
    for (name, data) in entries {
        let mut header = tar::Header::new_gnu();
        header.set_size(data.len() as u64);
        header.set_mode(0o644);
        header.set_cksum();
        builder.append_data(&mut header, name, *data).unwrap();
    }
    builder.into_inner().unwrap()
}

fn unpack_entries(bytes: &[u8]) -> Vec<(String, Vec<u8>)> {
    let mut archive = tar::Archive::new(bytes);
    let mut out = Vec::new();
    for entry in archive.entries().unwrap() {
        let mut entry = entry.unwrap();
        let name = entry.path().unwrap().to_str().unwrap().to_string();
        let mut data = Vec::new();
        entry.read_to_end(&mut data).unwrap();
        out.push((name, data));
    }
    out
}

#[test]
fn packing_then_unpacking_reproduces_the_tree() {
    // The archive format must reproduce names, contents and relative
    // structure exactly.
    let entries: &[(&str, &[u8])] = &[
        ("mytheme/script", b"#!/bin/sh\necho hi\n"),
        ("mytheme/colors/light.conf", b"fg=white\nbg=black\n"),
        ("mytheme/colors/dark.conf", b""),
        ("mytheme/wallpaper.png", &[0u8, 1, 2, 3, 255, 254]),
    ];
    let bytes = pack_entries(entries);
    let round = unpack_entries(&bytes);
    assert_eq!(round.len(), entries.len());
    for ((name, data), (rname, rdata)) in entries.iter().zip(round.iter()) {
        assert_eq!(name, rname);
        assert_eq!(data, &rdata.as_slice());
    }
}

#[test]
fn packing_twice_gives_the_same_archive() {
    let entries: &[(&str, &[u8])] = &[("t/a", b"one"), ("t/b", b"two")];
    assert_eq!(pack_entries(entries), pack_entries(entries));
}
