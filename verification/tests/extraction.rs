//! Round-trip and search tests for the extractor over real archives of all
//! three supported container formats.

use std::io::Write;

use ffmpeg_provision::errors::ProvisionError;
use ffmpeg_provision::extract::{extract_from_bytes, ExtractionOutcome};
use ffmpeg_provision::format::ArchiveFormat;
use ffmpeg_provision::path_match::entry_matches;

fn make_zip(entries: &[(&str, &[u8])]) -> Vec<u8> {
    let cursor = std::io::Cursor::new(Vec::new());
    let mut writer = zip::ZipWriter::new(cursor);
    let options = zip::write::SimpleFileOptions::default()
        .compression_method(zip::CompressionMethod::Stored);
    for (name, data) in entries {
        writer.start_file(*name, options).unwrap();
        writer.write_all(data).unwrap();
    }
    writer.finish().unwrap().into_inner()
}

fn make_tar(entries: &[(&str, &[u8])]) -> Vec<u8> {
    let mut builder = tar::Builder::new(Vec::new());
    for (name, data) in entries {
        let mut header = tar::Header::new_gnu();
        header.set_size(data.len() as u64);
        header.set_mode(0o644);
        header.set_cksum();
        builder.append_data(&mut header, name, *data).unwrap();
    }
    builder.into_inner().unwrap()
}

fn make_tar_gz(entries: &[(&str, &[u8])]) -> Vec<u8> {
    let tar_bytes = make_tar(entries);
    let mut enc = flate2::write::GzEncoder::new(Vec::new(), flate2::Compression::default());
    enc.write_all(&tar_bytes).unwrap();
    enc.finish().unwrap()
}

fn make_tar_xz(entries: &[(&str, &[u8])]) -> Vec<u8> {
    let tar_bytes = make_tar(entries);
    let mut input: &[u8] = &tar_bytes;
    let mut out = Vec::new();
    lzma_rs::xz_compress(&mut input, &mut out).unwrap();
    out
}

fn expect_found(r: Result<ExtractionOutcome, ProvisionError>, want: &[u8]) {
    match r.unwrap() {
        ExtractionOutcome::Found(data) => assert_eq!(data, want.to_vec()),
        ExtractionOutcome::NotFound => panic!("expected a match, got NotFound"),
    }
}

fn expect_not_found(r: Result<ExtractionOutcome, ProvisionError>) {
    match r.unwrap() {
        ExtractionOutcome::Found(_) => panic!("expected NotFound, got a match"),
        ExtractionOutcome::NotFound => {}
    }
}

#[test]
fn zip_round_trip_nested_entry() {
    let payload = b"\x7fELF fake binary bytes \x00\x01\x02";
    let archive = make_zip(&[("deep/nested/dirs/ffmpeg", payload)]);
    let target = b"ffmpeg".to_vec();
    expect_found(
        extract_from_bytes(&archive, ArchiveFormat::Zip, &target),
        payload,
    );
}

#[test]
fn tar_gz_round_trip_nested_entry() {
    let payload = b"gzip payload \x00\xff\x10";
    let archive = make_tar_gz(&[("some/dir/ffmpeg", payload)]);
    let target = b"ffmpeg".to_vec();
    expect_found(
        extract_from_bytes(&archive, ArchiveFormat::GzippedTar, &target),
        payload,
    );
}

#[test]
fn tar_xz_round_trip_nested_entry() {
    let payload = b"xz payload \x00\xee\x20";
    let archive = make_tar_xz(&[("other/place/ffmpeg", payload)]);
    let target = b"ffmpeg".to_vec();
    expect_found(
        extract_from_bytes(&archive, ArchiveFormat::XzCompressedTar, &target),
        payload,
    );
}

#[test]
fn zip_without_target_reports_not_found() {
    let archive = make_zip(&[("docs/readme.txt", b"hello"), ("bin/ffprobe", b"xx")]);
    let target = b"ffmpeg".to_vec();
    expect_not_found(extract_from_bytes(&archive, ArchiveFormat::Zip, &target));
}

#[test]
fn tar_gz_without_target_reports_not_found() {
    let archive = make_tar_gz(&[("a/readme.txt", b"hello")]);
    let target = b"ffmpeg".to_vec();
    expect_not_found(extract_from_bytes(&archive, ArchiveFormat::GzippedTar, &target));
}

#[test]
fn tar_xz_without_target_reports_not_found() {
    let archive = make_tar_xz(&[("a/readme.txt", b"hello")]);
    let target = b"ffmpeg".to_vec();
    expect_not_found(extract_from_bytes(&archive, ArchiveFormat::XzCompressedTar, &target));
}

#[test]
fn first_matching_entry_wins() {
    let archive = make_zip(&[
        ("one/ffprobe", b"not me"),
        ("two/ffmpeg", b"first"),
        ("three/ffmpeg", b"second"),
    ]);
    let target = b"ffmpeg".to_vec();
    expect_found(extract_from_bytes(&archive, ArchiveFormat::Zip, &target), b"first");
}

#[test]
fn matching_ignores_directories_but_not_name() {
    assert!(entry_matches(&b"sub1/sub2/ffmpeg".to_vec(), &b"ffmpeg".to_vec()));
    assert!(entry_matches(&b"ffmpeg".to_vec(), &b"ffmpeg".to_vec()));
    assert!(!entry_matches(&b"ffmpegx".to_vec(), &b"ffmpeg".to_vec()));
    assert!(!entry_matches(&b"sub/xffmpeg".to_vec(), &b"ffmpeg".to_vec()));
    assert!(!entry_matches(&b"ffmpeg/".to_vec(), &b"ffmpeg".to_vec()));
    assert!(entry_matches(&b"win/ffmpeg.exe".to_vec(), &b"ffmpeg.exe".to_vec()));
    assert!(!entry_matches(&b"win/ffmpeg".to_vec(), &b"ffmpeg.exe".to_vec()));
}

#[test]
fn substring_entry_does_not_match_via_extraction() {
    let archive = make_zip(&[("bin/ffmpegx", b"nope"), ("bin/xffmpeg", b"nope")]);
    let target = b"ffmpeg".to_vec();
    expect_not_found(extract_from_bytes(&archive, ArchiveFormat::Zip, &target));
}

#[test]
fn bundle_zip_end_to_end() {
    let archive = make_zip(&[("tool-v1/ffmpeg", b"BINARYDATA")]);
    let target = b"ffmpeg".to_vec();
    expect_found(
        extract_from_bytes(&archive, ArchiveFormat::Zip, &target),
        b"BINARYDATA",
    );
}

#[test]
fn corrupt_zip_reports_corrupt_archive() {
    let garbage = vec![0xABu8; 600];
    let target = b"ffmpeg".to_vec();
    let r = extract_from_bytes(&garbage, ArchiveFormat::Zip, &target);
    assert!(matches!(r, Err(ProvisionError::CorruptArchive)));
}

#[test]
fn corrupt_gzip_reports_decompression_failed() {
    let garbage = vec![0xCDu8; 600];
    let target = b"ffmpeg".to_vec();
    let r = extract_from_bytes(&garbage, ArchiveFormat::GzippedTar, &target);
    assert!(matches!(r, Err(ProvisionError::DecompressionFailed)));
}

#[test]
fn corrupt_xz_reports_decompression_failed() {
    let garbage = vec![0xEFu8; 600];
    let target = b"ffmpeg".to_vec();
    let r = extract_from_bytes(&garbage, ArchiveFormat::XzCompressedTar, &target);
    assert!(matches!(r, Err(ProvisionError::DecompressionFailed)));
}

#[test]
fn gzipped_garbage_reports_corrupt_archive() {
    let mut enc = flate2::write::GzEncoder::new(Vec::new(), flate2::Compression::default());
    enc.write_all(&vec![0x5Au8; 1024]).unwrap();
    let archive = enc.finish().unwrap();
    let target = b"ffmpeg".to_vec();
    let r = extract_from_bytes(&archive, ArchiveFormat::GzippedTar, &target);
    assert!(matches!(r, Err(ProvisionError::CorruptArchive)));
}
