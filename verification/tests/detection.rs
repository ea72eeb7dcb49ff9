//! Tests for the archive format detector.

use ffmpeg_provision::errors::ProvisionError;
use ffmpeg_provision::format::{detect_format, ArchiveFormat};

#[test]
fn zip_extension_detected() {
    let r = detect_format(&b"ffmpeg-windows.zip".to_vec());
    assert_eq!(r, Ok(ArchiveFormat::Zip));
}

#[test]
fn tar_gz_extension_detected() {
    let r = detect_format(&b"bundle.tar.gz".to_vec());
    assert_eq!(r, Ok(ArchiveFormat::GzippedTar));
}

#[test]
fn tgz_extension_detected() {
    let r = detect_format(&b"bundle.tgz".to_vec());
    assert_eq!(r, Ok(ArchiveFormat::GzippedTar));
}

#[test]
fn tar_xz_extension_detected() {
    let r = detect_format(&b"ffmpeg-linux.tar.xz".to_vec());
    assert_eq!(r, Ok(ArchiveFormat::XzCompressedTar));
}

#[test]
fn unsupported_extensions_rejected() {
    assert_eq!(
        detect_format(&b"bundle.7z".to_vec()),
        Err(ProvisionError::UnsupportedFormat)
    );
    assert_eq!(
        detect_format(&b"bundle.tar".to_vec()),
        Err(ProvisionError::UnsupportedFormat)
    );
    assert_eq!(detect_format(&b"".to_vec()), Err(ProvisionError::UnsupportedFormat));
    assert_eq!(detect_format(&b"zip".to_vec()), Err(ProvisionError::UnsupportedFormat));
}

#[test]
fn bare_suffix_is_enough() {
    assert_eq!(detect_format(&b".zip".to_vec()), Ok(ArchiveFormat::Zip));
    assert_eq!(detect_format(&b".tgz".to_vec()), Ok(ArchiveFormat::GzippedTar));
}
