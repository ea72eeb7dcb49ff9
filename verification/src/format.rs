//! The archive format detector: classifies an archive filename into one of
//! the closed set of supported container formats, by its extension alone.

use vstd::prelude::*;
use crate::errors::ProvisionError;

verus! {

/// The closed set of supported container formats.
#[derive(Clone, Copy, Debug, PartialEq, Eq, Structural)]
pub enum ArchiveFormat {
    Zip,
    GzippedTar,
    XzCompressedTar,
}

/// Whether `s` ends in `suffix`.
pub open spec fn has_suffix(s: Seq<u8>, suffix: Seq<u8>) -> bool {
    s.len() >= suffix.len() && s.skip(s.len() - suffix.len()) == suffix
}

/// The bytes of ".zip".
pub open spec fn suffix_zip() -> Seq<u8> {
    seq![46u8, 122u8, 105u8, 112u8]
}

/// The bytes of ".tar.gz".
pub open spec fn suffix_tar_gz() -> Seq<u8> {
    seq![46u8, 116u8, 97u8, 114u8, 46u8, 103u8, 122u8]
}

/// The bytes of ".tgz".
pub open spec fn suffix_tgz() -> Seq<u8> {
    seq![46u8, 116u8, 103u8, 122u8]
}

/// The bytes of ".tar.xz".
pub open spec fn suffix_tar_xz() -> Seq<u8> {
    seq![46u8, 116u8, 97u8, 114u8, 46u8, 120u8, 122u8]
}

/// The detection policy: the filename extension is authoritative.
/// `.zip` means zip, `.tar.gz` or `.tgz` means gzip-compressed tar,
/// `.tar.xz` means xz-compressed tar; anything else is unsupported.
pub open spec fn spec_detect_format(name: Seq<u8>) -> Result<ArchiveFormat, ProvisionError> {
    if has_suffix(name, suffix_zip()) {
        Ok(ArchiveFormat::Zip)
    } else if has_suffix(name, suffix_tar_gz()) || has_suffix(name, suffix_tgz()) {
        Ok(ArchiveFormat::GzippedTar)
    } else if has_suffix(name, suffix_tar_xz()) {
        Ok(ArchiveFormat::XzCompressedTar)
    } else {
        Err(ProvisionError::UnsupportedFormat)
    }
}

/// Decide whether `name` ends in `suffix`.
fn ends_with(name: &Vec<u8>, suffix: &Vec<u8>) -> (r: bool)
    ensures
        r == has_suffix(name@, suffix@),
{
    if name.len() < suffix.len() {
        return false;
    }
    let off = name.len() - suffix.len();
    let mut i: usize = 0;
    while i < suffix.len()
        invariant
            0 <= i <= suffix@.len(),
            suffix@.len() <= name@.len(),
            name@.len() <= usize::MAX,
            off == name@.len() - suffix@.len(),
            forall|j: int| 0 <= j < i ==> name@[off + j] == suffix@[j],
        decreases suffix@.len() - i,
    {
        if name[off + i] != suffix[i] {
            proof {
                assert(name@.skip(off as int)[i as int] == name@[off + i]);
            }
            return false;
        }
        i = i + 1;
    }
    proof {
        assert(name@.skip(off as int) =~= suffix@);
    }
    true
}

/// Classify an archive filename into exactly one supported format, or fail
/// with the unsupported-format error. No side effects.
pub fn detect_format(name: &Vec<u8>) -> (r: Result<ArchiveFormat, ProvisionError>)
    ensures
        r == spec_detect_format(name@),
{
    let zip_s: Vec<u8> = vec![46u8, 122u8, 105u8, 112u8];
    let tar_gz_s: Vec<u8> = vec![46u8, 116u8, 97u8, 114u8, 46u8, 103u8, 122u8];
    let tgz_s: Vec<u8> = vec![46u8, 116u8, 103u8, 122u8];
    let tar_xz_s: Vec<u8> = vec![46u8, 116u8, 97u8, 114u8, 46u8, 120u8, 122u8];
    proof {
        assert(zip_s@ =~= suffix_zip());
        assert(tar_gz_s@ =~= suffix_tar_gz());
        assert(tgz_s@ =~= suffix_tgz());
        assert(tar_xz_s@ =~= suffix_tar_xz());
    }
    if ends_with(name, &zip_s) {
        Ok(ArchiveFormat::Zip)
    } else if ends_with(name, &tar_gz_s) || ends_with(name, &tgz_s) {
        Ok(ArchiveFormat::GzippedTar)
    } else if ends_with(name, &tar_xz_s) {
        Ok(ArchiveFormat::XzCompressedTar)
    } else {
        Err(ProvisionError::UnsupportedFormat)
    }
}

} // verus!
