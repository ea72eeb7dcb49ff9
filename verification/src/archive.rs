//! The archive readers: each turns the raw bytes of an archive (or of a
//! compressed stream) into plain values — an entry table of path and data,
//! or the decompressed bytes. The outside parsers and decompressors stand
//! behind trusted wrappers; what each returns is a function of its input
//! bytes alone and is given a name that the extractor's contracts use.

use vstd::prelude::*;

verus! {

/// One record inside an open archive: its path within the archive and the
/// bytes of its content.
#[derive(Debug)]
pub struct ArchiveEntry {
    pub path: Vec<u8>,
    pub data: Vec<u8>,
}

/// The mathematical view of an entry table: each entry as its pair of
/// path bytes and content bytes.
pub open spec fn entry_views(es: Seq<ArchiveEntry>) -> Seq<(Seq<u8>, Seq<u8>)> {
    es.map_values(|e: ArchiveEntry| (e.path@, e.data@))
}

/// The entry table that the zip container with the given bytes holds, in
/// enumeration order, or nothing when those bytes are not a well-formed
/// zip archive.
pub uninterp spec fn zip_entry_list(bytes: Seq<u8>) -> Option<Seq<(Seq<u8>, Seq<u8>)>>;

/// The entry table that the tar container with the given bytes holds, in
/// enumeration order, or nothing when those bytes are not a well-formed
/// tar archive.
pub uninterp spec fn tar_entry_list(bytes: Seq<u8>) -> Option<Seq<(Seq<u8>, Seq<u8>)>>;

/// The decompression of a gzip stream, or nothing when the stream is bad.
pub uninterp spec fn gz_plain(bytes: Seq<u8>) -> Option<Seq<u8>>;

/// The decompression of an xz stream, or nothing when the stream is bad.
pub uninterp spec fn xz_plain(bytes: Seq<u8>) -> Option<Seq<u8>>;

/// Relies on zip::ZipArchive (new, len, by_index) and on reading each
/// entry's raw name and content: whether the bytes parse as a zip archive,
/// and the entry table they then hold, are functions of those bytes alone.
#[verifier::external_body]
pub(crate) fn read_zip_entries(bytes: &Vec<u8>) -> (r: Option<Vec<ArchiveEntry>>)
    ensures
        r is Some <==> zip_entry_list(bytes@) is Some,
        r matches Some(es) ==> entry_views(es@) == zip_entry_list(bytes@).unwrap(),
{
    let mut archive = zip::ZipArchive::new(std::io::Cursor::new(bytes.as_slice())).ok()?;
    let mut out: Vec<ArchiveEntry> = Vec::new();
    for i in 0..archive.len() {
        let mut f = archive.by_index(i).ok()?;
        let path = f.name_raw().to_vec();
        let mut data = Vec::new();
        std::io::Read::read_to_end(&mut f, &mut data).ok()?;
        out.push(ArchiveEntry { path, data });
    }
    Some(out)
}

/// Relies on tar::Archive (entries) and on each entry's path_bytes and
/// content: whether the bytes parse as a tar archive, and the entry table
/// they then hold, are functions of those bytes alone.
#[verifier::external_body]
pub(crate) fn read_tar_entries(bytes: &Vec<u8>) -> (r: Option<Vec<ArchiveEntry>>)
    ensures
        r is Some <==> tar_entry_list(bytes@) is Some,
        r matches Some(es) ==> entry_views(es@) == tar_entry_list(bytes@).unwrap(),
{
    let mut archive = tar::Archive::new(bytes.as_slice());
    let mut out: Vec<ArchiveEntry> = Vec::new();
    for entry in archive.entries().ok()? {
        let mut e = entry.ok()?;
        let path = e.path_bytes().to_vec();
        let mut data = Vec::new();
        std::io::Read::read_to_end(&mut e, &mut data).ok()?;
        out.push(ArchiveEntry { path, data });
    }
    Some(out)
}

/// Relies on flate2::read::GzDecoder: whether a gzip stream inflates, and
/// the inflated bytes, are functions of the compressed bytes alone.
#[verifier::external_body]
pub(crate) fn gz_decode(bytes: &Vec<u8>) -> (r: Option<Vec<u8>>)
    ensures
        r is Some <==> gz_plain(bytes@) is Some,
        r matches Some(p) ==> p@ == gz_plain(bytes@).unwrap(),
{
    let mut dec = flate2::read::GzDecoder::new(bytes.as_slice());
    let mut out = Vec::new();
    match std::io::Read::read_to_end(&mut dec, &mut out) {
        Ok(_) => Some(out),
        Err(_) => None,
    }
}

/// Relies on lzma_rs::xz_decompress: whether an xz stream decompresses,
/// and the decompressed bytes, are functions of the compressed bytes alone.
/// The whole stream is decompressed into memory before tar parsing begins —
/// an accepted, bounded-memory tradeoff.
#[verifier::external_body]
pub(crate) fn xz_decode(bytes: &Vec<u8>) -> (r: Option<Vec<u8>>)
    ensures
        r is Some <==> xz_plain(bytes@) is Some,
        r matches Some(p) ==> p@ == xz_plain(bytes@).unwrap(),
{
    let mut input = bytes.as_slice();
    let mut out = Vec::new();
    match lzma_rs::xz_decompress(&mut input, &mut out) {
        Ok(()) => Some(out),
        Err(_) => None,
    }
}

} // verus!
