//! The extractor: one scan algorithm over the entry table of any supported
//! container, stopping at the first entry whose filename component equals
//! the target, and yielding that entry's bytes verbatim.

use vstd::prelude::*;
use crate::archive::{
    ArchiveEntry, entry_views, gz_decode, gz_plain, read_tar_entries, read_zip_entries,
    tar_entry_list, xz_decode, xz_plain, zip_entry_list,
};
use crate::errors::ProvisionError;
use crate::format::ArchiveFormat;
use crate::path_match::{entry_matches, matches_target};

verus! {

/// Terminal outcome of one extraction attempt: the bytes of the first
/// matching entry, or the normal (non-error) report that no entry matched.
#[derive(Debug)]
pub enum ExtractionOutcome {
    Found(Vec<u8>),
    NotFound,
}

/// The content of the first entry whose filename component equals the
/// target, scanning the table in enumeration order; nothing when no entry
/// matches.
pub open spec fn first_match(entries: Seq<(Seq<u8>, Seq<u8>)>, target: Seq<u8>) -> Option<Seq<u8>>
    decreases entries.len(),
{
    if entries.len() == 0 {
        None
    } else if matches_target(entries[0].0, target) {
        Some(entries[0].1)
    } else {
        first_match(entries.drop_first(), target)
    }
}

/// Whether an extraction outcome reports exactly the given first match.
pub open spec fn outcome_matches(r: ExtractionOutcome, m: Option<Seq<u8>>) -> bool {
    match m {
        Option::None => r is NotFound,
        Option::Some(d) => r matches ExtractionOutcome::Found(v) && v@ == d,
    }
}

/// What `extract_from_bytes` returns, for every input: per format, either
/// the stage that failed (decompression, then container parsing) with its
/// error kind, or the first match of the resulting entry table.
pub open spec fn spec_extract(
    format: ArchiveFormat,
    bytes: Seq<u8>,
    target: Seq<u8>,
    r: Result<ExtractionOutcome, ProvisionError>,
) -> bool {
    match format {
        ArchiveFormat::Zip => match zip_entry_list(bytes) {
            Option::None => r matches Err(e) && e == ProvisionError::CorruptArchive,
            Option::Some(es) => r matches Ok(o) && outcome_matches(o, first_match(es, target)),
        },
        ArchiveFormat::GzippedTar => match gz_plain(bytes) {
            Option::None => r matches Err(e) && e == ProvisionError::DecompressionFailed,
            Option::Some(p) => match tar_entry_list(p) {
                Option::None => r matches Err(e) && e == ProvisionError::CorruptArchive,
                Option::Some(es) => r matches Ok(o) && outcome_matches(o, first_match(es, target)),
            },
        },
        ArchiveFormat::XzCompressedTar => match xz_plain(bytes) {
            Option::None => r matches Err(e) && e == ProvisionError::DecompressionFailed,
            Option::Some(p) => match tar_entry_list(p) {
                Option::None => r matches Err(e) && e == ProvisionError::CorruptArchive,
                Option::Some(es) => r matches Ok(o) && outcome_matches(o, first_match(es, target)),
            },
        },
    }
}

/// Scan an entry table in enumeration order and return the index of the
/// first entry whose filename component equals the target, stopping at the
/// first match; nothing when no entry matches.
pub fn find_first_match(table: &Vec<ArchiveEntry>, target: &Vec<u8>) -> (r: Option<usize>)
    ensures
        match r {
            Option::Some(i) => {
                &&& i < table@.len()
                &&& matches_target(table@[i as int].path@, target@)
                &&& forall|j: int|
                    0 <= j < i ==> !matches_target(entry_views(table@)[j].0, target@)
                &&& first_match(entry_views(table@), target@) == Some(table@[i as int].data@)
            },
            Option::None => first_match(entry_views(table@), target@) is None,
        },
{
    let ghost evs = entry_views(table@);
    let mut i: usize = 0;
    proof {
        assert(evs.skip(0) =~= evs);
    }
    while i < table.len()
        invariant
            0 <= i <= table@.len(),
            evs == entry_views(table@),
            forall|j: int| 0 <= j < i ==> !matches_target(evs[j].0, target@),
            first_match(evs, target@) == first_match(evs.skip(i as int), target@),
        decreases table@.len() - i,
    {
        let hit = entry_matches(&table[i].path, target);
        proof {
            assert(evs[i as int] == (table@[i as int].path@, table@[i as int].data@));
            assert(evs.skip(i as int)[0] == evs[i as int]);
        }
        if hit {
            proof {
                assert(first_match(evs.skip(i as int), target@) == Some(evs[i as int].1));
            }
            return Some(i);
        }
        proof {
            assert(evs.skip(i as int).drop_first() =~= evs.skip(i as int + 1));
        }
        i = i + 1;
    }
    proof {
        assert(evs.skip(i as int) =~= Seq::<(Seq<u8>, Seq<u8>)>::empty());
    }
    None
}

/// For an entry table holding a matching entry at position `i` and no match
/// anywhere else — the matching entry may sit at any nesting depth and any
/// position — the scan finds exactly that entry and yields its bytes.
pub proof fn lemma_single_matching_entry(
    entries: Seq<(Seq<u8>, Seq<u8>)>,
    target: Seq<u8>,
    i: int,
)
    requires
        0 <= i < entries.len(),
        matches_target(entries[i].0, target),
        forall|j: int| 0 <= j < entries.len() && j != i ==> !matches_target(entries[j].0, target),
    ensures
        first_match(entries, target) == Some(entries[i].1),
    decreases i,
{
    if i > 0 {
        lemma_single_matching_entry(entries.drop_first(), target, i - 1);
    }
}

/// When no entry matches the target, the scan reports no match.
pub proof fn lemma_no_matching_entry(entries: Seq<(Seq<u8>, Seq<u8>)>, target: Seq<u8>)
    requires
        forall|j: int| 0 <= j < entries.len() ==> !matches_target(entries[j].0, target),
    ensures
        first_match(entries, target) is None,
    decreases entries.len(),
{
    if entries.len() > 0 {
        lemma_no_matching_entry(entries.drop_first(), target);
    }
}

/// Take the first matching entry's bytes out of an owned entry table.
fn scan_outcome(es: Vec<ArchiveEntry>, target: &Vec<u8>, Ghost(evs): Ghost<Seq<(Seq<u8>, Seq<u8>)>>) -> (r: ExtractionOutcome)
    requires
        evs == entry_views(es@),
    ensures
        outcome_matches(r, first_match(evs, target@)),
{
    match find_first_match(&es, target) {
        Option::Some(i) => {
            let ghost idx = i as int;
            let mut tbl = es;
            let e = tbl.remove(i);
            proof {
                assert(e.data@ == evs[idx].1);
            }
            ExtractionOutcome::Found(e.data)
        },
        Option::None => ExtractionOutcome::NotFound,
    }
}

/// Extract the target from the raw bytes of an archive of the given format:
/// decompress where the format calls for it, parse the container, scan the
/// entries in order, and report the first match — or the exact failure kind
/// of the stage that failed.
pub fn extract_from_bytes(
    archive: &Vec<u8>,
    format: ArchiveFormat,
    target: &Vec<u8>,
) -> (r: Result<ExtractionOutcome, ProvisionError>)
    ensures
        spec_extract(format, archive@, target@, r),
{
    match format {
        ArchiveFormat::Zip => match read_zip_entries(archive) {
            Option::None => Err(ProvisionError::CorruptArchive),
            Option::Some(es) => {
                let ghost evs = entry_views(es@);
                Ok(scan_outcome(es, target, Ghost(evs)))
            },
        },
        ArchiveFormat::GzippedTar => match gz_decode(archive) {
            Option::None => Err(ProvisionError::DecompressionFailed),
            Option::Some(plain) => match read_tar_entries(&plain) {
                Option::None => Err(ProvisionError::CorruptArchive),
                Option::Some(es) => {
                    let ghost evs = entry_views(es@);
                    Ok(scan_outcome(es, target, Ghost(evs)))
                },
            },
        },
        ArchiveFormat::XzCompressedTar => match xz_decode(archive) {
            Option::None => Err(ProvisionError::DecompressionFailed),
            Option::Some(plain) => match read_tar_entries(&plain) {
                Option::None => Err(ProvisionError::CorruptArchive),
                Option::Some(es) => {
                    let ghost evs = entry_views(es@);
                    Ok(scan_outcome(es, target, Ghost(evs)))
                },
            },
        },
    }
}

} // verus!
