//! Provisioning engine for a platform-specific external binary (FFmpeg):
//! archive format detection, in-archive search for a target entry across
//! three container formats, extraction of the entry's bytes, and the
//! provisioning state machine that orders download, extraction, cleanup
//! and progress reporting.

pub mod archive;
pub mod errors;
pub mod extract;
pub mod format;
pub mod path_match;
pub mod provision;
pub mod version;
