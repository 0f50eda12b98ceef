//! The manifest: the static, already-validated description of the assets a
//! batch run fetches.
//!
//! Produced once from external input and read-only thereafter. The core
//! consumes only each file's destination path, expected size, expected hash
//! and source URL; the other fields are carried through untouched.

use std::collections::HashMap;

use vstd::prelude::*;

verus! {

/// The version manifest: the command to launch, the asset index, and the
/// files to fetch, keyed by their identifier.
pub struct VersionFiles {
    pub version: String,
    pub display_version: String,
    pub command: Command,
    pub asset: Asset,
    pub files: HashMap<String, FileInner>,
}

/// The command the installed version is launched with.
pub struct Command {
    pub exe: String,
    pub params: String,
}

/// The asset index: the current asset and its named variants.
pub struct Asset {
    pub current: String,
    pub assets: Vec<Pair>,
}

/// One named asset variant.
pub struct Pair {
    pub name: String,
    pub value: String,
}

/// One downloadable file: where it goes, how large it is expected to be,
/// which hex digest its content must match, and where its bytes come from.
pub struct FileInner {
    /// Expected content hash, as a hex digest compared case-insensitively.
    pub hash: String,
    /// Destination path, unique within a batch.
    pub path: String,
    /// Expected byte count; sizes the progress display, the hash decides.
    pub size: u64,
    /// Fully qualified source location.
    pub url: String,
    /// Carried through from the manifest, not read by the core.
    pub is_downloaded: u8,
    /// Carried through from the manifest, not read by the core.
    pub downloaded_size: u64,
}

} // verus!
