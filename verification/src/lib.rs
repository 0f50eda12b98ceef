//! A batch download manager: fetches a declared set of remote asset files to
//! local disk, verifying each by content hash, while bounding how many
//! transfers run at once and reporting live progress.
//!
//! The engine is a per-entry state machine ([`task`]): verify the local file,
//! download if it does not satisfy the manifest, re-verify, and retry until
//! it does. Admission to the running phase is bounded ([`admission`]), the
//! batch as a whole tracks every entry to completion ([`batch`]), and each
//! running task reports bytes on its own indicator of a shared display
//! surface ([`progress`]). Verification ([`verification`]) compares the MD5
//! digest of the file's bytes against the manifest's expected hex hash,
//! case-insensitively ([`hashes`]); a file that cannot be read is simply not
//! satisfied and is downloaded afresh, each attempt truncating what an
//! earlier one left behind ([`transfer`]).

pub mod admission;
pub mod batch;
pub mod digest;
pub mod hashes;
pub mod helper;
pub mod manifest;
pub mod progress;
pub mod task;
pub mod transfer;
pub mod verification;
