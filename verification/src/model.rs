//! The data model around the work list: one work item, a version
//! identifier, and the configuration surface the pipeline consumes.

use vstd::prelude::*;

use crate::hash::Sha1Hash;

verus! {

/// One entry of the asset work list: the content hash that identifies
/// the object and the byte count it is expected to have.
#[derive(Debug)]
pub struct AssetMappingValue {
    pub hash: Sha1Hash,
    pub size: usize,
}

/// An opaque version name, compared verbatim against the remote list.
#[derive(Debug, Clone, PartialEq, Eq)]
pub struct VersionIdentifier(pub String);

impl core::str::FromStr for VersionIdentifier {
    type Err = core::convert::Infallible;

    fn from_str(s: &str) -> Result<Self, Self::Err> {
        Ok(Self(s.to_owned()))
    }
}

/// The configuration the synchronizer runs under.
#[derive(Debug)]
pub struct Args {
    /// Which version's assets to synchronize.
    pub version: VersionIdentifier,
    /// Worker thread count; `None` leaves the pool its default size.
    pub threads: Option<usize>,
    /// Base directory that holds the `assets/objects` store.
    pub dot_minecraft: String,
    /// Re-download everything, skipping cache validation.
    pub re_download: bool,
    /// Persist downloads even when size or hash mismatch.
    pub unsafe_danger_skip_validation_hash_and_size: bool,
}

} // verus!
