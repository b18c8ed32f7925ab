//! Verified core of a content-addressable asset synchronizer.
//!
//! Given a work list of (SHA-1 content hash, expected size) pairs, the
//! library decides, for each item, whether a local copy can be trusted
//! (cache validation against an MD5 transport digest), whether downloaded
//! bytes are authentic (SHA-1 and size check), where an asset lives
//! remotely and locally (content-addressed path resolution), and what
//! progress line each transition produces.  The per-item control flow is a
//! small state machine whose transitions are verified; the surrounding
//! process performs the network and file transfers it calls for.

pub mod cache;
pub mod console;
pub mod hash;
pub mod integrity;
pub mod model;
pub mod pipeline;
pub mod resolve;
pub mod text;
