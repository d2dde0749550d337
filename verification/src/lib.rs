//! Provenance registry for AI-produced content.
//!
//! The registry tracks which AI model produced a piece of content, whether
//! that content has been verified by the model's authority, and a dispute
//! workflow through which a verification can be challenged and revoked.
//! Four record kinds are kept: the singleton registry root, AI model
//! records, content records, and verification challenges. Six operations
//! mediate every mutation; their contracts state exactly which callers may
//! perform each transition and how the cross-record counters move.

pub mod dispute;
pub mod laws;
pub mod ledger;
pub mod records;
pub mod registry;
