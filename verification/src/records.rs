//! The four record kinds of the registry, the enums they carry, and their
//! well-formedness conditions.
//!
//! Records hold only plain values: principal keys are 32 raw bytes, digests
//! are 32-byte arrays, and every variable-length field is a byte string with
//! a fixed cap. Timestamps come from an external clock and are stored as
//! signed 64-bit values.

use vstd::prelude::*;

verus! {

/// Maximum byte length of an AI model's name.
pub const MAX_MODEL_NAME_BYTES: usize = 100;

/// Maximum byte length of an AI model's version string.
pub const MAX_MODEL_VERSION_BYTES: usize = 50;

/// Maximum byte length of an AI model's provider string.
pub const MAX_MODEL_PROVIDER_BYTES: usize = 100;

/// Maximum byte length of a content record's metadata.
pub const MAX_METADATA_BYTES: usize = 200;

/// Maximum byte length of a verification proof blob.
pub const MAX_PROOF_BYTES: usize = 200;

/// Maximum byte length of a challenge's reason.
pub const MAX_REASON_BYTES: usize = 200;

/// Maximum byte length of a challenge's resolution notes.
pub const MAX_NOTES_BYTES: usize = 200;

/// An authenticated principal: the opaque identity of an actor (root
/// authority, model authority, content creator, challenger) or the storage
/// address of a record. The registry never inspects a key; it only compares
/// keys for equality.
#[derive(Clone, Copy, Debug)]
pub struct Pubkey {
    pub bytes: [u8; 32],
}

impl PartialEq for Pubkey {
    /// The shared capability check: two principals are the same exactly when
    /// their key bytes agree.
    fn eq(&self, other: &Pubkey) -> bool {
        let mut i: usize = 0;
        while i < 32
            invariant
                i <= 32,
                forall|j: int| 0 <= j < i ==> self.bytes[j] == other.bytes[j],
            decreases 32 - i,
        {
            if self.bytes[i] != other.bytes[i] {
                return false;
            }
            i = i + 1;
        }
        proof {
            assert(self.bytes =~= other.bytes);
        }
        true
    }
}

impl Eq for Pubkey {}

impl vstd::std_specs::cmp::PartialEqSpecImpl for Pubkey {
    open spec fn obeys_eq_spec() -> bool {
        true
    }

    open spec fn eq_spec(&self, other: &Pubkey) -> bool {
        self.bytes == other.bytes
    }
}

/// The class of check a model's authority uses to attest content. The check
/// itself is performed by an external verification engine; the registry only
/// records the chosen method.
#[derive(Clone, Copy, Debug, PartialEq, Eq, Structural)]
pub enum VerificationMethod {
    Signature,
    Watermark,
    HashMatch,
}

/// The kind of content a record describes.
#[derive(Clone, Copy, Debug, PartialEq, Eq, Structural)]
pub enum ContentType {
    Image,
    Video,
    Audio,
    Text,
    Other,
}

/// Lifecycle of a challenge: it is created `Pending` and moves to `Resolved`
/// exactly once.
#[derive(Clone, Copy, Debug, PartialEq, Eq, Structural)]
pub enum ChallengeStatus {
    Pending,
    Resolved,
}

/// Outcome of a resolved challenge: `Upheld` revokes the contested
/// verification, `Rejected` lets it stand.
#[derive(Clone, Copy, Debug, PartialEq, Eq, Structural)]
pub enum ChallengeResolution {
    Upheld,
    Rejected,
}

/// Why an operation was refused. A refused operation mutates nothing.
#[derive(Clone, Copy, Debug, PartialEq, Eq, Structural)]
pub enum ErrorCode {
    /// The caller fails an authority-equality check.
    Unauthorized,
    /// The content record is not associated with the given model.
    ModelMismatch,
    /// The challenge record is not associated with the given content.
    ContentMismatch,
    /// A challenge was attempted against unverified content.
    ContentNotVerified,
    /// A verification was attempted on already-verified content.
    AlreadyVerified,
    /// A resolution was attempted on an already-resolved challenge.
    AlreadyResolved,
    /// A variable-length field exceeds its cap.
    RecordTooLarge,
    /// A counter would exceed its width.
    Overflow,
}

/// The singleton registry root: the root authority and the two global
/// counters.
#[derive(Clone, Debug)]
pub struct GlobalState {
    pub authority: Pubkey,
    pub registered_models_count: u64,
    pub verified_contents_count: u64,
}

/// A registered AI model. All fields but the verified-content counter are
/// immutable after registration.
#[derive(Clone, Debug)]
pub struct AIModel {
    pub name: Vec<u8>,
    pub version: Vec<u8>,
    pub provider: Vec<u8>,
    pub verification_method: VerificationMethod,
    pub verified_content_count: u64,
    pub authority: Pubkey,
    pub created_at: i64,
}

impl AIModel {
    /// Every variable-length field is within its cap.
    pub open spec fn wf(self) -> bool {
        &&& self.name@.len() <= MAX_MODEL_NAME_BYTES
        &&& self.version@.len() <= MAX_MODEL_VERSION_BYTES
        &&& self.provider@.len() <= MAX_MODEL_PROVIDER_BYTES
    }
}

/// A piece of registered content: a digest plus bounded metadata, never the
/// content itself. `model`, once set, is immutable.
#[derive(Clone, Debug)]
pub struct Content {
    pub hash: [u8; 32],
    pub content_type: ContentType,
    pub metadata: Vec<u8>,
    pub model: Pubkey,
    pub creator: Pubkey,
    pub verified: bool,
    pub verification_proof: Vec<u8>,
    pub created_at: i64,
    pub verified_at: i64,
}

impl Content {
    /// Every variable-length field is within its cap.
    pub open spec fn wf(self) -> bool {
        &&& self.metadata@.len() <= MAX_METADATA_BYTES
        &&& self.verification_proof@.len() <= MAX_PROOF_BYTES
    }
}

/// A dispute contesting an attestation on a content record.
#[derive(Clone, Debug)]
pub struct VerificationChallenge {
    pub content: Pubkey,
    pub challenger: Pubkey,
    pub reason: Vec<u8>,
    pub evidence_hash: [u8; 32],
    pub status: ChallengeStatus,
    pub resolution: Option<ChallengeResolution>,
    pub resolution_notes: Vec<u8>,
    pub created_at: i64,
    pub resolved_at: i64,
}

impl VerificationChallenge {
    /// Fields are within their caps, and the resolution is present exactly
    /// when the challenge has been resolved.
    pub open spec fn wf(self) -> bool {
        &&& self.reason@.len() <= MAX_REASON_BYTES
        &&& self.resolution_notes@.len() <= MAX_NOTES_BYTES
        &&& (self.status == ChallengeStatus::Pending <==> self.resolution is None)
    }
}

} // verus!
