//! Dispute subsystem: opening a challenge against an attestation and
//! resolving it.
//!
//! Any actor may challenge verified content; only the model's authority may
//! resolve the challenge. An upheld resolution revokes the attestation and
//! rolls the model's and the root's verified-content counters back by one,
//! saturating at zero; a rejected resolution leaves the attestation and the
//! counters exactly as they were. A challenge is resolved at most once.

use vstd::prelude::*;

use crate::records::AIModel;
use crate::records::ChallengeResolution;
use crate::records::ChallengeStatus;
use crate::records::Content;
use crate::records::ErrorCode;
use crate::records::GlobalState;
use crate::records::Pubkey;
use crate::records::VerificationChallenge;
use crate::records::MAX_NOTES_BYTES;
use crate::records::MAX_REASON_BYTES;

verus! {

/// A counter rolled back by one, never below zero.
pub open spec fn saturating_dec(x: u64) -> u64 {
    if x > 0 {
        (x - 1) as u64
    } else {
        0
    }
}

/// All checks that gate a resolution, in the state before the call: the
/// caller holds the model's authority, the challenge contests the given
/// content, the content belongs to the given model, the challenge is still
/// pending, and the notes fit their cap.
pub open spec fn resolve_admissible(
    challenge: VerificationChallenge,
    content: Content,
    ai_model: AIModel,
    caller: Pubkey,
    content_key: Pubkey,
    model_key: Pubkey,
    notes_len: nat,
) -> bool {
    &&& caller == ai_model.authority
    &&& challenge.content == content_key
    &&& content.model == model_key
    &&& challenge.status == ChallengeStatus::Pending
    &&& notes_len <= MAX_NOTES_BYTES
}

/// Opens a challenge against a content record's attestation.
///
/// The content must currently be verified; beyond that, any actor may
/// challenge. The new challenge is pending, carries no resolution yet, and
/// records the challenger, the reason, and a digest of the evidence.
pub fn challenge_verification(
    content: &Content,
    content_key: &Pubkey,
    caller: &Pubkey,
    challenge_reason: Vec<u8>,
    evidence_hash: [u8; 32],
    now: i64,
) -> (r: Result<VerificationChallenge, ErrorCode>)
    ensures
        r is Ok <==> content.verified && challenge_reason@.len() <= MAX_REASON_BYTES,
        match r {
            Ok(challenge) => {
                &&& challenge.content == *content_key
                &&& challenge.challenger == *caller
                &&& challenge.reason@ == challenge_reason@
                &&& challenge.evidence_hash == evidence_hash
                &&& challenge.status == ChallengeStatus::Pending
                &&& challenge.resolution is None
                &&& challenge.resolution_notes@ == Seq::<u8>::empty()
                &&& challenge.created_at == now
                &&& challenge.resolved_at == 0
                &&& challenge.wf()
            },
            Err(e) => {
                &&& (e == ErrorCode::ContentNotVerified <==> !content.verified)
                &&& (e == ErrorCode::RecordTooLarge <==> {
                    &&& content.verified
                    &&& challenge_reason@.len() > MAX_REASON_BYTES
                })
            },
        },
{
    if !content.verified {
        return Err(ErrorCode::ContentNotVerified);
    }
    if challenge_reason.len() > MAX_REASON_BYTES {
        return Err(ErrorCode::RecordTooLarge);
    }
    Ok(
        VerificationChallenge {
            content: *content_key,
            challenger: *caller,
            reason: challenge_reason,
            evidence_hash,
            status: ChallengeStatus::Pending,
            resolution: None,
            resolution_notes: Vec::new(),
            created_at: now,
            resolved_at: 0,
        },
    )
}

/// Resolves a pending challenge.
///
/// Only the model's authority may resolve; the challenge must contest the
/// given content, the content must belong to the given model, and the
/// challenge must still be pending — resolving twice is refused, so a
/// resolution can never be double-applied. The challenge becomes resolved
/// with the given outcome and notes. An upheld outcome additionally clears
/// the content's verified flag and rolls both verified-content counters
/// back by one, saturating at zero; a rejected outcome changes nothing
/// else. A refused call leaves all four records untouched.
pub fn resolve_challenge(
    challenge: &mut VerificationChallenge,
    content: &mut Content,
    ai_model: &mut AIModel,
    global_state: &mut GlobalState,
    caller: &Pubkey,
    content_key: &Pubkey,
    model_key: &Pubkey,
    resolution: ChallengeResolution,
    resolution_notes: Vec<u8>,
    now: i64,
) -> (r: Result<(), ErrorCode>)
    ensures
        r is Ok <==> resolve_admissible(
            *old(challenge),
            *old(content),
            *old(ai_model),
            *caller,
            *content_key,
            *model_key,
            resolution_notes@.len(),
        ),
        match r {
            Ok(()) => {
                &&& final(challenge).status == ChallengeStatus::Resolved
                &&& final(challenge).resolution == Some(resolution)
                &&& final(challenge).resolution_notes@ == resolution_notes@
                &&& final(challenge).resolved_at == now
                &&& final(challenge).content == old(challenge).content
                &&& final(challenge).challenger == old(challenge).challenger
                &&& final(challenge).reason == old(challenge).reason
                &&& final(challenge).evidence_hash == old(challenge).evidence_hash
                &&& final(challenge).created_at == old(challenge).created_at
                &&& (old(challenge).wf() ==> final(challenge).wf())
                &&& (resolution == ChallengeResolution::Upheld ==> {
                    &&& !final(content).verified
                    &&& final(ai_model).verified_content_count == saturating_dec(
                        old(ai_model).verified_content_count,
                    )
                    &&& final(global_state).verified_contents_count == saturating_dec(
                        old(global_state).verified_contents_count,
                    )
                })
                &&& (resolution == ChallengeResolution::Rejected ==> {
                    &&& *final(content) == *old(content)
                    &&& *final(ai_model) == *old(ai_model)
                    &&& *final(global_state) == *old(global_state)
                })
                &&& final(content).hash == old(content).hash
                &&& final(content).content_type == old(content).content_type
                &&& final(content).metadata == old(content).metadata
                &&& final(content).model == old(content).model
                &&& final(content).creator == old(content).creator
                &&& final(content).verification_proof == old(content).verification_proof
                &&& final(content).created_at == old(content).created_at
                &&& final(content).verified_at == old(content).verified_at
                &&& final(ai_model).name == old(ai_model).name
                &&& final(ai_model).version == old(ai_model).version
                &&& final(ai_model).provider == old(ai_model).provider
                &&& final(ai_model).verification_method == old(ai_model).verification_method
                &&& final(ai_model).authority == old(ai_model).authority
                &&& final(ai_model).created_at == old(ai_model).created_at
                &&& final(global_state).authority == old(global_state).authority
                &&& final(global_state).registered_models_count == old(
                    global_state,
                ).registered_models_count
            },
            Err(e) => {
                &&& *final(challenge) == *old(challenge)
                &&& *final(content) == *old(content)
                &&& *final(ai_model) == *old(ai_model)
                &&& *final(global_state) == *old(global_state)
                &&& (e == ErrorCode::Unauthorized <==> *caller != old(ai_model).authority)
                &&& (e == ErrorCode::ContentMismatch <==> {
                    &&& *caller == old(ai_model).authority
                    &&& old(challenge).content != *content_key
                })
                &&& (e == ErrorCode::ModelMismatch <==> {
                    &&& *caller == old(ai_model).authority
                    &&& old(challenge).content == *content_key
                    &&& old(content).model != *model_key
                })
                &&& (e == ErrorCode::AlreadyResolved <==> {
                    &&& *caller == old(ai_model).authority
                    &&& old(challenge).content == *content_key
                    &&& old(content).model == *model_key
                    &&& old(challenge).status != ChallengeStatus::Pending
                })
                &&& (e == ErrorCode::RecordTooLarge <==> {
                    &&& *caller == old(ai_model).authority
                    &&& old(challenge).content == *content_key
                    &&& old(content).model == *model_key
                    &&& old(challenge).status == ChallengeStatus::Pending
                    &&& resolution_notes@.len() > MAX_NOTES_BYTES
                })
            },
        },
{
    if !(*caller == ai_model.authority) {
        return Err(ErrorCode::Unauthorized);
    }
    if !(challenge.content == *content_key) {
        return Err(ErrorCode::ContentMismatch);
    }
    if !(content.model == *model_key) {
        return Err(ErrorCode::ModelMismatch);
    }
    if !(challenge.status == ChallengeStatus::Pending) {
        return Err(ErrorCode::AlreadyResolved);
    }
    if resolution_notes.len() > MAX_NOTES_BYTES {
        return Err(ErrorCode::RecordTooLarge);
    }
    let is_upheld = resolution == ChallengeResolution::Upheld;
    challenge.status = ChallengeStatus::Resolved;
    challenge.resolution = Some(resolution);
    challenge.resolution_notes = resolution_notes;
    challenge.resolved_at = now;
    if is_upheld {
        content.verified = false;
        if global_state.verified_contents_count > 0 {
            global_state.verified_contents_count = global_state.verified_contents_count - 1;
        }
        if ai_model.verified_content_count > 0 {
            ai_model.verified_content_count = ai_model.verified_content_count - 1;
        }
    }
    Ok(())
}

} // verus!
