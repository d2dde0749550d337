//! Content ledger: registration of content records and the gated verify
//! operation.
//!
//! Registration is deliberately open — any actor may submit content under
//! any model reference; only verification is gated. The cryptographic check
//! behind a model's verification method is performed by an external
//! verification engine selected by the method tag; its verdict enters
//! `verify_content` as a plain boolean, and the contract states what the
//! registry does with every possible verdict.

use vstd::prelude::*;

use crate::records::AIModel;
use crate::records::Content;
use crate::records::ContentType;
use crate::records::ErrorCode;
use crate::records::GlobalState;
use crate::records::Pubkey;
use crate::records::MAX_METADATA_BYTES;
use crate::records::MAX_PROOF_BYTES;

verus! {

/// All checks that gate a verification, in the state before the call:
/// the caller holds the model's authority, the content belongs to the given
/// model, the content is not yet verified, the proof fits its cap, and — if
/// the engine's verdict will mark the content verified — both counters have
/// room to grow.
pub open spec fn verify_admissible(
    content: Content,
    ai_model: AIModel,
    global_state: GlobalState,
    caller: Pubkey,
    model_key: Pubkey,
    proof_len: nat,
    engine_verdict: bool,
) -> bool {
    &&& caller == ai_model.authority
    &&& content.model == model_key
    &&& !content.verified
    &&& proof_len <= MAX_PROOF_BYTES
    &&& (engine_verdict ==> {
        &&& ai_model.verified_content_count < u64::MAX
        &&& global_state.verified_contents_count < u64::MAX
    })
}

/// Registers a content record under a model reference.
///
/// Any actor may register content; the record starts unverified, with an
/// empty proof. Whether `model_pubkey` resolves to an existing model record
/// is the storage layer's lookup responsibility.
pub fn register_content(
    caller: &Pubkey,
    content_hash: [u8; 32],
    content_type: ContentType,
    content_metadata: Vec<u8>,
    model_pubkey: Pubkey,
    now: i64,
) -> (r: Result<Content, ErrorCode>)
    ensures
        r is Ok <==> content_metadata@.len() <= MAX_METADATA_BYTES,
        match r {
            Ok(content) => {
                &&& content.hash == content_hash
                &&& content.content_type == content_type
                &&& content.metadata@ == content_metadata@
                &&& content.model == model_pubkey
                &&& content.creator == *caller
                &&& !content.verified
                &&& content.verification_proof@ == Seq::<u8>::empty()
                &&& content.created_at == now
                &&& content.verified_at == 0
                &&& content.wf()
            },
            Err(e) => e == ErrorCode::RecordTooLarge,
        },
{
    if content_metadata.len() > MAX_METADATA_BYTES {
        return Err(ErrorCode::RecordTooLarge);
    }
    Ok(
        Content {
            hash: content_hash,
            content_type,
            metadata: content_metadata,
            model: model_pubkey,
            creator: *caller,
            verified: false,
            verification_proof: Vec::new(),
            created_at: now,
            verified_at: 0,
        },
    )
}

/// Records the outcome of a verification attempt on a content record.
///
/// Only the model's own authority may verify; the content must belong to
/// the given model and must not already be verified, so a verification can
/// never be double-counted. `engine_verdict` is the answer of the external
/// verification engine selected by the model's method tag. On success the
/// content's verified flag becomes the verdict, the proof and timestamp are
/// recorded, and — exactly when the verdict is positive — both the model's
/// and the root's verified-content counters grow by one. A refused call
/// leaves all three records untouched.
pub fn verify_content(
    content: &mut Content,
    ai_model: &mut AIModel,
    global_state: &mut GlobalState,
    caller: &Pubkey,
    model_key: &Pubkey,
    verification_proof: Vec<u8>,
    engine_verdict: bool,
    now: i64,
) -> (r: Result<(), ErrorCode>)
    ensures
        r is Ok <==> verify_admissible(
            *old(content),
            *old(ai_model),
            *old(global_state),
            *caller,
            *model_key,
            verification_proof@.len(),
            engine_verdict,
        ),
        match r {
            Ok(()) => {
                &&& final(content).verified == engine_verdict
                &&& final(content).verification_proof@ == verification_proof@
                &&& final(content).verified_at == now
                &&& final(content).hash == old(content).hash
                &&& final(content).content_type == old(content).content_type
                &&& final(content).metadata == old(content).metadata
                &&& final(content).model == old(content).model
                &&& final(content).creator == old(content).creator
                &&& final(content).created_at == old(content).created_at
                &&& final(ai_model).verified_content_count == old(
                    ai_model,
                ).verified_content_count + (if engine_verdict {
                    1int
                } else {
                    0int
                })
                &&& final(ai_model).name == old(ai_model).name
                &&& final(ai_model).version == old(ai_model).version
                &&& final(ai_model).provider == old(ai_model).provider
                &&& final(ai_model).verification_method == old(ai_model).verification_method
                &&& final(ai_model).authority == old(ai_model).authority
                &&& final(ai_model).created_at == old(ai_model).created_at
                &&& final(global_state).verified_contents_count == old(
                    global_state,
                ).verified_contents_count + (if engine_verdict {
                    1int
                } else {
                    0int
                })
                &&& final(global_state).authority == old(global_state).authority
                &&& final(global_state).registered_models_count == old(
                    global_state,
                ).registered_models_count
                &&& (old(content).wf() ==> final(content).wf())
            },
            Err(e) => {
                &&& *final(content) == *old(content)
                &&& *final(ai_model) == *old(ai_model)
                &&& *final(global_state) == *old(global_state)
                &&& (e == ErrorCode::Unauthorized <==> *caller != old(ai_model).authority)
                &&& (e == ErrorCode::ModelMismatch <==> {
                    &&& *caller == old(ai_model).authority
                    &&& old(content).model != *model_key
                })
                &&& (e == ErrorCode::AlreadyVerified <==> {
                    &&& *caller == old(ai_model).authority
                    &&& old(content).model == *model_key
                    &&& old(content).verified
                })
                &&& (e == ErrorCode::RecordTooLarge <==> {
                    &&& *caller == old(ai_model).authority
                    &&& old(content).model == *model_key
                    &&& !old(content).verified
                    &&& verification_proof@.len() > MAX_PROOF_BYTES
                })
                &&& (e == ErrorCode::Overflow <==> {
                    &&& *caller == old(ai_model).authority
                    &&& old(content).model == *model_key
                    &&& !old(content).verified
                    &&& verification_proof@.len() <= MAX_PROOF_BYTES
                    &&& engine_verdict
                    &&& {
                        ||| old(ai_model).verified_content_count == u64::MAX
                        ||| old(global_state).verified_contents_count == u64::MAX
                    }
                })
            },
        },
{
    if !(*caller == ai_model.authority) {
        return Err(ErrorCode::Unauthorized);
    }
    if !(content.model == *model_key) {
        return Err(ErrorCode::ModelMismatch);
    }
    if content.verified {
        return Err(ErrorCode::AlreadyVerified);
    }
    if verification_proof.len() > MAX_PROOF_BYTES {
        return Err(ErrorCode::RecordTooLarge);
    }
    if engine_verdict && (ai_model.verified_content_count == u64::MAX
        || global_state.verified_contents_count == u64::MAX) {
        return Err(ErrorCode::Overflow);
    }
    content.verified = engine_verdict;
    content.verification_proof = verification_proof;
    content.verified_at = now;
    if engine_verdict {
        ai_model.verified_content_count = ai_model.verified_content_count + 1;
        global_state.verified_contents_count = global_state.verified_contents_count + 1;
    }
    Ok(())
}

} // verus!
