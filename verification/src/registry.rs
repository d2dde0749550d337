//! Registry root lifecycle and model registration.
//!
//! `initialize` creates the singleton root record; `register_ai_model` is
//! the root-authority-gated creation of an AI model record. Singleton-ness
//! of the root is an addressing convention of the storage layer, not
//! enforced here.

use vstd::prelude::*;

use crate::records::AIModel;
use crate::records::ErrorCode;
use crate::records::GlobalState;
use crate::records::Pubkey;
use crate::records::VerificationMethod;
use crate::records::MAX_MODEL_NAME_BYTES;
use crate::records::MAX_MODEL_PROVIDER_BYTES;
use crate::records::MAX_MODEL_VERSION_BYTES;

verus! {

/// The variable-length fields of a model record are all within their caps.
pub open spec fn model_fields_fit(name: Seq<u8>, version: Seq<u8>, provider: Seq<u8>) -> bool {
    &&& name.len() <= MAX_MODEL_NAME_BYTES
    &&& version.len() <= MAX_MODEL_VERSION_BYTES
    &&& provider.len() <= MAX_MODEL_PROVIDER_BYTES
}

/// Creates the singleton registry root: the caller becomes the root
/// authority and both global counters start at zero.
pub fn initialize(caller: &Pubkey) -> (global_state: GlobalState)
    ensures
        global_state.authority == *caller,
        global_state.registered_models_count == 0,
        global_state.verified_contents_count == 0,
{
    GlobalState { authority: *caller, registered_models_count: 0, verified_contents_count: 0 }
}

/// Registers an AI model under the registry root.
///
/// Only the root authority may register a model; the new record carries the
/// given descriptive fields, delegates its own authority to the caller,
/// starts with a zero verified-content counter, and bumps the root's
/// registered-model counter by one. A refused call leaves the root
/// untouched.
pub fn register_ai_model(
    global_state: &mut GlobalState,
    caller: &Pubkey,
    model_name: Vec<u8>,
    model_version: Vec<u8>,
    model_provider: Vec<u8>,
    verification_method: VerificationMethod,
    now: i64,
) -> (r: Result<AIModel, ErrorCode>)
    ensures
        r is Ok <==> {
            &&& *caller == old(global_state).authority
            &&& model_fields_fit(model_name@, model_version@, model_provider@)
            &&& old(global_state).registered_models_count < u64::MAX
        },
        match r {
            Ok(model) => {
                &&& model.name@ == model_name@
                &&& model.version@ == model_version@
                &&& model.provider@ == model_provider@
                &&& model.verification_method == verification_method
                &&& model.verified_content_count == 0
                &&& model.authority == *caller
                &&& model.created_at == now
                &&& model.wf()
                &&& final(global_state).authority == old(global_state).authority
                &&& final(global_state).registered_models_count == old(
                    global_state,
                ).registered_models_count + 1
                &&& final(global_state).verified_contents_count == old(
                    global_state,
                ).verified_contents_count
            },
            Err(e) => {
                &&& *final(global_state) == *old(global_state)
                &&& (e == ErrorCode::Unauthorized <==> *caller != old(global_state).authority)
                &&& (e == ErrorCode::RecordTooLarge <==> {
                    &&& *caller == old(global_state).authority
                    &&& !model_fields_fit(model_name@, model_version@, model_provider@)
                })
                &&& (e == ErrorCode::Overflow <==> {
                    &&& *caller == old(global_state).authority
                    &&& model_fields_fit(model_name@, model_version@, model_provider@)
                    &&& old(global_state).registered_models_count == u64::MAX
                })
            },
        },
{
    if !(*caller == global_state.authority) {
        return Err(ErrorCode::Unauthorized);
    }
    if model_name.len() > MAX_MODEL_NAME_BYTES || model_version.len() > MAX_MODEL_VERSION_BYTES
        || model_provider.len() > MAX_MODEL_PROVIDER_BYTES {
        return Err(ErrorCode::RecordTooLarge);
    }
    if global_state.registered_models_count == u64::MAX {
        return Err(ErrorCode::Overflow);
    }
    let model = AIModel {
        name: model_name,
        version: model_version,
        provider: model_provider,
        verification_method,
        verified_content_count: 0,
        authority: *caller,
        created_at: now,
    };
    global_state.registered_models_count = global_state.registered_models_count + 1;
    Ok(model)
}

} // verus!
