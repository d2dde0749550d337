//! The cross-record counter invariant.
//!
//! The registry root's verified-content counter is meant to equal, in every
//! reachable state, the sum of the verified-content counters of all
//! registered models. The lemmas here establish that agreement in the
//! initial state and show that each counter-moving operation preserves it,
//! phrased over the counter changes that the operations' contracts
//! guarantee. The remaining transitions preserve it for free: a refused
//! operation mutates nothing, and a rejected resolution or a negative
//! verification verdict leaves every counter untouched.

use vstd::prelude::*;

use crate::records::AIModel;
use crate::records::GlobalState;

verus! {

/// The sum of the verified-content counters of a sequence of models.
pub open spec fn total_verified(models: Seq<AIModel>) -> int
    decreases models.len(),
{
    if models.len() == 0 {
        0
    } else {
        models[0].verified_content_count + total_verified(models.drop_first())
    }
}

/// The root's verified-content counter equals the sum over all models.
pub open spec fn counters_agree(global_state: GlobalState, models: Seq<AIModel>) -> bool {
    global_state.verified_contents_count == total_verified(models)
}

/// Law: the sum of the model counters is never negative.
pub proof fn lemma_total_verified_nonneg(models: Seq<AIModel>)
    ensures
        total_verified(models) >= 0,
    decreases models.len(),
{
    if models.len() > 0 {
        lemma_total_verified_nonneg(models.drop_first());
    }
}

/// Appending a model adds exactly its counter to the sum.
pub proof fn lemma_total_verified_push(models: Seq<AIModel>, model: AIModel)
    ensures
        total_verified(models.push(model)) == total_verified(models)
            + model.verified_content_count,
    decreases models.len(),
{
    let pushed = models.push(model);
    if models.len() == 0 {
        assert(pushed[0] == model);
        assert(pushed.drop_first() =~= Seq::<AIModel>::empty());
        assert(total_verified(pushed) == pushed[0].verified_content_count + total_verified(
            pushed.drop_first(),
        ));
    } else {
        assert(pushed[0] == models[0]);
        assert(pushed.drop_first() =~= models.drop_first().push(model));
        lemma_total_verified_push(models.drop_first(), model);
        assert(total_verified(pushed) == pushed[0].verified_content_count + total_verified(
            pushed.drop_first(),
        ));
    }
}

/// Replacing one model changes the sum by the change in that model's
/// counter.
pub proof fn lemma_total_verified_update(models: Seq<AIModel>, i: int, model: AIModel)
    requires
        0 <= i < models.len(),
    ensures
        total_verified(models.update(i, model)) == total_verified(models)
            - models[i].verified_content_count + model.verified_content_count,
    decreases models.len(),
{
    if i == 0 {
        assert(models.update(i, model).drop_first() =~= models.drop_first());
    } else {
        assert(models.update(i, model).drop_first() =~= models.drop_first().update(
            i - 1,
            model,
        ));
        lemma_total_verified_update(models.drop_first(), i - 1, model);
    }
}

/// No single model's counter exceeds the sum over all models.
pub proof fn lemma_element_le_total(models: Seq<AIModel>, i: int)
    requires
        0 <= i < models.len(),
    ensures
        models[i].verified_content_count <= total_verified(models),
    decreases models.len(),
{
    if i == 0 {
        lemma_total_verified_nonneg(models.drop_first());
    } else {
        lemma_element_le_total(models.drop_first(), i - 1);
    }
}

/// Law: a freshly initialized registry agrees with an empty model registry —
/// both sides of the invariant are zero.
pub proof fn lemma_initialize_establishes_agreement(global_state: GlobalState)
    requires
        global_state.verified_contents_count == 0,
    ensures
        counters_agree(global_state, Seq::<AIModel>::empty()),
{
}

/// Law: registering a model preserves the counter agreement. A new model
/// starts with a zero counter and the root's verified-content counter is
/// untouched, so the sum is unchanged.
pub proof fn lemma_register_model_preserves_agreement(
    global_pre: GlobalState,
    global_post: GlobalState,
    models: Seq<AIModel>,
    model: AIModel,
)
    requires
        counters_agree(global_pre, models),
        model.verified_content_count == 0,
        global_post.verified_contents_count == global_pre.verified_contents_count,
    ensures
        counters_agree(global_post, models.push(model)),
{
    lemma_total_verified_push(models, model);
}

/// Law: a successful verification with a positive verdict preserves the
/// counter agreement — the model's counter and the root's counter grow by
/// one together.
pub proof fn lemma_verify_preserves_agreement(
    global_pre: GlobalState,
    global_post: GlobalState,
    models: Seq<AIModel>,
    i: int,
    model_post: AIModel,
)
    requires
        counters_agree(global_pre, models),
        0 <= i < models.len(),
        model_post.verified_content_count == models[i].verified_content_count + 1,
        global_post.verified_contents_count == global_pre.verified_contents_count + 1,
    ensures
        counters_agree(global_post, models.update(i, model_post)),
{
    lemma_total_verified_update(models, i, model_post);
}

/// Law: an upheld resolution against a model whose counter is still
/// positive preserves the counter agreement. Agreement forces the root's
/// counter to be positive too, so neither saturating decrement stops at
/// zero and both counters fall by one together.
///
/// The hypothesis that the model's counter is positive is needed: the two
/// saturating decrements are independent, so upholding a second, still
/// pending challenge against content whose verification was already
/// reverted by an earlier one can stop the model's counter at zero while
/// the root's counter — still counting other models' content — falls.
pub proof fn lemma_resolve_upheld_preserves_agreement(
    global_pre: GlobalState,
    global_post: GlobalState,
    models: Seq<AIModel>,
    i: int,
    model_post: AIModel,
)
    requires
        counters_agree(global_pre, models),
        0 <= i < models.len(),
        models[i].verified_content_count > 0,
        model_post.verified_content_count == models[i].verified_content_count - 1,
        global_post.verified_contents_count == global_pre.verified_contents_count - 1,
    ensures
        global_pre.verified_contents_count > 0,
        counters_agree(global_post, models.update(i, model_post)),
{
    lemma_element_le_total(models, i);
    lemma_total_verified_update(models, i, model_post);
}

} // verus!
