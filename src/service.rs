use vstd::prelude::*;
use crate::features::{empty_payload, parse, FeatureVector, Payload, ValidationError};
use crate::store::{ModelStore, StoreError};

verus! {

/// What a prediction request comes to before the model is run.
pub enum PredictStep<'a, M> {
    /// The payload was rejected; the response carries the error's message.
    Rejected(ValidationError),
    /// Run `model` on `batch`, a batch of one feature vector, and answer with its output.
    Infer { model: &'a M, batch: Vec<FeatureVector> },
}

/// The feature vector of a payload that passed validation.
pub open spec fn features_of(p: Payload) -> FeatureVector {
    FeatureVector { year: p.year, month: p.month, season: p.season }
}

/// The model that serves a payload when the store holds `active`: none for an empty
/// payload, whose rejection does not consult the store.
pub open spec fn served_model<M>(active: Option<M>, p: Payload) -> Option<M> {
    if empty_payload(p) {
        None
    } else {
        active
    }
}

/// Validates the payload, then looks up the active model and prepares a batch of one.
/// An empty payload is rejected whatever the store holds.
pub fn predict<'a, M>(store: &'a ModelStore<M>, payload: Payload) -> (r: Result<
    PredictStep<'a, M>,
    StoreError,
>)
    ensures
        empty_payload(payload) ==> r is Ok && r->Ok_0 is Rejected
            && r->Ok_0->Rejected_0 == ValidationError::EmptyPayload,
        !empty_payload(payload) && store@ is None ==> r == Err::<PredictStep<'a, M>, StoreError>(
            StoreError::NotInitialized,
        ),
        !empty_payload(payload) && store@ is Some ==> r is Ok && r->Ok_0 is Infer
            && Some(*r->Ok_0->model) == served_model(store@, payload) && r->Ok_0->batch@ == seq![
            features_of(payload),
        ],
{
    match parse(payload) {
        Err(e) => Ok(PredictStep::Rejected(e)),
        Ok(fv) => {
            let model = store.get()?;
            let mut batch: Vec<FeatureVector> = Vec::new();
            batch.push(fv);
            Ok(PredictStep::Infer { model, batch })
        },
    }
}

} // verus!
