use vstd::prelude::*;
use vstd::utf8::encode_utf8;
use crate::dataset::{
    check_dataset, data_rows, dataset_fault, dataset_valid, split_on, DatasetError, COMMA,
};
use crate::features::{empty_payload, Payload};
use crate::service::served_model;
use crate::store::ModelStore;

verus! {

/// Features per row, fixed by policy.
pub const FEATURE_SIZE: usize = 3;

/// Depth limit of each tree, fixed by policy.
pub const MAX_DEPTH: u32 = 3;

/// Column of the label in a dataset row (0-based).
pub const LABEL_INDEX: usize = 3;

/// Hyperparameters handed to the trainer.
#[derive(Clone, Copy, Debug, PartialEq, Eq, Structural)]
pub struct TrainingConfig {
    pub feature_size: usize,
    pub max_depth: u32,
}

/// How the dataset file is read.
#[derive(Clone, Copy, Debug, PartialEq, Eq, Structural)]
pub struct CsvFormat {
    pub header: bool,
    pub feature_size: usize,
    pub label_index: usize,
}

pub open spec fn spec_training_config() -> TrainingConfig {
    TrainingConfig { feature_size: FEATURE_SIZE, max_depth: MAX_DEPTH }
}

pub open spec fn spec_dataset_format() -> CsvFormat {
    CsvFormat { header: true, feature_size: FEATURE_SIZE, label_index: LABEL_INDEX }
}

/// The configuration of every training run: three features, trees of depth three.
pub fn training_config() -> (r: TrainingConfig)
    ensures
        r == spec_training_config(),
        r.feature_size == 3 && r.max_depth == 3,
{
    TrainingConfig { feature_size: FEATURE_SIZE, max_depth: MAX_DEPTH }
}

/// The dataset layout: a header line, three feature columns, the label in column three.
pub fn dataset_format() -> (r: CsvFormat)
    ensures
        r == spec_dataset_format(),
        r.header && r.feature_size == 3 && r.label_index == 3,
{
    CsvFormat { header: true, feature_size: FEATURE_SIZE, label_index: LABEL_INDEX }
}

#[derive(Clone, Copy, Debug, PartialEq, Eq, Structural)]
pub enum TrainingError {
    /// A run was requested while another is in progress.
    Busy,
    /// The dataset file could not be read as text.
    DatasetUnreadable,
    /// The dataset text has a faulty row.
    DatasetLoad(DatasetError),
    /// The trainer failed.
    Fit,
    /// The new model could not be written.
    Persist,
}

/// Where a training run stands. Promotion happens within the step that learns of a
/// successful write, so it has no phase of its own.
pub enum Phase<M> {
    Idle,
    Loading,
    Fitting,
    Persisting(M),
}

/// What the host reports back to the run.
pub enum Event<M> {
    /// An operator asked for a run.
    Start,
    /// The dataset file's text, or `None` when it could not be read.
    DatasetRead(Option<String>),
    /// The trained model, or `None` when training failed.
    Fitted(Option<M>),
    /// Whether the new model was written to the model file.
    Persisted(bool),
}

/// What the host is to do next.
pub enum Action {
    /// Read the dataset file at `path` as text.
    ReadDataset { path: String },
    /// Load the dataset at `path` in `format` and train a model with `config`.
    Fit { path: String, format: CsvFormat, config: TrainingConfig },
    /// Write the trained model to `path`.
    Persist { path: String },
    /// The run is over, with this outcome.
    Done(Result<(), TrainingError>),
    /// The request was refused; the run in progress goes on.
    Refused(TrainingError),
    /// The event does not belong to the current phase and changed nothing.
    Ignored,
}

/// A retraining workflow: Idle, Loading, Fitting, Persisting, then back to Idle, with
/// every failure going straight back to Idle.
pub struct Retrain<M> {
    phase: Phase<M>,
    dataset_path: String,
    model_path: String,
}

/// The bytes of a text in UTF-8.
pub open spec fn text_bytes(t: Seq<char>) -> Seq<u8> {
    encode_utf8(t)
}

/// What the store holds after `event` arrives in `phase`, given that it held `before`.
pub open spec fn store_after<M>(phase: Phase<M>, event: Event<M>, before: Option<M>) -> Option<M> {
    match (phase, event) {
        (Phase::Persisting(m), Event::Persisted(true)) => Some(m),
        _ => before,
    }
}

impl<M> Retrain<M> {
    pub closed spec fn phase(&self) -> Phase<M> {
        self.phase
    }

    pub closed spec fn dataset_path(&self) -> Seq<char> {
        self.dataset_path@
    }

    pub closed spec fn model_path(&self) -> Seq<char> {
        self.model_path@
    }

    /// An idle workflow that reads its dataset from `dataset_path` and writes models to
    /// `model_path`.
    pub fn new(dataset_path: String, model_path: String) -> (r: Self)
        ensures
            r.phase() is Idle,
            r.dataset_path() == dataset_path@,
            r.model_path() == model_path@,
    {
        Retrain { phase: Phase::Idle, dataset_path, model_path }
    }

    /// Whether no run is in progress.
    pub fn is_idle(&self) -> (r: bool)
        ensures
            r == self.phase() is Idle,
    {
        match self.phase {
            Phase::Idle => true,
            _ => false,
        }
    }

    /// Advances the workflow by one event. The store changes only when a trained model
    /// has been written successfully; it then holds that model.
    pub fn step(&mut self, store: &mut ModelStore<M>, event: Event<M>) -> (a: Action)
        ensures
            final(self).dataset_path() == old(self).dataset_path(),
            final(self).model_path() == old(self).model_path(),
            final(store)@ == store_after(old(self).phase(), event, old(store)@),
            match (old(self).phase(), event) {
                (Phase::Idle, Event::Start) => {
                    &&& final(self).phase() is Loading
                    &&& a is ReadDataset && a->ReadDataset_path@ == old(self).dataset_path()
                    &&& final(store)@ == old(store)@
                },
                (_, Event::Start) => {
                    &&& final(self).phase() == old(self).phase()
                    &&& a == Action::Refused(TrainingError::Busy)
                    &&& final(store)@ == old(store)@
                },
                (Phase::Loading, Event::DatasetRead(None)) => {
                    &&& final(self).phase() is Idle
                    &&& a == Action::Done(Err(TrainingError::DatasetUnreadable))
                    &&& final(store)@ == old(store)@
                },
                (Phase::Loading, Event::DatasetRead(Some(t))) => {
                    &&& final(store)@ == old(store)@
                    &&& dataset_valid(text_bytes(t@)) ==> {
                        &&& final(self).phase() is Fitting
                        &&& a is Fit
                        &&& a->Fit_path@ == old(self).dataset_path()
                        &&& a->Fit_format == spec_dataset_format()
                        &&& a->Fit_config == spec_training_config()
                    }
                    &&& !dataset_valid(text_bytes(t@)) ==> {
                        &&& final(self).phase() is Idle
                        &&& a is Done && a->Done_0 is Err && a->Done_0->Err_0 is DatasetLoad
                        &&& dataset_fault(text_bytes(t@), a->Done_0->Err_0->DatasetLoad_0)
                    }
                },
                (Phase::Fitting, Event::Fitted(None)) => {
                    &&& final(self).phase() is Idle
                    &&& a == Action::Done(Err(TrainingError::Fit))
                    &&& final(store)@ == old(store)@
                },
                (Phase::Fitting, Event::Fitted(Some(m))) => {
                    &&& final(self).phase() == Phase::Persisting(m)
                    &&& a is Persist && a->Persist_path@ == old(self).model_path()
                    &&& final(store)@ == old(store)@
                },
                (Phase::Persisting(_), Event::Persisted(false)) => {
                    &&& final(self).phase() is Idle
                    &&& a == Action::Done(Err(TrainingError::Persist))
                    &&& final(store)@ == old(store)@
                },
                (Phase::Persisting(m), Event::Persisted(true)) => {
                    &&& final(self).phase() is Idle
                    &&& a == Action::Done(Ok(()))
                    &&& final(store)@ == Some(m)
                },
                _ => {
                    &&& final(self).phase() == old(self).phase()
                    &&& a is Ignored
                    &&& final(store)@ == old(store)@
                },
            },
    {
        let mut phase = Phase::Idle;
        std::mem::swap(&mut phase, &mut self.phase);
        match (phase, event) {
            (Phase::Idle, Event::Start) => {
                self.phase = Phase::Loading;
                Action::ReadDataset { path: self.dataset_path.clone() }
            },
            (p, Event::Start) => {
                self.phase = p;
                Action::Refused(TrainingError::Busy)
            },
            (Phase::Loading, Event::DatasetRead(None)) => {
                Action::Done(Err(TrainingError::DatasetUnreadable))
            },
            (Phase::Loading, Event::DatasetRead(Some(t))) => {
                match check_dataset(t.as_str()) {
                    Ok(_) => {
                        self.phase = Phase::Fitting;
                        Action::Fit {
                            path: self.dataset_path.clone(),
                            format: dataset_format(),
                            config: training_config(),
                        }
                    },
                    Err(e) => Action::Done(Err(TrainingError::DatasetLoad(e))),
                }
            },
            (Phase::Fitting, Event::Fitted(None)) => Action::Done(Err(TrainingError::Fit)),
            (Phase::Fitting, Event::Fitted(Some(m))) => {
                self.phase = Phase::Persisting(m);
                Action::Persist { path: self.model_path.clone() }
            },
            (Phase::Persisting(_), Event::Persisted(false)) => {
                Action::Done(Err(TrainingError::Persist))
            },
            (Phase::Persisting(m), Event::Persisted(true)) => {
                let _ = store.replace(m);
                Action::Done(Ok(()))
            },
            (p, _) => {
                self.phase = p;
                Action::Ignored
            },
        }
    }
}

/// Once a run has written its model, every request with data is served by that model.
pub proof fn law_promoted_model_serves<M>(m: M, before: Option<M>, p: Payload)
    requires
        !empty_payload(p),
    ensures
        served_model(store_after(Phase::Persisting(m), Event::Persisted(true), before), p)
            == Some(m),
{
}

/// A dataset with a row that lacks its label column is refused, and the active model
/// stays in place.
pub proof fn law_missing_label_keeps_model<M>(t: String, before: Option<M>, row: int)
    requires
        0 <= row < data_rows(text_bytes(t@)).len(),
        split_on(data_rows(text_bytes(t@))[row], COMMA).len() == 3,
    ensures
        !dataset_valid(text_bytes(t@)),
        store_after(Phase::<M>::Loading, Event::DatasetRead(Some(t)), before) == before,
{
    assert(!crate::dataset::row_valid(data_rows(text_bytes(t@))[row]));
}

/// No event empties a store that holds a model: once ready, the service stays ready.
pub proof fn law_store_stays_ready<M>(phase: Phase<M>, event: Event<M>, before: Option<M>)
    requires
        before is Some,
    ensures
        store_after(phase, event, before) is Some,
{
}

} // verus!
