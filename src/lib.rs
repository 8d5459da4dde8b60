//! Model lifecycle and request handling for a small gradient-boosting prediction service.
//!
//! The library decides; the host process performs the I/O, runs the model and holds the
//! store behind a reader-writer lock.
pub mod dataset;
pub mod features;
pub mod service;
pub mod store;
pub mod training;

pub use dataset::{check_dataset, DatasetError, RowFault};
pub use features::{is_zero_value, parse, FeatureVector, Payload, ValidationError};
pub use service::{predict, PredictStep};
pub use store::{LoadError, ModelStore, StoreError};
pub use training::{
    dataset_format, training_config, Action, CsvFormat, Event, Phase, Retrain,
    TrainingConfig, TrainingError,
};
