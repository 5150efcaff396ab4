//! Requests for fine-tuning jobs.

use vstd::prelude::*;

verus! {

/// The number of passes over the training data.
#[derive(Debug, Clone, Copy, PartialEq, Eq, Structural)]
pub enum NEpochs {
    /// This many passes.
    NEpochs(u8),
    /// As many as the service sees fit.
    Auto,
}

impl Default for NEpochs {
    fn default() -> (epochs: NEpochs)
        ensures
            epochs == NEpochs::Auto,
    {
        NEpochs::Auto
    }
}

/// The settings of a fine-tuning job.
#[derive(Debug, Clone, Copy, PartialEq, Eq, Structural)]
pub struct Hyperparameters {
    /// The number of passes over the training data.
    pub n_epochs: NEpochs,
}

impl Default for Hyperparameters {
    fn default() -> (parameters: Hyperparameters)
        ensures
            parameters.n_epochs == NEpochs::Auto,
    {
        Hyperparameters { n_epochs: NEpochs::Auto }
    }
}

/// A request to fine-tune a model on an uploaded file.
#[derive(Debug, Clone, PartialEq)]
pub struct CreateFineTuningJobRequest {
    /// The name of the model to start from.
    pub model: String,
    /// The identifier of the uploaded training file.
    pub training_file: String,
    /// The settings of the job.
    pub hyperparameters: Option<Hyperparameters>,
    /// A text that becomes part of the name of the resulting model.
    pub suffix: Option<String>,
    /// The identifier of an uploaded file with validation data.
    pub validation_file: Option<String>,
}

impl Default for CreateFineTuningJobRequest {
    fn default() -> (request: CreateFineTuningJobRequest)
        ensures
            request.model@.len() == 0,
            request.training_file@.len() == 0,
            request.hyperparameters is None,
            request.suffix is None,
            request.validation_file is None,
    {
        CreateFineTuningJobRequest {
            model: String::new(),
            training_file: String::new(),
            hyperparameters: None,
            suffix: None,
            validation_file: None,
        }
    }
}

} // verus!
