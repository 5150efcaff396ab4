//! Requests to classify text.

use vstd::prelude::*;

verus! {

/// The text to classify.
#[derive(Debug, Clone, PartialEq)]
pub enum ModerationInput {
    /// One text.
    String(String),
    /// Several texts.
    StringArray(Vec<String>),
}

/// The moderation model to use.
#[derive(Debug, Clone, Copy, PartialEq, Eq, Structural)]
pub enum TextModerationModel {
    /// The model that is upgraded over time.
    Latest,
    /// The model that changes only after notice.
    Stable,
}

impl Default for TextModerationModel {
    fn default() -> (model: TextModerationModel)
        ensures
            model == TextModerationModel::Latest,
    {
        TextModerationModel::Latest
    }
}

/// A request to classify some input.
#[derive(Debug, Clone, PartialEq)]
pub struct CreateModerationRequest {
    /// The text to classify.
    pub input: Option<ModerationInput>,
    /// The model asked for.
    pub model: Option<TextModerationModel>,
}

impl Default for CreateModerationRequest {
    fn default() -> (request: CreateModerationRequest)
        ensures
            request.input is None,
            request.model is None,
    {
        CreateModerationRequest { input: None, model: None }
    }
}

} // verus!
