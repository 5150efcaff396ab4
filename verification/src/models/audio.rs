//! Requests for generated speech.

use vstd::prelude::*;

verus! {

/// The text-to-speech model that renders the audio.
#[derive(Debug, Clone, PartialEq)]
pub enum SpeechModel {
    /// The standard model.
    Tts1,
    /// The high-definition model.
    Tts1Hd,
    /// A model that is known by its name only.
    Other(String),
}

impl Default for SpeechModel {
    fn default() -> (model: SpeechModel)
        ensures
            model is Tts1,
    {
        SpeechModel::Tts1
    }
}

/// The voice that speaks the text.
#[derive(Debug, Clone, PartialEq)]
#[non_exhaustive]
pub enum Voice {
    Alloy,
    Echo,
    Fable,
    Onyx,
    Nova,
    Shimmer,
    /// A voice that is known by its name only.
    Other(String),
}

impl Default for Voice {
    fn default() -> (voice: Voice)
        ensures
            voice is Alloy,
    {
        Voice::Alloy
    }
}

/// The encoding of the generated audio.
#[derive(Debug, Clone, Copy, PartialEq, Eq, Structural)]
pub enum SpeechResponseFormat {
    Mp3,
    Opus,
    Aac,
    Flac,
}

impl Default for SpeechResponseFormat {
    fn default() -> (format: SpeechResponseFormat)
        ensures
            format == SpeechResponseFormat::Mp3,
    {
        SpeechResponseFormat::Mp3
    }
}

} // verus!
