//! The settings of the speech service: where it is, which variable holds the
//! token, and the voice and model to ask for.

use vstd::prelude::*;

verus! {

/// The settings of one pipeline. Voice and model are configuration, not
/// literals in the request builder.
#[derive(Debug, PartialEq, Eq)]
pub struct SpeechConfig {
    /// The URL that the request is posted to.
    pub endpoint: String,
    /// The name of the configuration variable that holds the bearer token.
    pub credential_variable: String,
    /// The voice identifier.
    pub voice: String,
    /// The model identifier.
    pub model: String,
}

/// The model of a [`SpeechConfig`].
pub struct SpeechConfigView {
    pub endpoint: Seq<char>,
    pub credential_variable: Seq<char>,
    pub voice: Seq<char>,
    pub model: Seq<char>,
}

impl View for SpeechConfig {
    type V = SpeechConfigView;

    open spec fn view(&self) -> SpeechConfigView {
        SpeechConfigView {
            endpoint: self.endpoint@,
            credential_variable: self.credential_variable@,
            voice: self.voice@,
            model: self.model@,
        }
    }
}

/// The standard settings.
pub open spec fn standard_config() -> SpeechConfigView {
    SpeechConfigView {
        endpoint: "https://api.openai.com/v1/audio/speech"@,
        credential_variable: "OPENAI_API_KEY"@,
        voice: "alloy"@,
        model: "gpt-4o-mini-tts"@,
    }
}

impl SpeechConfig {
    /// The standard settings.
    pub fn standard() -> (config: SpeechConfig)
        ensures
            config@ == standard_config(),
    {
        SpeechConfig {
            endpoint: String::from_str("https://api.openai.com/v1/audio/speech"),
            credential_variable: String::from_str("OPENAI_API_KEY"),
            voice: String::from_str("alloy"),
            model: String::from_str("gpt-4o-mini-tts"),
        }
    }
}

impl Default for SpeechConfig {
    fn default() -> (config: SpeechConfig)
        ensures
            config@ == standard_config(),
    {
        SpeechConfig::standard()
    }
}

} // verus!
