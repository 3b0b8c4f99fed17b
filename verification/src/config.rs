use vstd::prelude::*;

verus! {

/// Ghost model of a configuration: every field reduced to its
/// mathematical value, so contracts can state whole-value replacement.
pub struct ConfigModel {
    pub api_key: Seq<char>,
    pub model: Seq<char>,
    pub language: Option<Seq<char>>,
    pub temperature_centi: u8,
    pub prompt: Option<Seq<char>>,
}

/// View of an optional string as an optional character sequence.
pub open spec fn opt_str_view(o: Option<String>) -> Option<Seq<char>> {
    match o {
        Some(s) => Some(s@),
        None => None,
    }
}

/// Configuration backing outbound transcription requests.
///
/// The decoding temperature is kept in hundredths (0 stands for 0.00, 100
/// for 1.00) so that it is a plain integer value; the host converts it to
/// the provider's fractional scale at the network boundary.
#[derive(Debug)]
pub struct OpenAIConfiguration {
    pub api_key: String,
    pub model: String,
    pub language: Option<String>,
    pub temperature_centi: u8,
    pub prompt: Option<String>,
}

impl OpenAIConfiguration {
    /// The temperature stays within the provider's accepted range.
    pub open spec fn well_formed(&self) -> bool {
        self.temperature_centi <= 100
    }
}

impl View for OpenAIConfiguration {
    type V = ConfigModel;

    open spec fn view(&self) -> ConfigModel {
        ConfigModel {
            api_key: self.api_key@,
            model: self.model@,
            language: opt_str_view(self.language),
            temperature_centi: self.temperature_centi,
            prompt: opt_str_view(self.prompt),
        }
    }
}

impl Clone for OpenAIConfiguration {
    /// Cloning preserves the whole model, so a snapshot never mixes fields.
    fn clone(&self) -> (r: Self)
        ensures
            r@ == self@,
            r.well_formed() == self.well_formed(),
    {
        OpenAIConfiguration {
            api_key: self.api_key.clone(),
            model: self.model.clone(),
            language: match &self.language {
                Some(l) => Some(l.clone()),
                None => None,
            },
            temperature_centi: self.temperature_centi,
            prompt: match &self.prompt {
                Some(p) => Some(p.clone()),
                None => None,
            },
        }
    }
}

impl Default for OpenAIConfiguration {
    /// The default configuration: no credential yet, the provider's
    /// standard speech model, automatic language, temperature zero,
    /// no prompt.
    fn default() -> (r: Self)
        ensures
            r@.api_key.len() == 0,
            r@.model == "whisper-1"@,
            r@.language is None,
            r@.temperature_centi == 0,
            r@.prompt is None,
            r.well_formed(),
    {
        OpenAIConfiguration {
            api_key: String::new(),
            model: "whisper-1".to_owned(),
            language: None,
            temperature_centi: 0,
            prompt: None,
        }
    }
}

} // verus!
