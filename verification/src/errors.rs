use vstd::prelude::*;

verus! {

/// Error taxonomy of the pipeline. Every failure is scoped to the single
/// recording or call that produced it; no kind aborts the whole process.
#[derive(Debug)]
pub enum TranscriptionError {
    /// Missing or empty credential; surfaces at construction or first use.
    Configuration(String),
    /// Reserved for failures while framing the audio container.
    Encoding(String),
    /// Provider-side failure (network, authentication, malformed request,
    /// rate limiting), carrying the provider's message.
    Provider(String),
    /// Disk write failure for an artifact required by the active save mode.
    Persistence(String),
}

impl TranscriptionError {
    /// The diagnostic message carried by the error.
    pub open spec fn spec_message(&self) -> Seq<char> {
        match *self {
            TranscriptionError::Configuration(ref m) => m@,
            TranscriptionError::Encoding(ref m) => m@,
            TranscriptionError::Provider(ref m) => m@,
            TranscriptionError::Persistence(ref m) => m@,
        }
    }

    /// Returns the diagnostic message carried by the error.
    pub fn message(&self) -> (r: &str)
        ensures
            r@ == self.spec_message(),
    {
        match self {
            TranscriptionError::Configuration(m) => m.as_str(),
            TranscriptionError::Encoding(m) => m.as_str(),
            TranscriptionError::Provider(m) => m.as_str(),
            TranscriptionError::Persistence(m) => m.as_str(),
        }
    }
}

} // verus!
