use vstd::prelude::*;

verus! {

/// A failure reported by one of the pipeline stages.
///
/// Every stage that can fail returns one of these variants, so a missing or
/// unreadable model configuration, invalid decoding parameters, or a runtime
/// answer of the wrong shape always surfaces as an error and never as a
/// silent empty result.
#[derive(Clone, Copy, Debug, PartialEq, Eq)]
pub enum PipelineError {
    /// The decoding parameters break one of the rules the inference runtime
    /// enforces (for example a non-positive beam count).
    InvalidDecodingParams,
    /// No model configuration file exists at the given path.
    MissingConfigFile,
    /// The model configuration file exists but could not be parsed.
    MalformedConfigFile,
    /// The runtime returned a number of outputs different from the number of
    /// input documents.
    OutputCountMismatch,
}

impl PipelineError {
    /// A short human-readable description of the failure.
    pub fn message(&self) -> (r: &'static str)
        ensures
            self is InvalidDecodingParams ==> r@ == "invalid decoding parameters"@,
            self is MissingConfigFile ==> r@ == "model configuration file not found"@,
            self is MalformedConfigFile ==> r@ == "model configuration file could not be parsed"@,
            self is OutputCountMismatch ==> r@ == "runtime returned a different number of outputs than inputs"@,
    {
        match self {
            PipelineError::InvalidDecodingParams => "invalid decoding parameters",
            PipelineError::MissingConfigFile => "model configuration file not found",
            PipelineError::MalformedConfigFile => "model configuration file could not be parsed",
            PipelineError::OutputCountMismatch => {
                "runtime returned a different number of outputs than inputs"
            },
        }
    }
}

} // verus!
