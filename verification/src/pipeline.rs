use vstd::prelude::*;

use crate::error::PipelineError;

verus! {

/// What the driver found when it looked for the model configuration file:
/// the file may be absent, present but unparseable, or present and parsed.
/// The driver performs the read and the parse; this crate decides what each
/// outcome means for the pipeline.
#[derive(Clone, Copy, Debug, PartialEq, Eq, Structural)]
pub enum ConfigFileStatus {
    /// No file exists at the configuration path.
    Missing,
    /// A file exists but could not be parsed as a model configuration.
    Malformed,
    /// The file exists and parsed as a model configuration.
    Readable,
}

/// Gates pipeline construction on the model configuration file: the
/// configuration is passed through untouched only when the file was read
/// and parsed, and a missing or malformed file always surfaces as the
/// matching error — never as a success with an empty result.
pub fn gate_config_file<C>(status: ConfigFileStatus, config: C) -> (r: Result<C, PipelineError>)
    ensures
        status is Readable ==> (r matches Ok(c) && c == config),
        status is Missing ==> (r matches Err(e) && e == PipelineError::MissingConfigFile),
        status is Malformed ==> (r matches Err(e) && e == PipelineError::MalformedConfigFile),
        r is Ok <==> status is Readable,
    {
    match status {
        ConfigFileStatus::Missing => Err(PipelineError::MissingConfigFile),
        ConfigFileStatus::Malformed => Err(PipelineError::MalformedConfigFile),
        ConfigFileStatus::Readable => Ok(config),
    }
}

/// Pairs the runtime's outputs with the input documents: the outputs are
/// passed through untouched exactly when there is one output per input, and
/// any other shape surfaces as an error. A successful result therefore
/// always has as many entries as there were inputs.
pub fn check_output_count(n_inputs: usize, outputs: Vec<String>) -> (r: Result<
    Vec<String>,
    PipelineError,
>)
    ensures
        outputs@.len() == n_inputs ==> (r matches Ok(v) && v == outputs),
        outputs@.len() != n_inputs ==> (r matches Err(e) && e == PipelineError::OutputCountMismatch),
        r matches Ok(v) ==> v@.len() == n_inputs,
    {
    if outputs.len() == n_inputs {
        Ok(outputs)
    } else {
        Err(PipelineError::OutputCountMismatch)
    }
}

} // verus!
