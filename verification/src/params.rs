use vstd::prelude::*;

use crate::error::PipelineError;

verus! {

/// Decoding hyperparameters for search-based text generation.
///
/// The fractional knobs that the inference runtime takes as floating-point
/// values (temperature, nucleus-sampling threshold, repetition and length
/// penalties, diversity penalty) are held here in thousandths, so a
/// `temperature_milli` of `100` stands for a temperature of `0.1` and `1000`
/// stands for `1.0`. The driver converts to floating point only at the call
/// into the runtime.
#[derive(Clone, Copy, Debug, PartialEq, Eq)]
pub struct DecodingParams {
    /// Minimum length of a generated sequence.
    pub min_length: i64,
    /// Maximum length of a generated sequence, unbounded when `None`.
    pub max_length: Option<i64>,
    /// When true, tokens are sampled; when false, decoding is greedy /
    /// beam-search only and therefore deterministic.
    pub do_sample: bool,
    /// Stop the beam search as soon as enough hypotheses are finished.
    pub early_stopping: bool,
    /// Number of beams kept during search-based decoding.
    pub num_beams: i64,
    /// Sampling temperature, in thousandths; must be positive.
    pub temperature_milli: u64,
    /// Keep only the `top_k` most likely tokens when sampling; `0` disables.
    pub top_k: i64,
    /// Nucleus-sampling threshold, in thousandths of probability mass;
    /// must lie between `0` and `1000`.
    pub top_p_milli: u64,
    /// Repetition penalty, in thousandths; must be at least `1000`.
    pub repetition_penalty_milli: u64,
    /// Exponential length penalty, in thousandths; must be positive.
    pub length_penalty_milli: u64,
    /// Forbid repeating n-grams of this size or larger; `0` disables.
    pub no_repeat_ngram_size: i64,
    /// Number of sequences returned per input; must be positive.
    pub num_return_sequences: i64,
    /// Number of beam groups for diverse beam search, if any.
    pub num_beam_groups: Option<i64>,
    /// Diversity penalty between beam groups, in thousandths, if any.
    pub diversity_penalty_milli: Option<u64>,
}

impl DecodingParams {
    /// The rules the inference runtime enforces on a generation
    /// configuration before it will run: positive temperature, a nucleus
    /// threshold that is a probability, a repetition penalty of at least
    /// one, a positive length penalty, positive beam and return-sequence
    /// counts, no more returned sequences than beams under deterministic
    /// decoding, and a beam count divisible by the number of beam groups.
    pub open spec fn valid(self) -> bool {
        &&& self.temperature_milli > 0
        &&& self.top_p_milli <= 1000
        &&& self.repetition_penalty_milli >= 1000
        &&& self.length_penalty_milli > 0
        &&& self.num_return_sequences > 0
        &&& self.num_beams > 0
        &&& !self.do_sample && self.num_beams == 1 ==> self.num_return_sequences == 1
        &&& !self.do_sample && self.num_beams > 1 ==> self.num_beams >= self.num_return_sequences
        &&& match self.num_beam_groups {
            Some(g) => g > 1 ==> self.num_beams % g == 0,
            None => true,
        }
    }

    /// Decoding is deterministic exactly when sampling is off: greedy and
    /// pure beam-search decoding always pick the highest-scoring candidate,
    /// so the output is a function of the model weights and the input alone.
    pub open spec fn deterministic(self) -> bool {
        !self.do_sample
    }

    /// Returns whether these parameters request deterministic (reproducible)
    /// decoding.
    pub fn is_deterministic(&self) -> (r: bool)
        ensures
            r == self.deterministic(),
    {
        !self.do_sample
    }

    /// Checks these parameters against the rules the inference runtime
    /// enforces, reporting a failure instead of letting the runtime abort.
    pub fn validate(&self) -> (r: Result<(), PipelineError>)
        ensures
            r is Ok <==> self.valid(),
            r is Err ==> r == Err::<(), PipelineError>(PipelineError::InvalidDecodingParams),
    {
        if self.temperature_milli == 0 {
            return Err(PipelineError::InvalidDecodingParams);
        }
        if self.top_p_milli > 1000 {
            return Err(PipelineError::InvalidDecodingParams);
        }
        if self.repetition_penalty_milli < 1000 {
            return Err(PipelineError::InvalidDecodingParams);
        }
        if self.length_penalty_milli == 0 {
            return Err(PipelineError::InvalidDecodingParams);
        }
        if self.num_return_sequences <= 0 {
            return Err(PipelineError::InvalidDecodingParams);
        }
        if self.num_beams <= 0 {
            return Err(PipelineError::InvalidDecodingParams);
        }
        if !self.do_sample && self.num_beams == 1 && self.num_return_sequences != 1 {
            return Err(PipelineError::InvalidDecodingParams);
        }
        if !self.do_sample && self.num_beams > 1 && self.num_beams < self.num_return_sequences {
            return Err(PipelineError::InvalidDecodingParams);
        }
        match self.num_beam_groups {
            Some(g) => {
                if g > 1 && self.num_beams % g != 0 {
                    return Err(PipelineError::InvalidDecodingParams);
                }
            },
            None => {},
        }
        Ok(())
    }

    /// The decoding defaults a summarization pipeline starts from: greedy
    /// beam search over three beams, summaries between 56 and 142 tokens,
    /// and no trigram repeated.
    pub open spec fn spec_summarization_defaults() -> DecodingParams {
        DecodingParams {
            min_length: 56,
            max_length: Some(142),
            do_sample: false,
            early_stopping: true,
            num_beams: 3,
            temperature_milli: 1000,
            top_k: 50,
            top_p_milli: 1000,
            repetition_penalty_milli: 1000,
            length_penalty_milli: 1000,
            no_repeat_ngram_size: 3,
            num_return_sequences: 1,
            num_beam_groups: None,
            diversity_penalty_milli: None,
        }
    }

    /// Builds the summarization defaults.
    pub fn summarization_defaults() -> (r: DecodingParams)
        ensures
            r == Self::spec_summarization_defaults(),
    {
        DecodingParams {
            min_length: 56,
            max_length: Some(142),
            do_sample: false,
            early_stopping: true,
            num_beams: 3,
            temperature_milli: 1000,
            top_k: 50,
            top_p_milli: 1000,
            repetition_penalty_milli: 1000,
            length_penalty_milli: 1000,
            no_repeat_ngram_size: 3,
            num_return_sequences: 1,
            num_beam_groups: None,
            diversity_penalty_milli: None,
        }
    }

    /// The decoding defaults a free-form text-generation pipeline starts
    /// from: sampled decoding over five beams with nucleus threshold 0.9
    /// and at most 56 tokens.
    pub open spec fn spec_generation_defaults() -> DecodingParams {
        DecodingParams {
            min_length: 0,
            max_length: Some(56),
            do_sample: true,
            early_stopping: true,
            num_beams: 5,
            temperature_milli: 1000,
            top_k: 0,
            top_p_milli: 900,
            repetition_penalty_milli: 1000,
            length_penalty_milli: 1000,
            no_repeat_ngram_size: 0,
            num_return_sequences: 1,
            num_beam_groups: None,
            diversity_penalty_milli: None,
        }
    }

    /// Builds the text-generation defaults.
    pub fn generation_defaults() -> (r: DecodingParams)
        ensures
            r == Self::spec_generation_defaults(),
    {
        DecodingParams {
            min_length: 0,
            max_length: Some(56),
            do_sample: true,
            early_stopping: true,
            num_beams: 5,
            temperature_milli: 1000,
            top_k: 0,
            top_p_milli: 900,
            repetition_penalty_milli: 1000,
            length_penalty_milli: 1000,
            no_repeat_ngram_size: 0,
            num_return_sequences: 1,
            num_beam_groups: None,
            diversity_penalty_milli: None,
        }
    }
}

/// Both sets of stock decoding defaults satisfy every rule the runtime
/// enforces, and the summarization defaults request deterministic decoding.
pub proof fn lemma_default_params_valid()
    ensures
        DecodingParams::spec_summarization_defaults().valid(),
        DecodingParams::spec_summarization_defaults().deterministic(),
        DecodingParams::spec_generation_defaults().valid(),
{
}

/// Whether decoding is reproducible is decided by the sampling flag alone:
/// two parameter sets that agree on `do_sample` are either both
/// deterministic or both not, whatever their beam width, temperature or any
/// other knob.
pub proof fn lemma_determinism_depends_on_sampling_alone(p: DecodingParams, q: DecodingParams)
    requires
        p.do_sample == q.do_sample,
    ensures
        p.deterministic() == q.deterministic(),
{
}

} // verus!
