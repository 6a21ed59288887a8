use t5_pipeline::error::PipelineError;
use t5_pipeline::params::DecodingParams;

#[test]
fn summarization_defaults_values() {
    let p = DecodingParams::summarization_defaults();
    assert_eq!(p.min_length, 56);
    assert_eq!(p.max_length, Some(142));
    assert!(!p.do_sample);
    assert!(p.early_stopping);
    assert_eq!(p.num_beams, 3);
    assert_eq!(p.temperature_milli, 1000);
    assert_eq!(p.top_k, 50);
    assert_eq!(p.top_p_milli, 1000);
    assert_eq!(p.repetition_penalty_milli, 1000);
    assert_eq!(p.length_penalty_milli, 1000);
    assert_eq!(p.no_repeat_ngram_size, 3);
    assert_eq!(p.num_return_sequences, 1);
    assert_eq!(p.num_beam_groups, None);
    assert_eq!(p.diversity_penalty_milli, None);
}

#[test]
fn generation_defaults_values() {
    let p = DecodingParams::generation_defaults();
    assert_eq!(p.min_length, 0);
    assert_eq!(p.max_length, Some(56));
    assert!(p.do_sample);
    assert!(p.early_stopping);
    assert_eq!(p.num_beams, 5);
    assert_eq!(p.temperature_milli, 1000);
    assert_eq!(p.top_k, 0);
    assert_eq!(p.top_p_milli, 900);
    assert_eq!(p.repetition_penalty_milli, 1000);
    assert_eq!(p.length_penalty_milli, 1000);
    assert_eq!(p.no_repeat_ngram_size, 0);
    assert_eq!(p.num_return_sequences, 1);
    assert_eq!(p.num_beam_groups, None);
    assert_eq!(p.diversity_penalty_milli, None);
}

#[test]
fn defaults_are_valid() {
    assert_eq!(DecodingParams::summarization_defaults().validate(), Ok(()));
    assert_eq!(DecodingParams::generation_defaults().validate(), Ok(()));
}

#[test]
fn summarization_defaults_are_deterministic() {
    assert!(DecodingParams::summarization_defaults().is_deterministic());
}

#[test]
fn generation_defaults_are_sampled() {
    assert!(!DecodingParams::generation_defaults().is_deterministic());
}

#[test]
fn determinism_follows_sampling_flag() {
    let mut p = DecodingParams::generation_defaults();
    p.do_sample = false;
    assert!(p.is_deterministic());
    p.do_sample = true;
    assert!(!p.is_deterministic());
}

#[test]
fn zero_temperature_rejected() {
    let mut p = DecodingParams::generation_defaults();
    p.temperature_milli = 0;
    assert_eq!(p.validate(), Err(PipelineError::InvalidDecodingParams));
}

#[test]
fn top_p_above_one_rejected() {
    let mut p = DecodingParams::generation_defaults();
    p.top_p_milli = 1001;
    assert_eq!(p.validate(), Err(PipelineError::InvalidDecodingParams));
}

#[test]
fn repetition_penalty_below_one_rejected() {
    let mut p = DecodingParams::generation_defaults();
    p.repetition_penalty_milli = 999;
    assert_eq!(p.validate(), Err(PipelineError::InvalidDecodingParams));
}

#[test]
fn zero_length_penalty_rejected() {
    let mut p = DecodingParams::generation_defaults();
    p.length_penalty_milli = 0;
    assert_eq!(p.validate(), Err(PipelineError::InvalidDecodingParams));
}

#[test]
fn zero_return_sequences_rejected() {
    let mut p = DecodingParams::generation_defaults();
    p.num_return_sequences = 0;
    assert_eq!(p.validate(), Err(PipelineError::InvalidDecodingParams));
}

#[test]
fn zero_beams_rejected() {
    let mut p = DecodingParams::generation_defaults();
    p.num_beams = 0;
    assert_eq!(p.validate(), Err(PipelineError::InvalidDecodingParams));
}

#[test]
fn greedy_single_beam_needs_single_return() {
    let mut p = DecodingParams::generation_defaults();
    p.do_sample = false;
    p.num_beams = 1;
    p.num_return_sequences = 2;
    assert_eq!(p.validate(), Err(PipelineError::InvalidDecodingParams));
    p.num_return_sequences = 1;
    assert_eq!(p.validate(), Ok(()));
}

#[test]
fn greedy_returns_bounded_by_beams() {
    let mut p = DecodingParams::generation_defaults();
    p.do_sample = false;
    p.num_beams = 3;
    p.num_return_sequences = 5;
    assert_eq!(p.validate(), Err(PipelineError::InvalidDecodingParams));
    p.num_return_sequences = 3;
    assert_eq!(p.validate(), Ok(()));
}

#[test]
fn sampling_allows_more_returns_than_beams() {
    let mut p = DecodingParams::generation_defaults();
    p.do_sample = true;
    p.num_beams = 2;
    p.num_return_sequences = 4;
    assert_eq!(p.validate(), Ok(()));
}

#[test]
fn beam_groups_must_divide_beams() {
    let mut p = DecodingParams::generation_defaults();
    p.num_beams = 6;
    p.num_beam_groups = Some(4);
    assert_eq!(p.validate(), Err(PipelineError::InvalidDecodingParams));
    p.num_beam_groups = Some(2);
    assert_eq!(p.validate(), Ok(()));
}

#[test]
fn single_beam_group_always_allowed() {
    let mut p = DecodingParams::generation_defaults();
    p.num_beams = 5;
    p.num_beam_groups = Some(1);
    assert_eq!(p.validate(), Ok(()));
}
