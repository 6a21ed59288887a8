use vstd::prelude::*;

use crate::model::{Device, ModelType};
use crate::params::DecodingParams;
use crate::resource::{config_json_path, ResourceLocator};
use vstd::string::StringExecFns;

verus! {

/// Configuration of a text-generation pipeline: which model to load, where
/// its artifacts come from, the decoding parameters, and the device the
/// model is placed on. Built once, then handed to the inference runtime to
/// construct the pipeline.
#[derive(Clone, Debug)]
pub struct TextGenerationConfig {
    /// Architecture of the model the locators point at.
    pub model_type: ModelType,
    /// Locator of the model weights.
    pub model_resource: ResourceLocator,
    /// Locator of the model configuration file.
    pub config_resource: ResourceLocator,
    /// Locator of the tokenizer vocabulary.
    pub vocab_resource: ResourceLocator,
    /// Locator of the tokenizer merges file, for tokenizers that need one.
    pub merges_resource: Option<ResourceLocator>,
    /// Decoding hyperparameters used by `generate`.
    pub params: DecodingParams,
    /// Device the model is placed on.
    pub device: Device,
}

impl TextGenerationConfig {
    /// A configuration is well formed when its decoding parameters satisfy
    /// every rule the inference runtime enforces.
    pub open spec fn wf(self) -> bool {
        self.params.valid()
    }

    /// Assembles a text-generation configuration from the artifact
    /// locators, starting from the stock generation decoding defaults and
    /// CPU placement.
    pub fn new(
        model_type: ModelType,
        model_resource: ResourceLocator,
        config_resource: ResourceLocator,
        vocab_resource: ResourceLocator,
        merges_resource: Option<ResourceLocator>,
    ) -> (r: Self)
        ensures
            r.model_type == model_type,
            r.model_resource == model_resource,
            r.config_resource == config_resource,
            r.vocab_resource == vocab_resource,
            r.merges_resource == merges_resource,
            r.params == DecodingParams::spec_generation_defaults(),
            r.device == Device::Cpu,
            r.wf(),
    {
        TextGenerationConfig {
            model_type,
            model_resource,
            config_resource,
            vocab_resource,
            merges_resource,
            params: DecodingParams::generation_defaults(),
            device: Device::Cpu,
        }
    }
}

/// The decoding parameters the translation driver uses: greedy beam search
/// (sampling off) over five beams, a temperature of one tenth, at most one
/// hundred tokens, and a single returned sequence. The remaining knobs keep
/// the stock generation defaults.
pub open spec fn spec_translation_params() -> DecodingParams {
    DecodingParams {
        max_length: Some(100),
        do_sample: false,
        num_beams: 5,
        temperature_milli: 100,
        num_return_sequences: 1,
        ..DecodingParams::spec_generation_defaults()
    }
}

/// The generation driver's configuration: a T5 model whose artifacts all
/// live in a local model directory — `config.json`, `spiece.model` and
/// `model.ot` under `base_dir` — decoded with the translation parameters.
/// Sampling is off, so generation over the same weights and input is
/// reproducible across runs.
pub fn t5_translation_config(base_dir: &str) -> (r: TextGenerationConfig)
    ensures
        r.model_type == ModelType::T5,
        r.model_resource matches ResourceLocator::Local { path: p } && p@ == base_dir@
            + "/model.ot"@,
        r.config_resource matches ResourceLocator::Local { path: p } && p@ == base_dir@
            + "/config.json"@,
        r.vocab_resource matches ResourceLocator::Local { path: p } && p@ == base_dir@
            + "/spiece.model"@,
        r.merges_resource is None,
        r.params == spec_translation_params(),
        r.params.deterministic(),
        r.device == Device::Cpu,
        r.wf(),
{
    let mut weights_path = base_dir.to_owned();
    weights_path.append("/model.ot");
    let mut vocab_path = base_dir.to_owned();
    vocab_path.append("/spiece.model");
    let mut config = TextGenerationConfig::new(
        ModelType::T5,
        ResourceLocator::Local { path: weights_path },
        ResourceLocator::Local { path: config_json_path(base_dir) },
        ResourceLocator::Local { path: vocab_path },
        None,
    );
    config.params.max_length = Some(100);
    config.params.do_sample = false;
    config.params.num_beams = 5;
    config.params.temperature_milli = 100;
    config.params.num_return_sequences = 1;
    config
}

} // verus!
