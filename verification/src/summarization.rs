use vstd::prelude::*;

use crate::model::{Device, ModelType};
use crate::params::DecodingParams;
use crate::resource::{t5_small_config, t5_small_vocab, t5_small_weights, ResourceLocator};

verus! {

/// Configuration of a summarization pipeline: which model to load, where
/// its artifacts come from, the decoding parameters, and the device the
/// model is placed on. Built once, then handed to the inference runtime to
/// construct the pipeline.
#[derive(Clone, Debug)]
pub struct SummarizationConfig {
    /// Architecture of the model the locators point at.
    pub model_type: ModelType,
    /// Locator of the model weights.
    pub model_resource: ResourceLocator,
    /// Locator of the model configuration file.
    pub config_resource: ResourceLocator,
    /// Locator of the tokenizer vocabulary.
    pub vocab_resource: ResourceLocator,
    /// Locator of the tokenizer merges file, for tokenizers that need one.
    pub merges_resource: Option<ResourceLocator>,
    /// Decoding hyperparameters used by `summarize`.
    pub params: DecodingParams,
    /// Device the model is placed on.
    pub device: Device,
}

impl SummarizationConfig {
    /// A configuration is well formed when its decoding parameters satisfy
    /// every rule the inference runtime enforces.
    pub open spec fn wf(self) -> bool {
        self.params.valid()
    }

    /// Assembles a summarization configuration from the artifact locators,
    /// starting from the stock summarization decoding defaults and CPU
    /// placement.
    pub fn new(
        model_type: ModelType,
        model_resource: ResourceLocator,
        config_resource: ResourceLocator,
        vocab_resource: ResourceLocator,
        merges_resource: Option<ResourceLocator>,
    ) -> (r: Self)
        ensures
            r.model_type == model_type,
            r.model_resource == model_resource,
            r.config_resource == config_resource,
            r.vocab_resource == vocab_resource,
            r.merges_resource == merges_resource,
            r.params == DecodingParams::spec_summarization_defaults(),
            r.device == Device::Cpu,
            r.wf(),
    {
        SummarizationConfig {
            model_type,
            model_resource,
            config_resource,
            vocab_resource,
            merges_resource,
            params: DecodingParams::summarization_defaults(),
            device: Device::Cpu,
        }
    }
}

/// The summarization driver's configuration: the pretrained T5-small model,
/// with every artifact fetched remotely, the stock summarization decoding
/// defaults, and no merges file (T5 uses a SentencePiece vocabulary).
/// Those defaults request deterministic decoding, so repeated runs over the
/// same weights and input summarize identically.
pub fn t5_small_summarization_config() -> (r: SummarizationConfig)
    ensures
        r.model_type == ModelType::T5,
        r.model_resource matches ResourceLocator::Remote { cache_subdir: c, url: u }
            && c@ == "t5-small/model"@
            && u@ == "https://huggingface.co/t5-small/resolve/main/rust_model.ot"@,
        r.config_resource matches ResourceLocator::Remote { cache_subdir: c, url: u }
            && c@ == "t5-small/config"@
            && u@ == "https://huggingface.co/t5-small/resolve/main/config.json"@,
        r.vocab_resource matches ResourceLocator::Remote { cache_subdir: c, url: u }
            && c@ == "t5-small/spiece"@
            && u@ == "https://huggingface.co/t5-small/resolve/main/spiece.model"@,
        r.merges_resource is None,
        r.params == DecodingParams::spec_summarization_defaults(),
        r.params.deterministic(),
        r.device == Device::Cpu,
        r.wf(),
{
    SummarizationConfig::new(
        ModelType::T5,
        t5_small_weights(),
        t5_small_config(),
        t5_small_vocab(),
        None,
    )
}

} // verus!
