use vstd::prelude::*;

verus! {

/// The architecture family of the model a pipeline loads. The locators in a
/// configuration must point at artifacts of this architecture.
#[derive(Clone, Copy, Debug, PartialEq, Eq, Structural)]
pub enum ModelType {
    /// Text-to-text transfer transformer, an encoder-decoder model.
    T5,
    /// BART, an encoder-decoder model used for summarization presets.
    Bart,
    /// GPT-2, a decoder-only model used for generation presets.
    Gpt2,
}

/// The device the model is placed on.
#[derive(Clone, Copy, Debug, PartialEq, Eq, Structural)]
pub enum Device {
    /// Run on the CPU.
    Cpu,
    /// Run on the CUDA device with the given ordinal.
    Cuda(usize),
}

} // verus!
