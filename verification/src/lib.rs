//! Configuration assembly and boundary checks for text-to-text inference
//! pipelines (abstractive summarization and text generation with T5-style
//! models).
//!
//! The heavy lifting — model loading, tokenization, beam search — is done by
//! an external inference runtime. This crate owns everything that can be
//! stated and proved about the surrounding driver logic: how a pipeline
//! configuration is put together, which decoding parameters the runtime
//! accepts, when decoding is deterministic, and the checks that guard the
//! boundary between the driver and the runtime (a configuration file that
//! must exist and parse, one output per input document).

pub mod error;
pub mod generation;
pub mod model;
pub mod params;
pub mod pipeline;
pub mod resource;
pub mod summarization;
