use vstd::prelude::*;
use vstd::string::StringExecFns;

verus! {

/// Where a model artifact — configuration, vocabulary, or weights — is
/// obtained from. A locator is immutable once built; the inference runtime
/// resolves it to a local file when the pipeline is constructed.
#[derive(Clone, Debug, PartialEq, Eq)]
pub enum ResourceLocator {
    /// Fetched by the runtime from a remote store identified by `url` and
    /// cached under `cache_subdir`.
    Remote { cache_subdir: String, url: String },
    /// Read directly from a local file path.
    Local { path: String },
}

impl ResourceLocator {
    /// Builds a remote locator from a pretrained-artifact preset: a cache
    /// subdirectory and the URL the artifact is downloaded from.
    pub fn from_pretrained(cache_subdir: &str, url: &str) -> (r: ResourceLocator)
        ensures
            r matches ResourceLocator::Remote { cache_subdir: c, url: u } && c@ == cache_subdir@
                && u@ == url@,
    {
        ResourceLocator::Remote { cache_subdir: cache_subdir.to_owned(), url: url.to_owned() }
    }

    /// Builds a locator for a local file.
    pub fn local(path: &str) -> (r: ResourceLocator)
        ensures
            r matches ResourceLocator::Local { path: p } && p@ == path@,
    {
        ResourceLocator::Local { path: path.to_owned() }
    }

    /// True when the runtime resolves this locator over the network.
    pub fn is_remote(&self) -> (r: bool)
        ensures
            r == (self is Remote),
    {
        match self {
            ResourceLocator::Remote { .. } => true,
            ResourceLocator::Local { .. } => false,
        }
    }
}

/// The pretrained T5-small model configuration artifact.
pub fn t5_small_config() -> (r: ResourceLocator)
    ensures
        r matches ResourceLocator::Remote { cache_subdir: c, url: u } && c@ == "t5-small/config"@
            && u@ == "https://huggingface.co/t5-small/resolve/main/config.json"@,
{
    ResourceLocator::from_pretrained(
        "t5-small/config",
        "https://huggingface.co/t5-small/resolve/main/config.json",
    )
}

/// The pretrained T5-small SentencePiece vocabulary artifact.
pub fn t5_small_vocab() -> (r: ResourceLocator)
    ensures
        r matches ResourceLocator::Remote { cache_subdir: c, url: u } && c@ == "t5-small/spiece"@
            && u@ == "https://huggingface.co/t5-small/resolve/main/spiece.model"@,
{
    ResourceLocator::from_pretrained(
        "t5-small/spiece",
        "https://huggingface.co/t5-small/resolve/main/spiece.model",
    )
}

/// The pretrained T5-small model weights artifact.
pub fn t5_small_weights() -> (r: ResourceLocator)
    ensures
        r matches ResourceLocator::Remote { cache_subdir: c, url: u } && c@ == "t5-small/model"@
            && u@ == "https://huggingface.co/t5-small/resolve/main/rust_model.ot"@,
{
    ResourceLocator::from_pretrained(
        "t5-small/model",
        "https://huggingface.co/t5-small/resolve/main/rust_model.ot",
    )
}

/// The path of the model configuration file inside a model directory:
/// `<base_dir>/config.json`.
pub fn config_json_path(base_dir: &str) -> (r: String)
    ensures
        r@ == base_dir@ + "/config.json"@,
{
    let mut s = base_dir.to_owned();
    s.append("/config.json");
    s
}

} // verus!
