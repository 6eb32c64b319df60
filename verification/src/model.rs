//! Finding the configured model on disk, and what to do when it is not there.
//!
//! A model is either an explicit path from the settings, or lives in the model
//! cache under its file name: a directory holding the ONNX file and `tokens.txt`
//! for catalogue models, a single file otherwise. The application checks the
//! files; these functions say which to check and what the answers mean.

use crate::config::ModelConfig;
use crate::model_catalog::{by_filename, catalogue_find};
use crate::text::{chars_of, string_of};
use vstd::prelude::*;

verus! {

/// The files to look for.
pub struct LocalModelPlan {
    /// The explicit path from the settings, when one is set.
    pub explicit: Option<String>,
    /// The name of the model under the model cache.
    pub cached: String,
    /// For a catalogue model, the ONNX file and the tokens file its directory must
    /// hold; `None` for a single-file model.
    pub onnx_files: Option<(&'static str, &'static str)>,
}

/// What to check for the model `config` names.
pub fn find_local_plan(config: &ModelConfig) -> (r: LocalModelPlan)
    ensures
        config.path@.len() == 0 ==> r.explicit is None,
        config.path@.len() > 0 ==> (r.explicit matches Some(p) && p@ == config.path@),
        r.cached@ == config.hf_filename@,
        catalogue_find(config.hf_filename@) is None ==> r.onnx_files is None,
        catalogue_find(config.hf_filename@) matches Some(m) ==> (r.onnx_files matches Some((f, t))
            && f@ == m.onnx_model_file@ && t@ == "tokens.txt"@),
{
    let explicit = if chars_of(config.path.as_str()).len() > 0 {
        Some(string_of(&chars_of(config.path.as_str())))
    } else {
        None
    };
    let onnx_files = match by_filename(config.hf_filename.as_str()) {
        Some(m) => Some((m.onnx_model_file, "tokens.txt")),
        None => None,
    };
    LocalModelPlan { explicit, cached: string_of(&chars_of(config.hf_filename.as_str())), onnx_files }
}

/// Where the model was found.
#[derive(Clone, Copy, Debug, PartialEq, Eq, Structural)]
pub enum LocalModel {
    /// At the explicit path.
    Explicit,
    /// In the model cache.
    Cached,
    /// Nowhere.
    Missing,
}

/// The answer of the checks: the explicit path wins when it exists; otherwise the
/// cached model counts when the cache directory is known and the model is complete
/// there (`cached_ok`: both files of a catalogue model, or the single file).
pub fn find_local(explicit_exists: Option<bool>, cache_known: bool, cached_ok: bool) -> (r: LocalModel)
    ensures
        explicit_exists == Some(true) ==> r == LocalModel::Explicit,
        explicit_exists != Some(true) ==> r == (if cache_known && cached_ok {
            LocalModel::Cached
        } else {
            LocalModel::Missing
        }),
{
    if explicit_exists == Some(true) {
        LocalModel::Explicit
    } else if cache_known && cached_ok {
        LocalModel::Cached
    } else {
        LocalModel::Missing
    }
}

/// What `--download-model` does.
#[derive(Clone, Debug)]
pub enum EnsureStep {
    /// Use the explicit path.
    UseExplicit,
    /// The explicit path does not exist: fail with "model file not found".
    ExplicitMissing(String),
    /// No cache directory: fail.
    NoCacheDir,
    /// The cached model is complete: use it.
    UseCached,
    /// Download and unpack the catalogue model's archive.
    DownloadArchive,
    /// Download the single file from Hugging Face.
    DownloadFile,
}

/// Decides how to make the configured model available.
pub fn ensure_model_step(
    config: &ModelConfig,
    explicit_exists: bool,
    cache_known: bool,
    cached_ok: bool,
) -> (r: EnsureStep)
    ensures
        config.path@.len() > 0 && explicit_exists ==> r is UseExplicit,
        config.path@.len() > 0 && !explicit_exists ==> (r matches EnsureStep::ExplicitMissing(p) && p@ == config.path@),
        config.path@.len() == 0 && !cache_known ==> r is NoCacheDir,
        config.path@.len() == 0 && cache_known && cached_ok ==> r is UseCached,
        config.path@.len() == 0 && cache_known && !cached_ok ==> (if catalogue_find(config.hf_filename@) is Some {
            r is DownloadArchive
        } else {
            r is DownloadFile
        }),
{
    if chars_of(config.path.as_str()).len() > 0 {
        if explicit_exists {
            return EnsureStep::UseExplicit;
        }
        return EnsureStep::ExplicitMissing(string_of(&chars_of(config.path.as_str())));
    }
    if !cache_known {
        return EnsureStep::NoCacheDir;
    }
    if cached_ok {
        return EnsureStep::UseCached;
    }
    match by_filename(config.hf_filename.as_str()) {
        Some(_) => EnsureStep::DownloadArchive,
        None => EnsureStep::DownloadFile,
    }
}

} // verus!
