//! The ONNX recognisers (SenseVoice int8 / fp32, Paraformer): their options and
//! where each keeps its files.
//!
//! Each installed model lives in its own directory under the model cache, holding
//! the model file and `tokens.txt`; the application checks those files and runs the
//! recognisers.

use crate::text::{chars_of, str_eq, string_of};
use vstd::prelude::*;

verus! {

/// Options for an ONNX recogniser.
#[derive(Clone, Debug)]
pub struct OnnxOptions {
    /// `auto`, `zh`, `en`, `ja`, `ko` or `yue` (Paraformer is Chinese only and
    /// ignores it).
    pub language: String,
    /// Punctuation and numerals (inverse text normalisation); SenseVoice only.
    pub use_itn: bool,
    /// `cpu` or `cuda`.
    pub provider: String,
    pub num_threads: i32,
}

impl Default for OnnxOptions {
    fn default() -> (r: Self)
        ensures
            r.language@ == "auto"@,
            r.use_itn,
            r.provider@ == "cpu"@,
            r.num_threads == 4,
    {
        OnnxOptions {
            language: String::from_str("auto"),
            use_itn: true,
            provider: String::from_str("cpu"),
            num_threads: 4,
        }
    }
}

/// The SenseVoice variant a backend id names: its directory and model file.
pub open spec fn sensevoice_variant_spec(backend: Seq<char>) -> Option<(Seq<char>, Seq<char>)> {
    if backend == "sensevoice"@ {
        Some(("sensevoice"@, "model.int8.onnx"@))
    } else if backend == "sensevoice-fp32"@ {
        Some(("sensevoice-fp32"@, "model.onnx"@))
    } else {
        None
    }
}

/// The directory and model file of a SenseVoice backend id, if it is one.
pub fn sensevoice_variant(backend: &str) -> (r: Option<(&'static str, &'static str)>)
    ensures
        r is None <==> sensevoice_variant_spec(backend@) is None,
        r matches Some((d, f)) ==> sensevoice_variant_spec(backend@) == Some((d@, f@)),
{
    if str_eq(backend, "sensevoice") {
        Some(("sensevoice", "model.int8.onnx"))
    } else if str_eq(backend, "sensevoice-fp32") {
        Some(("sensevoice-fp32", "model.onnx"))
    } else {
        None
    }
}

/// The directory (under the model cache) and model file of any ONNX backend id.
pub open spec fn onnx_layout_spec(backend: Seq<char>) -> Option<(Seq<char>, Seq<char>)> {
    match sensevoice_variant_spec(backend) {
        Some(v) => Some(v),
        None => if backend == "paraformer"@ {
            Some(("paraformer"@, "model.int8.onnx"@))
        } else {
            None
        },
    }
}

/// Where an ONNX backend keeps its files: the directory under the model cache and
/// the model file's name (`tokens.txt` sits beside it). `None` for other ids.
pub fn onnx_layout(backend: &str) -> (r: Option<(&'static str, &'static str)>)
    ensures
        r is None <==> onnx_layout_spec(backend@) is None,
        r matches Some((d, f)) ==> onnx_layout_spec(backend@) == Some((d@, f@)),
{
    match sensevoice_variant(backend) {
        Some(v) => Some(v),
        None => if str_eq(backend, "paraformer") {
            Some(("paraformer", "model.int8.onnx"))
        } else {
            None
        },
    }
}

} // verus!
