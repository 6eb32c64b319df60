//! Chinese-first ASR model catalogue: the three sherpa-onnx models offered by the
//! service, each with the directory it installs into and the backend it runs on.

use crate::text::str_eq;
use vstd::prelude::*;

verus! {

/// File name (cache directory) of the default model.
pub const DEFAULT_MODEL_FILENAME: &'static str = "sensevoice";

/// One model of the catalogue.
#[derive(Clone, Copy, Debug)]
pub struct ModelInfo {
    pub name: &'static str,
    /// Leaf directory under the model cache.
    pub filename: &'static str,
    pub size_mb: u32,
    pub desc: &'static str,
    /// Backend id stored in `TranscriptionConfig::backend`.
    pub backend: &'static str,
    /// Release archive (tar.bz2) the model is installed from.
    pub archive_url: &'static str,
    /// ONNX file copied from the archive into the model directory.
    pub onnx_model_file: &'static str,
}

/// The catalogue, in display order; the first entry is the default model.
pub open spec fn catalogue() -> Seq<ModelInfo> {
    seq![
        ModelInfo {
            name: "SenseVoice Small",
            filename: "sensevoice",
            size_mb: 234,
            desc: "Sherpa ONNX int8。中文/粤语/英/日/韩，速度最快，推荐日常输入",
            backend: "sensevoice",
            archive_url: "https://github.com/k2-fsa/sherpa-onnx/releases/download/asr-models/sherpa-onnx-sense-voice-zh-en-ja-ko-yue-int8-2024-07-17.tar.bz2",
            onnx_model_file: "model.int8.onnx",
        },
        ModelInfo {
            name: "SenseVoice Small FP32",
            filename: "sensevoice-fp32",
            size_mb: 894,
            desc: "Sherpa ONNX float32。精度更稳但更占内存，CPU 速度明显慢于 int8",
            backend: "sensevoice-fp32",
            archive_url: "https://github.com/k2-fsa/sherpa-onnx/releases/download/asr-models/sherpa-onnx-sense-voice-zh-en-ja-ko-yue-2024-07-17.tar.bz2",
            onnx_model_file: "model.onnx",
        },
        ModelInfo {
            name: "Paraformer-zh",
            filename: "paraformer",
            size_mb: 950,
            desc: "达摩院中文专用，非自回归 CTC 解码，低延迟。仅中文，内置 ITN（标点 + 数字）",
            backend: "paraformer",
            archive_url: "https://github.com/k2-fsa/sherpa-onnx/releases/download/asr-models/sherpa-onnx-paraformer-zh-2024-03-09.tar.bz2",
            onnx_model_file: "model.int8.onnx",
        },
    ]
}

/// The first model of `models` whose file name is `filename`.
pub open spec fn find_in(models: Seq<ModelInfo>, filename: Seq<char>) -> Option<ModelInfo>
    decreases models.len(),
{
    if models.len() == 0 {
        None
    } else if models[0].filename@ == filename {
        Some(models[0])
    } else {
        find_in(models.drop_first(), filename)
    }
}

/// The catalogue entry with file name `filename`, if any.
pub open spec fn catalogue_find(filename: Seq<char>) -> Option<ModelInfo> {
    find_in(catalogue(), filename)
}

/// The catalogue, in display order.
pub fn models() -> (r: Vec<ModelInfo>)
    ensures
        r@ == catalogue(),
{
    let r = vec![
        ModelInfo {
            name: "SenseVoice Small",
            filename: "sensevoice",
            size_mb: 234,
            desc: "Sherpa ONNX int8。中文/粤语/英/日/韩，速度最快，推荐日常输入",
            backend: "sensevoice",
            archive_url: "https://github.com/k2-fsa/sherpa-onnx/releases/download/asr-models/sherpa-onnx-sense-voice-zh-en-ja-ko-yue-int8-2024-07-17.tar.bz2",
            onnx_model_file: "model.int8.onnx",
        },
        ModelInfo {
            name: "SenseVoice Small FP32",
            filename: "sensevoice-fp32",
            size_mb: 894,
            desc: "Sherpa ONNX float32。精度更稳但更占内存，CPU 速度明显慢于 int8",
            backend: "sensevoice-fp32",
            archive_url: "https://github.com/k2-fsa/sherpa-onnx/releases/download/asr-models/sherpa-onnx-sense-voice-zh-en-ja-ko-yue-2024-07-17.tar.bz2",
            onnx_model_file: "model.onnx",
        },
        ModelInfo {
            name: "Paraformer-zh",
            filename: "paraformer",
            size_mb: 950,
            desc: "达摩院中文专用，非自回归 CTC 解码，低延迟。仅中文，内置 ITN（标点 + 数字）",
            backend: "paraformer",
            archive_url: "https://github.com/k2-fsa/sherpa-onnx/releases/download/asr-models/sherpa-onnx-paraformer-zh-2024-03-09.tar.bz2",
            onnx_model_file: "model.int8.onnx",
        },
    ];
    assert(r@ =~= catalogue());
    r
}

/// The catalogue entry whose file name is `filename`.
pub fn by_filename(filename: &str) -> (r: Option<ModelInfo>)
    ensures
        r == catalogue_find(filename@),
{
    let all = models();
    let mut k: usize = 0;
    assert(all@.subrange(0, all@.len() as int) =~= all@);
    while k < all.len()
        invariant
            k <= all.len(),
            all@ == catalogue(),
            find_in(all@.subrange(k as int, all@.len() as int), filename@) == catalogue_find(filename@),
        decreases all.len() - k,
    {
        let ghost rest = all@.subrange(k as int, all@.len() as int);
        assert(rest[0] == all@[k as int]);
        assert(rest.drop_first() =~= all@.subrange(k + 1, all@.len() as int));
        if str_eq(all[k].filename, filename) {
            return Some(all[k]);
        }
        k = k + 1;
    }
    None
}

/// The backend of the catalogue entry whose file name is `filename`.
pub fn backend_for_filename(filename: &str) -> (r: Option<&'static str>)
    ensures
        r == (match catalogue_find(filename@) {
            Some(m) => Some(m.backend),
            None => None,
        }),
{
    match by_filename(filename) {
        Some(m) => Some(m.backend),
        None => None,
    }
}

/// The default model: the first entry of the catalogue.
pub fn default_model() -> (r: ModelInfo)
    ensures
        r == catalogue()[0],
{
    let r = by_filename(DEFAULT_MODEL_FILENAME);
    assert(catalogue()[0].filename == DEFAULT_MODEL_FILENAME);
    r.unwrap()
}

/// Every entry of the catalogue is found again by its file name.
pub proof fn law_catalogue_lookup(k: int)
    requires
        0 <= k < catalogue().len(),
    ensures
        catalogue_find(catalogue()[k].filename@) == Some(catalogue()[k]),
{
    reveal_strlit("sensevoice");
    reveal_strlit("sensevoice-fp32");
    reveal_strlit("paraformer");
    reveal_with_fuel(find_in, 4);
    let c = catalogue();
    assert(c.drop_first() =~= seq![c[1], c[2]]);
    assert(c.drop_first().drop_first() =~= seq![c[2]]);
    if k == 1 {
        assert("sensevoice"@ != "sensevoice-fp32"@) by {
            assert("sensevoice"@.len() != "sensevoice-fp32"@.len());
        }
    }
    if k == 2 {
        assert("sensevoice"@ != "paraformer"@) by {
            assert("sensevoice"@[0] != "paraformer"@[0]);
        }
        assert("sensevoice-fp32"@ != "paraformer"@) by {
            assert("sensevoice-fp32"@[0] != "paraformer"@[0]);
        }
    }
}

} // verus!
