//! Settings of the service and the migration that keeps them on the Chinese-first
//! model catalogue.

use crate::model_catalog::{backend_for_filename, by_filename, catalogue, catalogue_find, default_model};
use crate::text::{ascii_lower, str_eq};
use vstd::prelude::*;

verus! {

/// Global hotkey settings.
#[derive(Clone, Debug)]
pub struct HotkeyConfig {
    /// Key name, e.g. `F9`, `ScrollLock`, `AltGr`, `z`.
    pub key: String,
    /// Modifier names: `ctrl`, `alt`, `shift`, `super`.
    pub modifiers: Vec<String>,
    /// `hold` (push-to-talk) or `toggle` (tap to start, tap to stop).
    pub mode: String,
    /// Whether the daemon runs its own keyboard listener.
    pub internal_listener: bool,
}

/// Recording limits (the silence threshold, a float, is applied by the audio thread).
#[derive(Clone, Debug)]
pub struct AudioConfig {
    /// Consecutive silent chunks before a pause fires.
    pub silence_frames: u32,
    /// Longest recording, in seconds, before transcription is forced.
    pub max_record_seconds: u32,
}

/// Which model is used.
#[derive(Clone, Debug)]
pub struct ModelConfig {
    /// Explicit local model path; empty selects the managed cache.
    pub path: String,
    pub hf_repo: String,
    pub hf_filename: String,
}

/// Recognition settings.
#[derive(Clone, Debug)]
pub struct TranscriptionConfig {
    /// `auto`, `zh`, `yue`, ...
    pub language: String,
    pub translate: bool,
    pub n_threads: i32,
    /// `sensevoice`, `sensevoice-fp32` or `paraformer`.
    pub backend: String,
}

/// Where the overlay sits (its opacity, a float, is applied by the window code).
#[derive(Clone, Debug)]
pub struct OverlayConfig {
    /// `top-left`, `top-center`, `top-right`, `bottom-left`, `bottom-center`,
    /// `bottom-right` or `center`.
    pub position: String,
}

/// How recognized text reaches the focused window.
#[derive(Clone, Debug)]
pub struct InjectionConfig {
    /// `clipboard` (paste) or `type` (key events).
    pub method: String,
    pub clipboard_delay_ms: u64,
    /// `ctrl-v`, `ctrl-shift-v` or `both`.
    pub paste_shortcut: String,
}

/// All settings.
#[derive(Clone, Debug)]
pub struct Config {
    pub hotkey: HotkeyConfig,
    pub audio: AudioConfig,
    pub model: ModelConfig,
    pub transcription: TranscriptionConfig,
    pub overlay: OverlayConfig,
    pub injection: InjectionConfig,
}

fn owned(s: &str) -> (r: String)
    ensures
        r@ == s@,
{
    String::from_str(s)
}

impl Default for HotkeyConfig {
    fn default() -> (r: Self)
        ensures
            r.key@ == "F2"@,
            r.modifiers@.len() == 0,
            r.mode@ == "hold"@,
            r.internal_listener,
    {
        HotkeyConfig {
            key: owned("F2"),
            modifiers: Vec::new(),
            mode: owned("hold"),
            internal_listener: true,
        }
    }
}

impl Default for AudioConfig {
    fn default() -> (r: Self)
        ensures
            r.silence_frames == 24,
            r.max_record_seconds == 30,
    {
        AudioConfig { silence_frames: 24, max_record_seconds: 30 }
    }
}

/// The model repository of the catalogue.
pub open spec fn canonical_repo() -> Seq<char> {
    "k2-fsa/sherpa-onnx"@
}

impl Default for ModelConfig {
    fn default() -> (r: Self)
        ensures
            r.path@ == ""@,
            r.hf_repo@ == canonical_repo(),
            r.hf_filename@ == catalogue()[0].filename@,
    {
        ModelConfig {
            path: owned(""),
            hf_repo: owned("k2-fsa/sherpa-onnx"),
            hf_filename: owned(crate::model_catalog::DEFAULT_MODEL_FILENAME),
        }
    }
}

impl Default for TranscriptionConfig {
    fn default() -> (r: Self)
        ensures
            r.language@ == "zh"@,
            !r.translate,
            r.n_threads == 4,
            r.backend@ == catalogue()[0].backend@,
    {
        TranscriptionConfig {
            language: owned("zh"),
            translate: false,
            n_threads: 4,
            backend: owned(default_model().backend),
        }
    }
}

impl Default for OverlayConfig {
    fn default() -> (r: Self)
        ensures
            r.position@ == "top-right"@,
    {
        OverlayConfig { position: owned("top-right") }
    }
}

impl Default for InjectionConfig {
    fn default() -> (r: Self)
        ensures
            r.method@ == "clipboard"@,
            r.clipboard_delay_ms == 120,
            r.paste_shortcut@ == "ctrl-shift-v"@,
    {
        InjectionConfig {
            method: owned("clipboard"),
            clipboard_delay_ms: 120,
            paste_shortcut: owned("ctrl-shift-v"),
        }
    }
}

impl Default for Config {
    fn default() -> (r: Self)
        ensures
            r.hotkey.key@ == "F2"@,
            r.hotkey.modifiers@.len() == 0,
            r.hotkey.mode@ == "hold"@,
            r.hotkey.internal_listener,
            r.audio.silence_frames == 24,
            r.audio.max_record_seconds == 30,
            r.model.path@ == ""@,
            r.model.hf_repo@ == canonical_repo(),
            r.model.hf_filename@ == catalogue()[0].filename@,
            r.transcription.language@ == "zh"@,
            !r.transcription.translate,
            r.transcription.n_threads == 4,
            r.transcription.backend@ == catalogue()[0].backend@,
            r.overlay.position@ == "top-right"@,
            r.injection.method@ == "clipboard"@,
            r.injection.clipboard_delay_ms == 120,
            r.injection.paste_shortcut@ == "ctrl-shift-v"@,
    {
        Config {
            hotkey: HotkeyConfig::default(),
            audio: AudioConfig::default(),
            model: ModelConfig::default(),
            transcription: TranscriptionConfig::default(),
            overlay: OverlayConfig::default(),
            injection: InjectionConfig::default(),
        }
    }
}

// ---------------------------------------------------------------- migration

/// `str::eq_ignore_ascii_case`.
pub open spec fn ascii_ci_eq(a: Seq<char>, b: Seq<char>) -> bool {
    a.len() == b.len() && forall|i: int| 0 <= i < a.len() ==> ascii_lower(#[trigger] a[i]) == ascii_lower(b[i])
}

/// Languages the Chinese service offers.
pub open spec fn supported_language(l: Seq<char>) -> bool {
    l == "zh"@ || l == "auto"@ || l == "yue"@
}

/// The hotkey after an empty key is replaced by `z`.
pub open spec fn migrated_key(key: Seq<char>) -> Seq<char> {
    if key.len() == 0 { "z"@ } else { key }
}

/// The hotkey mode after migration: a `z` hotkey always uses `hold`.
pub open spec fn migrated_mode(key: Seq<char>, mode: Seq<char>) -> Seq<char> {
    if mode != "hold"@ && ascii_ci_eq(migrated_key(key), "z"@) { "hold"@ } else { mode }
}

/// Whether migrating `c` changes anything.
pub open spec fn needs_migration(c: Config) -> bool {
    ||| catalogue_find(c.model.hf_filename@) is None
    ||| (catalogue_find(c.model.hf_filename@) matches Some(m) && c.transcription.backend@ != m.backend@)
    ||| c.model.hf_repo@ != canonical_repo()
    ||| !supported_language(c.transcription.language@)
    ||| c.hotkey.key@.len() == 0
    ||| migrated_mode(c.hotkey.key@, c.hotkey.mode@) != c.hotkey.mode@
    ||| c.injection.paste_shortcut@ == "both"@
    ||| c.injection.clipboard_delay_ms < 120
}

/// `new` is `old` migrated onto the catalogue and the Chinese-service settings.
pub open spec fn migrated(old: Config, new: Config) -> bool {
    let found = catalogue_find(old.model.hf_filename@);
    &&& new.model.hf_filename@ == (match found {
        Some(m) => old.model.hf_filename@,
        None => catalogue()[0].filename@,
    })
    &&& new.transcription.backend@ == (match found {
        Some(m) => m.backend@,
        None => catalogue()[0].backend@,
    })
    &&& new.model.path@ == (if found is Some { old.model.path@ } else { ""@ })
    &&& new.model.hf_repo@ == canonical_repo()
    &&& new.transcription.language@ == (if supported_language(old.transcription.language@) {
        old.transcription.language@
    } else {
        "zh"@
    })
    &&& new.hotkey.key@ == migrated_key(old.hotkey.key@)
    &&& new.hotkey.mode@ == migrated_mode(old.hotkey.key@, old.hotkey.mode@)
    &&& new.injection.paste_shortcut@ == (if old.injection.paste_shortcut@ == "both"@ {
        "ctrl-shift-v"@
    } else {
        old.injection.paste_shortcut@
    })
    &&& new.injection.clipboard_delay_ms == (if old.injection.clipboard_delay_ms < 120 {
        120
    } else {
        old.injection.clipboard_delay_ms
    })
    &&& new.hotkey.modifiers@ == old.hotkey.modifiers@
    &&& new.hotkey.internal_listener == old.hotkey.internal_listener
    &&& new.audio == old.audio
    &&& new.transcription.translate == old.transcription.translate
    &&& new.transcription.n_threads == old.transcription.n_threads
    &&& new.overlay.position@ == old.overlay.position@
    &&& new.injection.method@ == old.injection.method@
}

fn eq_ignore_ascii_case(a: &str, b: &str) -> (r: bool)
    ensures
        r == ascii_ci_eq(a@, b@),
{
    let x = crate::text::chars_of(a);
    let y = crate::text::chars_of(b);
    if x.len() != y.len() {
        return false;
    }
    let mut i: usize = 0;
    while i < x.len()
        invariant
            x@ == a@,
            y@ == b@,
            x.len() == y.len(),
            i <= x.len(),
            forall|k: int| 0 <= k < i ==> ascii_lower(#[trigger] x@[k]) == ascii_lower(y@[k]),
        decreases x.len() - i,
    {
        if crate::text::to_ascii_lower(x[i]) != crate::text::to_ascii_lower(y[i]) {
            return false;
        }
        i = i + 1;
    }
    true
}

impl Config {
    /// Moves settings from before the Chinese-first catalogue onto it: an unknown
    /// model becomes the default model, the backend follows the model, the repository,
    /// language, hotkey and paste settings are brought into range. Returns whether
    /// anything changed.
    pub fn normalize_for_chinese_service(&mut self) -> (changed: bool)
        ensures
            migrated(*old(self), *final(self)),
            changed == needs_migration(*old(self)),
    {
        proof {
            reveal_strlit("");
            if self.hotkey.key@.len() == 0 {
                assert(self.hotkey.key@ =~= ""@);
            }
        }
        let mut changed = false;
        match backend_for_filename(&self.model.hf_filename) {
            Some(backend) => {
                if !str_eq(&self.transcription.backend, backend) {
                    self.transcription.backend = owned(backend);
                    changed = true;
                }
            },
            None => {
                let default = default_model();
                self.model.hf_filename = owned(default.filename);
                self.transcription.backend = owned(default.backend);
                self.model.path = owned("");
                changed = true;
            },
        }
        if !str_eq(&self.model.hf_repo, "k2-fsa/sherpa-onnx") {
            self.model.hf_repo = owned("k2-fsa/sherpa-onnx");
            changed = true;
        }
        let lang_ok = str_eq(&self.transcription.language, "zh") || str_eq(
            &self.transcription.language,
            "auto",
        ) || str_eq(&self.transcription.language, "yue");
        if !lang_ok {
            self.transcription.language = owned("zh");
            changed = true;
        }
        if str_eq(&self.hotkey.key, "") {
            self.hotkey.key = owned("z");
            changed = true;
        }
        if !str_eq(&self.hotkey.mode, "hold") && eq_ignore_ascii_case(&self.hotkey.key, "z") {
            self.hotkey.mode = owned("hold");
            changed = true;
        }
        if str_eq(&self.injection.paste_shortcut, "both") {
            self.injection.paste_shortcut = owned("ctrl-shift-v");
            changed = true;
        }
        if self.injection.clipboard_delay_ms < 120 {
            self.injection.clipboard_delay_ms = 120;
            changed = true;
        }
        changed
    }
}

/// `c` with the internal listener switched on when `on`.
pub open spec fn with_listener(c: Config, on: bool) -> Config {
    Config {
        hotkey: HotkeyConfig {
            key: c.hotkey.key,
            modifiers: c.hotkey.modifiers,
            mode: c.hotkey.mode,
            internal_listener: c.hotkey.internal_listener || on,
        },
        ..c
    }
}

impl Config {
    /// The configuration written on first start: the defaults, which the migration
    /// leaves as they are.
    pub fn first_run() -> (r: Self)
        ensures
            !needs_migration(r),
            r.hotkey.key@ == "F2"@,
            r.hotkey.modifiers@.len() == 0,
            r.hotkey.mode@ == "hold"@,
            r.hotkey.internal_listener,
            r.model.hf_filename@ == catalogue()[0].filename@,
            r.transcription.backend@ == catalogue()[0].backend@,
            r.transcription.language@ == "zh"@,
            r.injection.paste_shortcut@ == "ctrl-shift-v"@,
            r.injection.clipboard_delay_ms == 120,
    {
        let mut c = Config::default();
        let changed = c.normalize_for_chinese_service();
        proof {
            reveal_strlit("F2");
            law_migration_idempotent(c, c);
        }
        c
    }

    /// Completes a configuration read from disk: a file written before the
    /// internal-listener setting existed (`legacy_missing_listener`) keeps the
    /// listener on; then the settings are migrated. Returns whether the file must
    /// be written back.
    pub fn after_load(&mut self, legacy_missing_listener: bool) -> (rewrite: bool)
        ensures
            migrated(with_listener(*old(self), legacy_missing_listener), *final(self)),
            rewrite == (legacy_missing_listener || needs_migration(with_listener(*old(self), legacy_missing_listener))),
    {
        if legacy_missing_listener {
            self.hotkey.internal_listener = true;
        }
        proof {
            assert(self.hotkey == with_listener(*old(self), legacy_missing_listener).hotkey);
        }
        let changed = self.normalize_for_chinese_service();
        changed || legacy_missing_listener
    }
}

/// Migration is done once: a migrated configuration needs no further migration.
pub proof fn law_migration_idempotent(old: Config, new: Config)
    requires
        migrated(old, new),
    ensures
        !needs_migration(new),
{
    reveal_strlit("");
    reveal_strlit("z");
    reveal_strlit("hold");
    reveal_strlit("both");
    reveal_strlit("ctrl-shift-v");
    crate::model_catalog::law_catalogue_lookup(0);
    match catalogue_find(old.model.hf_filename@) {
        Some(m) => {},
        None => {},
    }
    assert("ctrl-shift-v"@ != "both"@) by {
        assert("ctrl-shift-v"@.len() != "both"@.len());
    }
}

/// After migration the selected model is in the catalogue and the backend is that
/// model's backend.
pub proof fn law_migration_selects_catalogue_model(old: Config, new: Config)
    requires
        migrated(old, new),
    ensures
        catalogue_find(new.model.hf_filename@) matches Some(m) && new.transcription.backend@ == m.backend@,
{
    crate::model_catalog::law_catalogue_lookup(0);
}

// ---------------------------------------------------------------- legacy files

/// A TOML value (`toml::Value`), carried opaquely.
#[verifier::external_type_specification]
#[verifier::external_body]
pub struct ExTomlValue(toml::Value);

/// The key paths a TOML value answers: `[k1, .., kn]` belongs to it when `get(k1)`,
/// then `get(k2)` on the result, and so on, all find a value.
pub uninterp spec fn toml_key_paths(v: toml::Value) -> Set<Seq<Seq<char>>>;

/// The key paths of the document that `toml::from_str` reads from `text`, or `None`
/// when the text is not a TOML document.
pub uninterp spec fn toml_document_paths(text: Seq<char>) -> Option<Set<Seq<Seq<char>>>>;

/// `toml::from_str::<toml::Value>`: parses a TOML document. It succeeds exactly when
/// `toml_document_paths(text)` is `Some`, and then the value answers those key paths.
#[verifier::external_body]
fn parse_toml_value(text: &str) -> (r: Option<toml::Value>)
    ensures
        r is Some <==> toml_document_paths(text@) is Some,
        r matches Some(v) ==> toml_key_paths(v) == toml_document_paths(text@)->0,
{
    toml::from_str::<toml::Value>(text).ok()
}

/// `toml::Value::get` with a string key: the entry under `key` when the value is a
/// table that holds it, else `None`. The entry answers exactly the paths that follow
/// `key` in the value; when there is none, no path of the value starts with `key`.
#[verifier::external_body]
fn toml_get<'a>(v: &'a toml::Value, key: &str) -> (r: Option<&'a toml::Value>)
    ensures
        r is Some <==> toml_key_paths(*v).contains(seq![key@]),
        r matches Some(c) ==> forall|p: Seq<Seq<char>>|
            p.len() > 0 ==> (toml_key_paths(*c).contains(p) <==> toml_key_paths(*v).contains(
                seq![key@] + p,
            )),
        r is None ==> forall|p: Seq<Seq<char>>| !toml_key_paths(*v).contains(seq![key@] + p),
{
    v.get(key)
}

/// The key path of the `internal_listener` setting.
pub open spec fn listener_key_path() -> Seq<Seq<char>> {
    seq!["hotkey"@, "internal_listener"@]
}

/// Whether `text` is a TOML document written before the `internal_listener` setting
/// existed: it parses and has no `hotkey.internal_listener` key.
pub fn hotkey_internal_listener_missing(text: &str) -> (r: bool)
    ensures
        r == (toml_document_paths(text@) matches Some(p) && !p.contains(listener_key_path())),
{
    let value = match parse_toml_value(text) {
        Some(v) => v,
        None => return false,
    };
    assert(seq!["hotkey"@] + seq!["internal_listener"@] =~= listener_key_path());
    match toml_get(&value, "hotkey") {
        None => true,
        Some(h) => {
            let r = toml_get(h, "internal_listener");
            assert(seq!["internal_listener"@].len() > 0);
            r.is_none()
        },
    }
}

/// Migration keeps every language the service offers (`zh`, `auto`, `yue`) and
/// turns any other into `zh`.
pub proof fn law_offered_language_kept(old: Config, new: Config)
    requires
        migrated(old, new),
    ensures
        (old.transcription.language@ == "zh"@ || old.transcription.language@ == "auto"@
            || old.transcription.language@ == "yue"@) ==> new.transcription.language@
            == old.transcription.language@,
        !(old.transcription.language@ == "zh"@ || old.transcription.language@ == "auto"@
            || old.transcription.language@ == "yue"@) ==> new.transcription.language@ == "zh"@,
{
}

} // verus!
