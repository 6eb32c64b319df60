//! xsay: the logic of an offline, Chinese-first voice input tool — hotkey
//! handling, the dictation session state machine, the recorder's bookkeeping,
//! transcript filtering, the model catalogue, configuration, model downloads,
//! history and text injection plans.

pub mod audio;
pub mod autostart;
pub mod config;
pub mod decimal;
pub mod download;
pub mod fonts;
pub mod history;
pub mod hotkey;
pub mod inject;
pub mod ipc;
pub mod model;
pub mod model_catalog;
pub mod sensevoice;
pub mod settings;
pub mod speech_windows;
pub mod speech_quality;
pub mod state;
pub mod text;
pub mod theme;
pub mod transcribe;
pub mod tray;
