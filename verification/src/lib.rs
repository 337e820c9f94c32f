//! Discovery, installation and orchestration of an on-disk speech-to-text
//! engine (whisper.cpp): candidate path resolution, binary probing, model
//! selection with multilingual fallback, resumable model acquisition with
//! progress reporting, and subprocess-based transcription.

use vstd::prelude::*;

pub mod install;
pub mod ollama;
pub mod paths;
pub mod probe;
pub mod download;
pub mod registry;
pub mod selector;
pub mod text;
pub mod transcribe;

verus! {

/// Application settings as handed to and from the settings store.
pub struct AppSettings {
    pub hotkey: String,
    pub language: String,
    pub enrichment_mode: String,
    pub output_target: String,
    pub retention_days: u32,
    pub llm_provider: String,
}

/// The default settings value: English, clipboard output, one-week retention.
pub open spec fn default_settings_spec(s: AppSettings) -> bool {
    &&& s.hotkey@ == "CommandOrControl+Shift+Space"@
    &&& s.language@ == "en"@
    &&& s.enrichment_mode@ == "clean-transcript"@
    &&& s.output_target@ == "clipboard"@
    &&& s.retention_days == 7
    &&& s.llm_provider@ == "openai"@
}

impl Default for AppSettings {
    fn default() -> (s: Self)
        ensures
            default_settings_spec(s),
    {
        AppSettings {
            hotkey: String::from_str("CommandOrControl+Shift+Space"),
            language: String::from_str("en"),
            enrichment_mode: String::from_str("clean-transcript"),
            output_target: String::from_str("clipboard"),
            retention_days: 7,
            llm_provider: String::from_str("openai"),
        }
    }
}

/// Settings are not yet persisted: the current settings are always the
/// defaults.
pub fn get_settings() -> (s: AppSettings)
    ensures
        default_settings_spec(s),
{
    AppSettings::default()
}

/// Settings are not yet persisted: saving always succeeds without effect.
pub fn save_settings(settings: AppSettings) -> (r: Result<(), String>)
    ensures
        r is Ok,
{
    let _ = settings;
    Ok(())
}

} // verus!
