//! The selectable transcription engine presets.

use vstd::prelude::*;

verus! {

/// Selectable transcription engine preset. `Qwen3` is the default; the
/// `WhisperX` stack stays selectable as the previous engine set.
#[derive(Debug, Clone, Copy, PartialEq, Eq, Structural)]
pub enum EnginePreset {
    Qwen3,
    WhisperX,
}

/// The name a preset travels under, to the worker and in settings.
pub open spec fn preset_name(preset: EnginePreset) -> Seq<char> {
    match preset {
        EnginePreset::Qwen3 => "qwen3"@,
        EnginePreset::WhisperX => "whisperx"@,
    }
}

impl EnginePreset {
    pub fn as_str(self) -> (name: &'static str)
        ensures
            name@ == preset_name(self),
    {
        match self {
            EnginePreset::Qwen3 => "qwen3",
            EnginePreset::WhisperX => "whisperx",
        }
    }
}

impl Default for EnginePreset {
    /// Fresh installs start on the Qwen3 preset.
    fn default() -> (preset: Self)
        ensures
            preset == EnginePreset::Qwen3,
    {
        EnginePreset::Qwen3
    }
}

} // verus!
