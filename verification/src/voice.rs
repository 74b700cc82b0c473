//! Voice input settings and the messages of the managed voice service.
use vstd::prelude::*;
use crate::text::owned;

verus! {

/// Where speech is sent when no provider is configured.
pub const DEFAULT_VOICE_DIRECT_API_BASE_URL: &'static str = "https://api.mistral.ai";

/// The transcription model used by default.
pub const DEFAULT_VOICE_DIRECT_MODEL: &'static str = "voxtral-mini-transcribe-realtime-2602";

/// The feature code of managed voice input.
pub const MANAGED_VOICE_FEATURE_CODE: &'static str = "managed_voice_input";

/// The path of the managed voice web socket.
pub const MANAGED_VOICE_WEBSOCKET_PATH: &'static str = "/ws/voice";

/// How voice input is obtained.
#[derive(Clone, Copy, Debug, PartialEq, Eq, Structural)]
pub enum VoiceMode {
    Disabled,
    Auto,
    DirectOnly,
}

impl Default for VoiceMode {
    fn default() -> (r: VoiceMode)
        ensures
            r == VoiceMode::Disabled,
    {
        VoiceMode::Disabled
    }
}

/// How audio samples are encoded (`pcm_s16le` on the wire).
#[derive(Clone, Copy, Debug, PartialEq, Eq, Structural)]
pub enum AudioEncoding {
    PcmS16Le,
}

impl Default for AudioEncoding {
    fn default() -> (r: AudioEncoding)
        ensures
            r == AudioEncoding::PcmS16Le,
    {
        AudioEncoding::PcmS16Le
    }
}

/// The shape of an audio stream.
#[derive(Clone, Copy, Debug, PartialEq, Eq, Structural)]
pub struct AudioFormat {
    pub encoding: AudioEncoding,
    pub sample_rate: u32,
}

impl Default for AudioFormat {
    /// 16-bit little-endian PCM at 16 kHz.
    fn default() -> (r: AudioFormat)
        ensures
            r.encoding == AudioEncoding::PcmS16Le,
            r.sample_rate == 16_000,
    {
        AudioFormat { encoding: AudioEncoding::PcmS16Le, sample_rate: 16_000 }
    }
}

/// The user's voice settings.
#[derive(Debug)]
pub struct VoiceSettings {
    pub mode: VoiceMode,
    pub direct_api_base_url: String,
    pub direct_model_name: String,
    pub target_streaming_delay_ms: Option<u32>,
}

impl Default for VoiceSettings {
    /// Voice off, the default service and model, a 240 ms streaming delay.
    fn default() -> (r: VoiceSettings)
        ensures
            r.mode == VoiceMode::Disabled,
            r.direct_api_base_url@ == DEFAULT_VOICE_DIRECT_API_BASE_URL@,
            r.direct_model_name@ == DEFAULT_VOICE_DIRECT_MODEL@,
            r.target_streaming_delay_ms == Some(240u32),
    {
        VoiceSettings {
            mode: VoiceMode::Disabled,
            direct_api_base_url: owned(DEFAULT_VOICE_DIRECT_API_BASE_URL),
            direct_model_name: owned(DEFAULT_VOICE_DIRECT_MODEL),
            target_streaming_delay_ms: Some(240),
        }
    }
}

/// Whether managed voice input is available to the user.
#[derive(Debug)]
pub struct VoiceCapabilityResponse {
    pub available: bool,
    pub feature_code: String,
    pub reason: Option<String>,
    pub remaining_count: Option<i64>,
    pub websocket_path: Option<String>,
    pub model_name: Option<String>,
}

/// The first message on the managed voice socket.
#[derive(Debug)]
pub struct ManagedVoiceAuthMessage {
    pub token: String,
    pub audio_format: AudioFormat,
    pub target_streaming_delay_ms: Option<u32>,
}

} // verus!
