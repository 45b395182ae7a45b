//! The server's configuration and its defaults.
use vstd::prelude::*;

verus! {

/// The whole configuration: server, speech to text and text to speech.
#[derive(Debug, Clone)]
pub struct Config {
    pub server: ServerConfig,
    pub stt: SttConfig,
    pub tts: TtsConfig,
}

/// Where the HTTP server listens.
#[derive(Debug, Clone)]
pub struct ServerConfig {
    pub listen: String,
}

/// The speech recogniser: its model file, its language (`auto` to detect it) and its
/// acceleration.
#[derive(Debug, Clone)]
pub struct SttConfig {
    pub model_path: String,
    pub language: String,
    pub use_gpu: bool,
    pub flash_attn: bool,
}

/// The speech synthesiser: its model variant, its voice profiles, its default voice and how
/// long one synthesis may take.
#[derive(Debug, Clone)]
pub struct TtsConfig {
    pub model: String,
    pub voices_dir: Option<String>,
    pub default_voice: String,
    pub synthesis_timeout_ms: u64,
}

impl ServerConfig {
    /// Whether this is the default server configuration.
    pub open spec fn is_default(self) -> bool {
        self.listen@ == "0.0.0.0:9200"@
    }
}

impl SttConfig {
    /// Whether this is the default recogniser configuration.
    pub open spec fn is_default(self) -> bool {
        &&& self.model_path@ == "/models/ggml-large-v3-turbo.bin"@
        &&& self.language@ == "auto"@
        &&& self.use_gpu
        &&& self.flash_attn
    }
}

impl TtsConfig {
    /// Whether this is the default synthesiser configuration.
    pub open spec fn is_default(self) -> bool {
        &&& self.model@ == "custom-voice"@
        &&& self.voices_dir is None
        &&& self.default_voice@ == "ryan"@
        &&& self.synthesis_timeout_ms == 90_000
    }
}

impl Config {
    /// Whether every part of this configuration is the default.
    pub open spec fn is_default(self) -> bool {
        &&& self.server.is_default()
        &&& self.stt.is_default()
        &&& self.tts.is_default()
    }
}

impl Default for ServerConfig {
    fn default() -> (c: Self)
        ensures
            c.is_default(),
    {
        ServerConfig { listen: String::from_str("0.0.0.0:9200") }
    }
}

impl Default for SttConfig {
    fn default() -> (c: Self)
        ensures
            c.is_default(),
    {
        SttConfig {
            model_path: String::from_str("/models/ggml-large-v3-turbo.bin"),
            language: String::from_str("auto"),
            use_gpu: true,
            flash_attn: true,
        }
    }
}

impl Default for TtsConfig {
    fn default() -> (c: Self)
        ensures
            c.is_default(),
    {
        TtsConfig {
            model: String::from_str("custom-voice"),
            voices_dir: None,
            default_voice: String::from_str("ryan"),
            synthesis_timeout_ms: 90_000,
        }
    }
}

impl Default for Config {
    fn default() -> (c: Self)
        ensures
            c.is_default(),
    {
        Config {
            server: ServerConfig::default(),
            stt: SttConfig::default(),
            tts: TtsConfig::default(),
        }
    }
}

} // verus!
