use crate::chat_format::ChatFormat;
use vstd::prelude::*;

verus! {

/// Default random seed for both model families.
pub const DEFAULT_SEED: u64 = 299792458;

/// Settings of one chat model instance.
pub struct ChatModelConfig {
    /// Path of the weights file (`.gguf`, `.ggml` or `.bin`).
    pub model_id: String,
    pub alias: String,
    /// Path of a tokenizer file overriding the one next to the weights.
    pub tokenizer: Option<String>,
    pub cpu: bool,
    pub seed: u64,
    pub gqa: usize,
    pub chat_format: ChatFormat,
}

/// Settings of one Whisper model instance.
pub struct WhisperModelConfig {
    /// Directory holding `config.json`, `tokenizer.json` and `model.safetensors`.
    pub model_id: String,
    pub alias: String,
    pub cpu: bool,
    pub seed: u64,
    pub quantized: bool,
}

/// The server configuration read at startup.
pub struct Config {
    pub host: Option<String>,
    pub port: Option<u16>,
    pub chat_configs: Option<Vec<ChatModelConfig>>,
    pub whisper_configs: Option<Vec<WhisperModelConfig>>,
}

/// Command-line arguments of the server.
pub struct Args {
    /// Overrides the configured host.
    pub host: Option<String>,
    /// Overrides the configured port.
    pub port: Option<u16>,
    /// Path of the configuration file.
    pub configs: String,
}

/// The listening address: arguments win over the file, then `localhost:8000`.
pub fn listen_address(args_host: Option<String>, args_port: Option<u16>, config: &Config) -> (r: (
    String,
    u16,
))
    ensures
        args_host is Some ==> r.0 == args_host.unwrap(),
        args_host is None && config.host is Some ==> r.0 == config.host.unwrap(),
        args_host is None && config.host is None ==> r.0@ == "localhost"@,
        r.1 == match (args_port, config.port) {
            (Some(p), _) => p,
            (None, Some(p)) => p,
            (None, None) => 8000u16,
        },
{
    let host = match args_host {
        Some(h) => h,
        None => match &config.host {
            Some(h) => h.clone(),
            None => String::from_str("localhost"),
        },
    };
    let port: u16 = match args_port {
        Some(p) => p,
        None => match config.port {
            Some(p) => p,
            None => 8000,
        },
    };
    (host, port)
}

pub fn default_chat_format() -> (r: ChatFormat)
    ensures
        r == ChatFormat::ChatML,
{
    ChatFormat::ChatML
}

pub fn default_cpu() -> (r: bool)
    ensures
        r,
{
    true
}

pub fn default_seed() -> (r: u64)
    ensures
        r == DEFAULT_SEED,
{
    DEFAULT_SEED
}

pub fn default_quantized() -> (r: bool)
    ensures
        r,
{
    true
}

} // verus!
