//! Inference-server core: chat prompt templating, the chat generation state
//! machine, Whisper transcript windowing and rendering, and the model registry.

pub mod chat_format;
mod config;
mod engine;
mod generation;
mod messages;
mod registry;
mod response;
mod timecode;
mod transcript;
mod wav;
mod whisper;

pub use chat_format::ChatFormat;
pub use config::{
    default_chat_format, default_cpu, default_quantized, default_seed, listen_address, Args,
    ChatModelConfig, Config, WhisperModelConfig, DEFAULT_SEED,
};
pub use engine::{
    mel_filter_len, shape_response, ChatCompletionRequest, ChatError, ChatModel,
    ChatResponseFormat, ChatSession, LanguageChoice, ModelInitError, Whisper,
};
pub use generation::{
    repeat_penalty_start, repeat_penalty_window, ChatStream, Generation, DEFAULT_MAX_TOKENS,
    REPEAT_LAST_N,
};
pub use messages::{
    AssistantMessage, ChatCompletionMessage, ChatMessage, ChatMessages, SystemMessage,
    TemplateError, ToolCall, ToolMessage, UserMessage,
};
pub use registry::{
    chat_failure, load_failure, load_order, model_not_set, whisper_failure, ApiError, LoadStep,
    Model, ModelEntry, ModelKind, Models, BAD_REQUEST,
};
pub use response::{
    ChatCompleteUsage, ChatCompletionChoice, ChatCompletionResponse, ChatCompletionResponseChunk,
    ChatResponse, FinishReason, ResponseTypes,
};
pub use transcript::{
    collect_segments, plan_windows, scan_time_tags, CreateTranscriptionResponse, DecodedWindow,
    Segment, TimestampText, TranscriptionFormat, Window, FRAME_MS, HOP_LENGTH, N_FRAMES,
    SAMPLE_RATE,
};
pub use whisper::{
    decode_should_stop, plan_language, prompt_prefix, suppress_mask, timestamp_ms, timestamp_runs,
    TimedRun,
    LanguagePlan, SpecialTokens, Task, WhisperError, WhisperVariant,
};

pub use wav::{parse_wav, WavError, WavPcm};
