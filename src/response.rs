//! OpenAI-shaped chat completion responses and stream chunks.

use crate::messages::AssistantMessage;
use crate::transcript::CreateTranscriptionResponse;
use vstd::prelude::*;

verus! {

/// Why a choice stopped growing.
#[derive(Debug, Clone, Copy, PartialEq, Eq, Structural)]
pub enum FinishReason {
    /// The end-of-sequence token was produced.
    Stop,
    /// The token budget ran out.
    Length,
    ToolCalls,
    ContentFilter,
    /// The choice is still growing (stream chunks before the last).
    Null,
}

/// Token counts of one completion.
#[derive(Debug, Clone, Copy, PartialEq, Eq, Structural)]
pub struct ChatCompleteUsage {
    pub completion_tokens: usize,
    pub prompt_tokens: usize,
    pub total_tokens: usize,
}

/// One generated answer.
pub struct ChatCompletionChoice {
    pub finish_reason: FinishReason,
    pub index: usize,
    pub message: AssistantMessage,
}

pub struct ChatCompletionResponse {
    /// A unique identifier for the chat completion.
    pub id: String,
    /// The chat completion choices.
    pub choices: Vec<ChatCompletionChoice>,
    /// The Unix timestamp (in seconds) of when the chat completion was created.
    pub created: usize,
    /// The model alias used for the chat completion.
    pub model: String,
    /// The backend configuration the model runs with.
    pub system_fingerprint: String,
    /// The object type, always `chat.completion`.
    pub object: String,
    /// Usage statistics for the completion request.
    pub usage: ChatCompleteUsage,
}

pub struct ChatCompletionResponseChunk {
    /// The identifier shared with the completion the chunk belongs to.
    pub id: String,
    pub choices: Vec<ChatCompletionChoice>,
    pub created: usize,
    pub model: String,
    pub system_fingerprint: String,
    /// The object type, always `chat.completion.chunk`.
    pub object: String,
}

/// What a chat request answers with.
pub enum ChatResponse {
    Chunk(ChatCompletionResponseChunk),
    Completion(ChatCompletionResponse),
    Text(String),
}

/// What any request answers with.
pub enum ResponseTypes {
    Whisper(CreateTranscriptionResponse),
    Chat(ChatCompletionResponse),
}

pub open spec fn is_lower_hex(c: char) -> bool {
    ('0' <= c && c <= '9') || ('a' <= c && c <= 'f')
}

/// The hyphenated lower-case text of a version-4 UUID: 32 hex digits in
/// groups of 8-4-4-4-12, version digit `4`, variant digit one of `8 9 a b`.
pub open spec fn is_v4_uuid_text(s: Seq<char>) -> bool {
    &&& s.len() == 36
    &&& forall|i: int|
        0 <= i < 36 ==> if i == 8 || i == 13 || i == 18 || i == 23 {
            #[trigger] s[i] == '-'
        } else {
            is_lower_hex(s[i])
        }
    &&& s[14] == '4'
    &&& (s[19] == '8' || s[19] == '9' || s[19] == 'a' || s[19] == 'b')
}

/// Relies on `uuid::Uuid::new_v4`, which sets the version and variant bits,
/// and its `Display`, which writes the hyphenated lower-case form.
#[verifier::external_body]
fn random_completion_id() -> (r: String)
    ensures
        is_v4_uuid_text(r@),
{
    uuid::Uuid::new_v4().to_string()
}

/// Relies on `chrono::Local::now` and `DateTime::timestamp`: the current
/// time in seconds since the Unix epoch.
#[verifier::external_body]
fn unix_seconds() -> (r: i64) {
    chrono::Local::now().timestamp()
}

impl ChatCompletionResponse {
    /// An empty completion for `model`, with a fresh random id and the current time.
    pub fn new(model: String) -> (r: ChatCompletionResponse)
        ensures
            is_v4_uuid_text(r.id@),
            r.model == model,
            r.choices@.len() == 0,
            r.system_fingerprint@.len() == 0,
            r.object@ == "chat.completion"@,
            r.usage == (ChatCompleteUsage { completion_tokens: 0, prompt_tokens: 0, total_tokens: 0 }),
    {
        let id = random_completion_id();
        let seconds = unix_seconds();
        let created: usize = if seconds >= 0 && (seconds as u64) <= (usize::MAX as u64) {
            seconds as usize
        } else {
            0
        };
        ChatCompletionResponse::with_identity(id, created, model)
    }

    /// An empty completion with the given identity.
    pub fn with_identity(id: String, created: usize, model: String) -> (r: ChatCompletionResponse)
        ensures
            r.id == id,
            r.created == created,
            r.model == model,
            r.choices@.len() == 0,
            r.system_fingerprint@.len() == 0,
            r.object@ == "chat.completion"@,
            r.usage == (ChatCompleteUsage { completion_tokens: 0, prompt_tokens: 0, total_tokens: 0 }),
    {
        ChatCompletionResponse {
            id,
            choices: Vec::new(),
            created,
            model,
            system_fingerprint: String::new(),
            object: String::from_str("chat.completion"),
            usage: ChatCompleteUsage { completion_tokens: 0, prompt_tokens: 0, total_tokens: 0 },
        }
    }
}

impl ChatCompletionResponseChunk {
    /// A chunk that carries `choices` and shares the identity of `response`.
    pub fn from_response(
        response: &ChatCompletionResponse,
        choices: Vec<ChatCompletionChoice>,
    ) -> (r: ChatCompletionResponseChunk)
        ensures
            r.id == response.id,
            r.created == response.created,
            r.model == response.model,
            r.system_fingerprint == response.system_fingerprint,
            r.choices == choices,
            r.object@ == "chat.completion.chunk"@,
    {
        ChatCompletionResponseChunk {
            id: response.id.clone(),
            choices,
            created: response.created,
            model: response.model.clone(),
            system_fingerprint: response.system_fingerprint.clone(),
            object: String::from_str("chat.completion.chunk"),
        }
    }
}

} // verus!
