//! Loaded models and the per-request chat session. Tensors, weights and
//! tokenizers come from candle and tokenizers and stay opaque here; the
//! decisions around them are verified.

use crate::chat_format::{eos_text, format_result, ChatFormat};
use crate::generation::{chunk_choice_ok, emitted, ends, initial, step, ChatStream, Generation};
use crate::messages::{ChatCompletionMessage, TemplateError};
use crate::response::{
    ChatCompleteUsage, ChatCompletionResponse, ChatCompletionResponseChunk, ChatResponse,
};
use crate::whisper::{language_tag, plan_language, LanguagePlan, SpecialTokens, WhisperError};
use candle_core::{Device, Tensor};
use candle_transformers::generation::{LogitsProcessor, Sampling};
use candle_transformers::models::quantized_llama::ModelWeights;
use candle_transformers::models::whisper::model::Whisper as WhisperWeights;
use candle_transformers::models::whisper::Config as WhisperConfig;
use crate::timecode::{append_decimal, decimal};
use tokenizers::Tokenizer;
use vstd::prelude::*;

verus! {

#[verifier::external_type_specification]
#[verifier::external_body]
pub struct ExTokenizer(Tokenizer);

#[verifier::external_type_specification]
#[verifier::external_body]
pub struct ExModelWeights(ModelWeights);

#[verifier::external_type_specification]
#[verifier::external_body]
pub struct ExDevice(Device);

#[verifier::external_type_specification]
#[verifier::external_body]
pub struct ExTensor(Tensor);

#[verifier::external_type_specification]
#[verifier::external_body]
pub struct ExCandleError(candle_core::Error);

#[verifier::external_type_specification]
#[verifier::external_body]
pub struct ExLogitsProcessor(LogitsProcessor);

#[verifier::external_type_specification]
#[verifier::external_body]
pub struct ExSampling(Sampling);

#[verifier::external_type_specification]
#[verifier::external_body]
pub struct ExWhisperWeights(WhisperWeights);

#[verifier::external_type_specification]
#[verifier::external_body]
pub struct ExWhisperConfig(WhisperConfig);

/// What the tokenizer's vocabulary holds: each entry's text and its id,
/// added tokens included.
pub uninterp spec fn vocabulary(t: Tokenizer) -> Map<Seq<char>, u32>;

/// The text the tokenizer decodes each id sequence to (special tokens
/// skipped), for the sequences it can decode.
pub uninterp spec fn decodings(t: Tokenizer) -> Map<Seq<u32>, Seq<char>>;

/// Relies on `tokenizers::Tokenizer::token_to_id`: the id of a vocabulary
/// entry (added tokens first, then the model's), `None` when the text is no entry.
#[verifier::external_body]
fn lookup_token(tokenizer: &Tokenizer, text: &str) -> (r: Option<u32>)
    ensures
        r == if vocabulary(*tokenizer).contains_key(text@) {
            Some(vocabulary(*tokenizer)[text@])
        } else {
            None::<u32>
        },
{
    tokenizer.token_to_id(text)
}

/// Relies on `tokenizers::Tokenizer::encode` (with special tokens) and
/// `Encoding::get_ids`: the token ids of a prompt. A BPE model with dropout
/// encodes one text differently from call to call, so nothing is stated of
/// the result.
#[verifier::external_body]
fn encode_prompt(tokenizer: &Tokenizer, prompt: &str) -> (r: Result<Vec<u32>, String>) {
    tokenizer.encode(prompt, true).map(|e| e.get_ids().to_vec()).map_err(|e| e.to_string())
}

/// Relies on `tokenizers::Tokenizer::decode` (skipping special tokens): the
/// text of a token sequence.
#[verifier::external_body]
fn decode_ids(tokenizer: &Tokenizer, ids: &Vec<u32>) -> (r: Result<String, String>)
    ensures
        r is Ok <==> decodings(*tokenizer).contains_key(ids@),
        r matches Ok(text) ==> text@ == decodings(*tokenizer)[ids@],
{
    tokenizer.decode(ids, true).map_err(|e| e.to_string())
}

/// How many elements a tensor holds: the product of its shape's dimensions.
pub uninterp spec fn element_count(t: Tensor) -> nat;

/// Relies on `candle_core::Tensor::elem_count`: the element count of the
/// tensor's shape, which never changes after the tensor is made.
#[verifier::external_body]
fn tensor_elem_count(t: &Tensor) -> (r: usize)
    ensures
        r == element_count(*t),
{
    t.elem_count()
}

/// Relies on `ModelWeights::clone`: a copy whose key-value cache is the
/// request's own.
#[verifier::external_body]
fn clone_weights(model: &ModelWeights) -> (r: ModelWeights) {
    model.clone()
}

/// Relies on `LogitsProcessor::from_sampling`: a sampler seeded with `seed`.
#[verifier::external_body]
fn seeded_sampler(seed: u64, sampling: Sampling) -> (r: LogitsProcessor) {
    LogitsProcessor::from_sampling(seed, sampling)
}

/// The texts of Whisper's special tokens.
pub struct SpecialTokenTexts {
    pub sot: String,
    pub transcribe: String,
    pub translate: String,
    pub eot: String,
    pub no_timestamps: String,
    /// The candidates for the no-speech token, in order of preference.
    pub no_speech: Vec<String>,
}

pub open spec fn sot_text() -> Seq<char> {
    "<|startoftranscript|>"@
}

pub open spec fn transcribe_text() -> Seq<char> {
    "<|transcribe|>"@
}

pub open spec fn translate_text() -> Seq<char> {
    "<|translate|>"@
}

pub open spec fn eot_text() -> Seq<char> {
    "<|endoftext|>"@
}

pub open spec fn no_timestamps_text() -> Seq<char> {
    "<|notimestamps|>"@
}

pub open spec fn no_captions_text() -> Seq<char> {
    "<|nocaptions|>"@
}

pub open spec fn no_speech_text() -> Seq<char> {
    "<|nospeech|>"@
}

/// Relies on the special-token constants of candle's whisper module
/// (`SOT_TOKEN`, `TRANSCRIBE_TOKEN`, `TRANSLATE_TOKEN`, `EOT_TOKEN`,
/// `NO_TIMESTAMPS_TOKEN`, `NO_SPEECH_TOKENS`).
#[verifier::external_body]
fn whisper_token_texts() -> (r: SpecialTokenTexts)
    ensures
        r.sot@ == sot_text(),
        r.transcribe@ == transcribe_text(),
        r.translate@ == translate_text(),
        r.eot@ == eot_text(),
        r.no_timestamps@ == no_timestamps_text(),
        r.no_speech@.len() == 2,
        r.no_speech@[0]@ == no_captions_text(),
        r.no_speech@[1]@ == no_speech_text(),
{
    SpecialTokenTexts {
        sot: candle_transformers::models::whisper::SOT_TOKEN.to_string(),
        transcribe: candle_transformers::models::whisper::TRANSCRIBE_TOKEN.to_string(),
        translate: candle_transformers::models::whisper::TRANSLATE_TOKEN.to_string(),
        eot: candle_transformers::models::whisper::EOT_TOKEN.to_string(),
        no_timestamps: candle_transformers::models::whisper::NO_TIMESTAMPS_TOKEN.to_string(),
        no_speech: candle_transformers::models::whisper::NO_SPEECH_TOKENS.iter().map(|t| t.to_string()).collect(),
    }
}

/// Why a model cannot be loaded.
#[derive(Debug, PartialEq, Eq)]
pub enum ModelInitError {
    /// The end-of-sequence sentinel of the chat format is not in the vocabulary.
    EosNotInVocabulary(String),
    /// The Whisper config names a mel bin count without a filter bank.
    UnexpectedMelBins(usize),
    /// The filter bank holds this many coefficients, not as many as its bin
    /// count asks for.
    FilterBankSize(usize),
}

pub open spec fn model_init_error_text(e: ModelInitError) -> Seq<char> {
    match e {
        ModelInitError::EosNotInVocabulary(t) => "no token-id for "@ + t@,
        ModelInitError::UnexpectedMelBins(n) => "unexpected num_mel_bins "@ + decimal(n as nat),
        ModelInitError::FilterBankSize(n) => "unexpected mel filter length "@ + decimal(n as nat),
    }
}

impl ModelInitError {
    pub fn message(&self) -> (r: String)
        ensures
            r@ == model_init_error_text(*self),
    {
        match self {
            ModelInitError::EosNotInVocabulary(t) => {
                let mut m = String::from_str("no token-id for ");
                m.append(t.as_str());
                m
            },
            ModelInitError::UnexpectedMelBins(n) => {
                let mut m = String::from_str("unexpected num_mel_bins ");
                append_decimal(&mut m, *n as u128);
                m
            },
            ModelInitError::FilterBankSize(n) => {
                let mut m = String::from_str("unexpected mel filter length ");
                append_decimal(&mut m, *n as u128);
                m
            },
        }
    }
}

/// Why a chat request fails.
pub enum ChatError {
    Template(TemplateError),
    /// The tokenizer failed; its message.
    Tokenizer(String),
}

pub open spec fn chat_error_text(e: ChatError) -> Seq<char> {
    match e {
        ChatError::Template(t) => crate::messages::template_error_text(t),
        ChatError::Tokenizer(m) => m@,
    }
}

impl ChatError {
    pub fn message(&self) -> (r: String)
        ensures
            r@ == chat_error_text(*self),
    {
        match self {
            ChatError::Template(e) => e.message(),
            ChatError::Tokenizer(m) => m.clone(),
        }
    }
}

/// How the non-streamed answer is shaped.
#[derive(Debug, Clone, Copy, PartialEq, Eq, Structural)]
pub enum ChatResponseFormat {
    /// The whole response object.
    Json,
    /// The assistant's text alone.
    Text,
}

/// A chat completion request. The sampling settings (temperature, top-p)
/// arrive as candle's `Sampling`.
pub struct ChatCompletionRequest {
    pub model: String,
    pub messages: Vec<ChatCompletionMessage>,
    pub sampling: Sampling,
    pub max_tokens: Option<usize>,
    pub stream: Option<bool>,
    pub response_format: Option<ChatResponseFormat>,
}

/// A loaded chat model.
pub struct ChatModel {
    pub tokenizer: Tokenizer,
    pub model: ModelWeights,
    pub device: Device,
    pub seed: u64,
    /// The token id of the chat format's end-of-sequence sentinel.
    pub eos_token: u32,
    pub chat_format: ChatFormat,
}

/// The state of one chat request: the prompt, the sampled tokens so far, and
/// the request's own copy of the weights and sampler.
pub struct ChatSession {
    /// The rendered prompt text.
    pub prompt: String,
    /// The ids the tokenizer gave for the prompt.
    pub prompt_ids: Vec<u32>,
    pub stream: ChatStream,
    pub model: ModelWeights,
    pub processor: LogitsProcessor,
}

/// A fresh session: a generation over the prompt ids with the request's
/// budget, and an empty `chat.completion` for the model alias.
pub open spec fn session_begun(
    s: ChatSession,
    model: String,
    max_tokens: Option<usize>,
    eos_token: u32,
) -> bool {
    &&& s.stream.generation.wf()
    &&& s.stream.generation@ == initial(s.prompt_ids@.len(), max_tokens, eos_token)
    &&& !s.stream.closed
    &&& s.stream.response.model == model
    &&& s.stream.response.choices@.len() == 0
    &&& s.stream.response.object@ == "chat.completion"@
    &&& s.stream.response.system_fingerprint@.len() == 0
    &&& s.stream.response.usage == (ChatCompleteUsage {
        completion_tokens: 0,
        prompt_tokens: 0,
        total_tokens: 0,
    })
    &&& s.stream.response.usage.total_tokens == s.stream.response.usage.prompt_tokens
        + s.stream.response.usage.completion_tokens
}

impl ChatModel {
    /// A chat model; fails when the tokenizer lacks the format's
    /// end-of-sequence sentinel.
    pub fn new(
        tokenizer: Tokenizer,
        model: ModelWeights,
        device: Device,
        seed: u64,
        chat_format: ChatFormat,
    ) -> (r: Result<ChatModel, ModelInitError>)
        ensures
            r is Ok <==> vocabulary(tokenizer).contains_key(eos_text(chat_format)),
            r matches Ok(m) ==> {
                &&& m.eos_token == vocabulary(tokenizer)[eos_text(chat_format)]
                &&& m.tokenizer == tokenizer
                &&& m.seed == seed
                &&& m.chat_format == chat_format
            },
            r matches Err(e) ==> e matches ModelInitError::EosNotInVocabulary(t) && t@
                == eos_text(chat_format),
    {
        let eos_text = chat_format.get_eos_token();
        match lookup_token(&tokenizer, eos_text.as_str()) {
            Some(eos_token) => Ok(ChatModel { tokenizer, model, device, seed, eos_token, chat_format }),
            None => Err(ModelInitError::EosNotInVocabulary(eos_text)),
        }
    }

    /// Starts a request: renders the prompt, hands that text to the tokenizer,
    /// and sets up a generation over the ids it returns.
    pub fn start(&self, request: ChatCompletionRequest) -> (r: Result<ChatSession, ChatError>)
        ensures
            format_result(self.chat_format, request.messages@) matches Err(e) ==> r matches Err(
                ChatError::Template(f),
            ) && f == e,
            format_result(self.chat_format, request.messages@) is Ok ==> (r is Ok || r matches Err(
                ChatError::Tokenizer(_),
            )),
            r matches Ok(s) ==> {
                &&& format_result(self.chat_format, request.messages@) matches Ok(p) && s.prompt@
                    == p
                &&& session_begun(s, request.model, request.max_tokens, self.eos_token)
            },
    {
        let ChatCompletionRequest { model, messages, sampling, max_tokens, .. } = request;
        let prompt = match self.chat_format.format_messages(messages) {
            Ok(p) => p,
            Err(e) => {
                return Err(ChatError::Template(e));
            },
        };
        let prompt_ids = match encode_prompt(&self.tokenizer, prompt.as_str()) {
            Ok(ids) => ids,
            Err(m) => {
                return Err(ChatError::Tokenizer(m));
            },
        };
        Ok(self.begin(model, prompt, prompt_ids, sampling, max_tokens))
    }

    /// The session of a request whose prompt tokenized to `prompt_ids`: an
    /// empty completion for `model` and a generation over those ids with the
    /// request's budget.
    pub fn begin(
        &self,
        model: String,
        prompt: String,
        prompt_ids: Vec<u32>,
        sampling: Sampling,
        max_tokens: Option<usize>,
    ) -> (s: ChatSession)
        ensures
            s.prompt == prompt,
            s.prompt_ids == prompt_ids,
            session_begun(s, model, max_tokens, self.eos_token),
    {
        let generation = Generation::new(prompt_ids.len(), max_tokens, self.eos_token);
        let response = ChatCompletionResponse::new(model);
        ChatSession {
            prompt,
            prompt_ids,
            stream: ChatStream::new(response, generation),
            model: clone_weights(&self.model),
            processor: seeded_sampler(self.seed, sampling),
        }
    }

    /// Records a sampled token: decodes it and returns the chunk it yields.
    /// The state changes only when decoding succeeds.
    pub fn accept_token(&self, session: &mut ChatSession, token: u32) -> (r: Result<
        ChatCompletionResponseChunk,
        ChatError,
    >)
        requires
            old(session).stream.generation.wf(),
            old(session).stream.generation@.finish is None,
            !old(session).stream.closed,
            old(session).stream.generation.eos_token == self.eos_token,
        ensures
            r is Ok <==> decodings(self.tokenizer).contains_key(seq![token]),
            r is Err ==> *final(session) == *old(session) && r matches Err(ChatError::Tokenizer(_)),
            r matches Ok(c) ==> {
                &&& final(session).stream.generation@ == step(
                    old(session).stream.generation@,
                    token,
                    decodings(self.tokenizer)[seq![token]],
                )
                &&& c.object@ == "chat.completion.chunk"@
                &&& chunk_choice_ok(
                    c.choices@[0],
                    emitted(
                        old(session).stream.generation@,
                        token,
                        decodings(self.tokenizer)[seq![token]],
                    ),
                )
                &&& final(session).prompt_ids == old(session).prompt_ids
                &&& final(session).stream.generation.wf()
                &&& final(session).stream.response == old(session).stream.response
                &&& c.id == old(session).stream.response.id
                &&& c.created == old(session).stream.response.created
                &&& c.model == old(session).stream.response.model
                &&& c.system_fingerprint == old(session).stream.response.system_fingerprint
                &&& c.choices@.len() == 1
                &&& final(session).stream.closed == ends(old(session).stream.generation@, token)
            },
    {
        let ids = vec![token];
        assert(ids@ =~= seq![token]);
        let fragment = match decode_ids(&self.tokenizer, &ids) {
            Ok(f) => f,
            Err(m) => {
                return Err(ChatError::Tokenizer(m));
            },
        };
        let chunk = session.stream.on_token(token, fragment);
        Ok(chunk)
    }
}

impl ChatSession {
    /// The tokens to feed the model next and their position: the whole prompt
    /// at position 0 first, then the latest token after the tokens before it.
    pub fn next_input(&self) -> (r: (Vec<u32>, usize))
        requires
            self.stream.generation.wf(),
            self.stream.generation.prompt_tokens == self.prompt_ids@.len(),
        ensures
            self.stream.generation.all_tokens@.len() == 0 ==> r.0@ == self.prompt_ids@ && r.1
                == 0,
            self.stream.generation.all_tokens@.len() > 0 ==> r.0@ == seq![
                self.stream.generation.all_tokens@.last(),
            ] && r.1 == self.prompt_ids@.len() + self.stream.generation.all_tokens@.len() - 1,
    {
        match self.stream.generation.last_token() {
            None => (self.prompt_ids.clone(), 0),
            Some(t) => (vec![t], self.stream.generation.next_position()),
        }
    }

    pub fn is_finished(&self) -> (r: bool)
        ensures
            r == self.stream.generation@.finish is Some,
    {
        self.stream.generation.is_finished()
    }

    /// The finished generation as a completion response.
    pub fn into_response(self) -> (r: ChatCompletionResponse)
        requires
            self.stream.generation.wf(),
            self.stream.generation@.finish is Some,
            self.stream.response.choices@.len() == 0,
        ensures
            r.id == self.stream.response.id,
            r.created == self.stream.response.created,
            r.model == self.stream.response.model,
            r.system_fingerprint == self.stream.response.system_fingerprint,
            r.object == self.stream.response.object,
            r.choices@.len() == 1,
            r.choices@[0].index == 0,
            r.choices@[0].finish_reason == self.stream.generation@.finish.unwrap(),
            r.choices@[0].message.content == Some(self.stream.generation.content),
            r.usage.prompt_tokens == self.stream.generation.prompt_tokens,
            r.usage.completion_tokens == self.stream.generation.all_tokens@.len(),
            r.usage.total_tokens == r.usage.prompt_tokens + r.usage.completion_tokens,
    {
        self.stream.generation.into_response(self.stream.response)
    }
}

/// The non-streamed answer: the whole response unless plain text was asked
/// for, then the first choice's text.
pub fn shape_response(response: ChatCompletionResponse, format: Option<ChatResponseFormat>) -> (r:
    ChatResponse)
    ensures
        format != Some(ChatResponseFormat::Text) ==> r == ChatResponse::Completion(response),
        format == Some(ChatResponseFormat::Text) && response.choices@.len() > 0
            && response.choices@[0].message.content is Some ==> r == ChatResponse::Text(
            response.choices@[0].message.content.unwrap(),
        ),
        format == Some(ChatResponseFormat::Text) && !(response.choices@.len() > 0
            && response.choices@[0].message.content is Some) ==> (r matches ChatResponse::Text(t)
            && t@.len() == 0),
{
    match format {
        Some(ChatResponseFormat::Text) => {
            if response.choices.len() > 0 {
                match &response.choices[0].message.content {
                    Some(c) => {
                        return ChatResponse::Text(c.clone());
                    },
                    None => {},
                }
            }
            ChatResponse::Text(String::new())
        },
        _ => ChatResponse::Completion(response),
    }
}

/// What the language step resolved to.
#[derive(Debug, PartialEq, Eq, Structural)]
pub enum LanguageChoice {
    /// Detect the language from the audio.
    Detect,
    /// Use this language token.
    Token(u32),
    /// Decode without a language token.
    NoLanguage,
}

/// The number of mel-filter coefficients a filter bank with `num_mel_bins`
/// bins holds (201 frequency bins each), for the two supported sizes.
pub open spec fn filter_bank_len(num_mel_bins: usize) -> Option<usize> {
    if num_mel_bins == 80 {
        Some(16080)
    } else if num_mel_bins == 128 {
        Some(25728)
    } else {
        None
    }
}

pub fn mel_filter_len(num_mel_bins: usize) -> (r: Result<usize, ModelInitError>)
    ensures
        match filter_bank_len(num_mel_bins) {
            Some(n) => r == Ok::<usize, ModelInitError>(n),
            None => r == Err::<usize, ModelInitError>(
                ModelInitError::UnexpectedMelBins(num_mel_bins),
            ),
        },
{
    if num_mel_bins == 80 {
        Ok(16080)
    } else if num_mel_bins == 128 {
        Ok(25728)
    } else {
        Err(ModelInitError::UnexpectedMelBins(num_mel_bins))
    }
}

/// Whether the vocabulary has every special token Whisper decoding needs.
pub open spec fn special_tokens_present(v: Map<Seq<char>, u32>) -> bool {
    &&& v.contains_key(no_timestamps_text())
    &&& v.contains_key(sot_text())
    &&& v.contains_key(transcribe_text())
    &&& v.contains_key(translate_text())
    &&& v.contains_key(eot_text())
    &&& (v.contains_key(no_captions_text()) || v.contains_key(no_speech_text()))
}

/// The special token ids are the vocabulary's entries for their texts.
pub open spec fn special_tokens_of(s: SpecialTokens, v: Map<Seq<char>, u32>) -> bool {
    &&& s.no_timestamps == v[no_timestamps_text()]
    &&& s.sot == v[sot_text()]
    &&& s.transcribe == v[transcribe_text()]
    &&& s.translate == v[translate_text()]
    &&& s.eot == v[eot_text()]
    &&& s.no_speech == if v.contains_key(no_captions_text()) {
        v[no_captions_text()]
    } else {
        v[no_speech_text()]
    }
}

/// A loaded Whisper model.
pub struct Whisper {
    pub tokenizer: Tokenizer,
    pub model: WhisperWeights,
    pub config: WhisperConfig,
    /// The mel filter bank, as a tensor.
    pub mel_filters: Tensor,
    /// How many coefficients the filter bank holds.
    pub mel_filter_count: usize,
    pub num_mel_bins: usize,
    pub device: Device,
    pub seed: u64,
}

impl Whisper {
    /// A Whisper model; fails unless `num_mel_bins` has a filter bank and
    /// `mel_filters` holds as many coefficients as that bank.
    pub fn new(
        tokenizer: Tokenizer,
        model: WhisperWeights,
        config: WhisperConfig,
        mel_filters: Tensor,
        num_mel_bins: usize,
        device: Device,
        seed: u64,
    ) -> (r: Result<Whisper, ModelInitError>)
        ensures
            r is Ok <==> filter_bank_len(num_mel_bins) == Some(
                element_count(mel_filters) as usize,
            ) && element_count(mel_filters) <= usize::MAX,
            filter_bank_len(num_mel_bins) is None ==> r == Err::<Whisper, ModelInitError>(
                ModelInitError::UnexpectedMelBins(num_mel_bins),
            ),
            filter_bank_len(num_mel_bins) is Some && r is Err ==> r == Err::<Whisper, ModelInitError>(
                ModelInitError::FilterBankSize(element_count(mel_filters) as usize),
            ),
            r matches Ok(w) ==> {
                &&& w.tokenizer == tokenizer
                &&& w.model == model
                &&& w.config == config
                &&& w.mel_filters == mel_filters
                &&& w.mel_filter_count == element_count(mel_filters)
                &&& w.num_mel_bins == num_mel_bins
                &&& w.device == device
                &&& w.seed == seed
            },
    {
        let expected = match mel_filter_len(num_mel_bins) {
            Ok(n) => n,
            Err(e) => {
                return Err(e);
            },
        };
        let count = tensor_elem_count(&mel_filters);
        if count != expected {
            return Err(ModelInitError::FilterBankSize(count));
        }
        Ok(
            Whisper {
                tokenizer,
                model,
                config,
                mel_filters,
                mel_filter_count: count,
                num_mel_bins,
                device,
                seed,
            },
        )
    }

    fn token_id(&self, text: &String) -> (r: Result<u32, WhisperError>)
        ensures
            r is Ok <==> vocabulary(self.tokenizer).contains_key(text@),
            r matches Ok(t) ==> t == vocabulary(self.tokenizer)[text@],
            r matches Err(e) ==> e == WhisperError::MissingToken(*text),
    {
        match lookup_token(&self.tokenizer, text.as_str()) {
            Some(t) => Ok(t),
            None => Err(WhisperError::MissingToken(text.clone())),
        }
    }

    /// The ids of the special tokens; the no-speech token is the first of its
    /// candidates that the vocabulary has.
    pub fn special_tokens(&self) -> (r: Result<SpecialTokens, WhisperError>)
        ensures
            r is Ok <==> special_tokens_present(vocabulary(self.tokenizer)),
            r matches Ok(s) ==> special_tokens_of(s, vocabulary(self.tokenizer)),
            r matches Err(e) ==> match e {
                WhisperError::MissingToken(t) => !vocabulary(self.tokenizer).contains_key(t@) && (
                t@ == no_timestamps_text() || t@ == sot_text() || t@ == transcribe_text() || t@
                    == translate_text() || t@ == eot_text()),
                WhisperError::NoSpeechToken => !vocabulary(self.tokenizer).contains_key(
                    no_captions_text(),
                ) && !vocabulary(self.tokenizer).contains_key(no_speech_text()),
                _ => false,
            },
    {
        let texts = whisper_token_texts();
        let no_timestamps = match self.token_id(&texts.no_timestamps) {
            Ok(t) => t,
            Err(e) => {
                return Err(e);
            },
        };
        let sot = match self.token_id(&texts.sot) {
            Ok(t) => t,
            Err(e) => {
                return Err(e);
            },
        };
        let transcribe = match self.token_id(&texts.transcribe) {
            Ok(t) => t,
            Err(e) => {
                return Err(e);
            },
        };
        let translate = match self.token_id(&texts.translate) {
            Ok(t) => t,
            Err(e) => {
                return Err(e);
            },
        };
        let eot = match self.token_id(&texts.eot) {
            Ok(t) => t,
            Err(e) => {
                return Err(e);
            },
        };
        let no_speech = match lookup_token(&self.tokenizer, texts.no_speech[0].as_str()) {
            Some(t) => t,
            None => match lookup_token(&self.tokenizer, texts.no_speech[1].as_str()) {
                Some(t) => t,
                None => {
                    return Err(WhisperError::NoSpeechToken);
                },
            },
        };
        Ok(SpecialTokens { sot, transcribe, translate, eot, no_speech, no_timestamps })
    }

    /// Resolves the language step; an English-only model refuses any hint and
    /// an unknown language is refused by name.
    pub fn language_token(&self, multilingual: bool, language: Option<String>) -> (r: Result<
        LanguageChoice,
        WhisperError,
    >)
        ensures
            multilingual && language is None ==> r == Ok::<LanguageChoice, WhisperError>(
                LanguageChoice::Detect,
            ),
            !multilingual && language is None ==> r == Ok::<LanguageChoice, WhisperError>(
                LanguageChoice::NoLanguage,
            ),
            !multilingual && language is Some ==> r == Err::<LanguageChoice, WhisperError>(
                WhisperError::LanguageOnMonolingual,
            ),
            multilingual && language is Some ==> (r is Ok <==> vocabulary(
                self.tokenizer,
            ).contains_key(language_tag(language.unwrap()@))),
            multilingual && language is Some && r is Ok ==> r == Ok::<
                LanguageChoice,
                WhisperError,
            >(LanguageChoice::Token(vocabulary(self.tokenizer)[language_tag(language.unwrap()@)])),
            multilingual && language is Some && r is Err ==> r == Err::<
                LanguageChoice,
                WhisperError,
            >(WhisperError::UnsupportedLanguage(language.unwrap())),
    {
        let name = match &language {
            Some(l) => l.clone(),
            None => String::new(),
        };
        match plan_language(multilingual, language) {
            Ok(LanguagePlan::Detect) => Ok(LanguageChoice::Detect),
            Ok(LanguagePlan::NoLanguage) => Ok(LanguageChoice::NoLanguage),
            Ok(LanguagePlan::Lookup(tag)) => match lookup_token(&self.tokenizer, tag.as_str()) {
                Some(t) => Ok(LanguageChoice::Token(t)),
                None => Err(WhisperError::UnsupportedLanguage(name)),
            },
            Err(e) => Err(e),
        }
    }

    /// The text of a token sequence.
    pub fn decode_text(&self, tokens: &Vec<u32>) -> (r: Result<String, String>)
        ensures
            r is Ok <==> decodings(self.tokenizer).contains_key(tokens@),
            r matches Ok(text) ==> text@ == decodings(self.tokenizer)[tokens@],
    {
        decode_ids(&self.tokenizer, tokens)
    }
}

} // verus!
