//! The decisions of the Whisper decoder that do not touch tensors: which
//! language token to use, the prompt prefix, the suppressed tokens, and when
//! decoding of a window stops.

use vstd::prelude::*;

verus! {

/// Whisper checkpoints; the `.en` ones are English-only.
#[derive(Debug, Clone, Copy, PartialEq, Eq, Structural)]
pub enum WhisperVariant {
    Tiny,
    TinyEn,
    Base,
    BaseEn,
    Small,
    SmallEn,
    Medium,
    MediumEn,
    Large,
    LargeV2,
    LargeV3,
    LargeV3Turbo,
    DistilMediumEn,
    DistilLargeV2,
    DistilLargeV3,
}

pub open spec fn variant_multilingual(v: WhisperVariant) -> bool {
    !(v is TinyEn || v is BaseEn || v is SmallEn || v is MediumEn || v is DistilMediumEn)
}

pub open spec fn variant_name(v: WhisperVariant) -> Seq<char> {
    match v {
        WhisperVariant::Tiny => "tiny"@,
        WhisperVariant::TinyEn => "tiny.en"@,
        WhisperVariant::Base => "base"@,
        WhisperVariant::BaseEn => "base.en"@,
        WhisperVariant::Small => "small"@,
        WhisperVariant::SmallEn => "small.en"@,
        WhisperVariant::Medium => "medium"@,
        WhisperVariant::MediumEn => "medium.en"@,
        WhisperVariant::Large => "large"@,
        WhisperVariant::LargeV2 => "large-v2"@,
        WhisperVariant::LargeV3 => "large-v3"@,
        WhisperVariant::LargeV3Turbo => "large-v3-turbo"@,
        WhisperVariant::DistilMediumEn => "distil-medium.en"@,
        WhisperVariant::DistilLargeV2 => "distil-large-v2"@,
        WhisperVariant::DistilLargeV3 => "distil-large-v3"@,
    }
}

impl WhisperVariant {
    pub fn is_multilingual(&self) -> (r: bool)
        ensures
            r == variant_multilingual(*self),
    {
        match self {
            WhisperVariant::TinyEn | WhisperVariant::BaseEn | WhisperVariant::SmallEn
            | WhisperVariant::MediumEn | WhisperVariant::DistilMediumEn => false,
            _ => true,
        }
    }

    /// The checkpoint with this name.
    pub fn from_name(name: &str) -> (r: Option<WhisperVariant>)
        ensures
            r matches Some(v) ==> variant_name(v) == name@,
            r is None ==> forall|v: WhisperVariant| #[trigger] variant_name(v) != name@,
    {
        let target = String::from_str(name);
        if target.eq(&String::from_str("tiny")) {
            Some(WhisperVariant::Tiny)
        } else if target.eq(&String::from_str("tiny.en")) {
            Some(WhisperVariant::TinyEn)
        } else if target.eq(&String::from_str("base")) {
            Some(WhisperVariant::Base)
        } else if target.eq(&String::from_str("base.en")) {
            Some(WhisperVariant::BaseEn)
        } else if target.eq(&String::from_str("small")) {
            Some(WhisperVariant::Small)
        } else if target.eq(&String::from_str("small.en")) {
            Some(WhisperVariant::SmallEn)
        } else if target.eq(&String::from_str("medium")) {
            Some(WhisperVariant::Medium)
        } else if target.eq(&String::from_str("medium.en")) {
            Some(WhisperVariant::MediumEn)
        } else if target.eq(&String::from_str("large")) {
            Some(WhisperVariant::Large)
        } else if target.eq(&String::from_str("large-v2")) {
            Some(WhisperVariant::LargeV2)
        } else if target.eq(&String::from_str("large-v3")) {
            Some(WhisperVariant::LargeV3)
        } else if target.eq(&String::from_str("large-v3-turbo")) {
            Some(WhisperVariant::LargeV3Turbo)
        } else if target.eq(&String::from_str("distil-medium.en")) {
            Some(WhisperVariant::DistilMediumEn)
        } else if target.eq(&String::from_str("distil-large-v2")) {
            Some(WhisperVariant::DistilLargeV2)
        } else if target.eq(&String::from_str("distil-large-v3")) {
            Some(WhisperVariant::DistilLargeV3)
        } else {
            None
        }
    }

    /// The name under which the checkpoint is addressed.
    pub fn get_model_string(&self) -> (r: String)
        ensures
            r@ == variant_name(*self),
    {
        let s = match self {
            WhisperVariant::Tiny => "tiny",
            WhisperVariant::TinyEn => "tiny.en",
            WhisperVariant::Base => "base",
            WhisperVariant::BaseEn => "base.en",
            WhisperVariant::Small => "small",
            WhisperVariant::SmallEn => "small.en",
            WhisperVariant::Medium => "medium",
            WhisperVariant::MediumEn => "medium.en",
            WhisperVariant::Large => "large",
            WhisperVariant::LargeV2 => "large-v2",
            WhisperVariant::LargeV3 => "large-v3",
            WhisperVariant::LargeV3Turbo => "large-v3-turbo",
            WhisperVariant::DistilMediumEn => "distil-medium.en",
            WhisperVariant::DistilLargeV2 => "distil-large-v2",
            WhisperVariant::DistilLargeV3 => "distil-large-v3",
        };
        String::from_str(s)
    }
}

/// Whether to transcribe in the spoken language or translate to English.
#[derive(Debug, Clone, Copy, PartialEq, Eq, Structural)]
pub enum Task {
    Transcribe,
    Translate,
}

/// Why a transcription request is refused.
#[derive(Debug, PartialEq, Eq)]
pub enum WhisperError {
    /// A language hint was given to an English-only model.
    LanguageOnMonolingual,
    /// The language hint names no language token of the vocabulary.
    UnsupportedLanguage(String),
    /// A special token is missing from the vocabulary.
    MissingToken(String),
    /// None of the no-speech token candidates is in the vocabulary.
    NoSpeechToken,
    /// A segment text lacks the time tags that the response format needs.
    MissingTimestamps,
}

pub open spec fn whisper_error_text(e: WhisperError) -> Seq<char> {
    match e {
        WhisperError::LanguageOnMonolingual => "a language cannot be set for non-multilingual models"@,
        WhisperError::UnsupportedLanguage(l) => "language "@ + l@ + " is not supported"@,
        WhisperError::MissingToken(t) => "no token-id for "@ + t@,
        WhisperError::NoSpeechToken => "unable to find any non-speech token"@,
        WhisperError::MissingTimestamps => "a segment has no timestamps to render"@,
    }
}

impl WhisperError {
    pub fn message(&self) -> (r: String)
        ensures
            r@ == whisper_error_text(*self),
    {
        match self {
            WhisperError::LanguageOnMonolingual => String::from_str(
                "a language cannot be set for non-multilingual models",
            ),
            WhisperError::UnsupportedLanguage(l) => {
                let mut m = String::from_str("language ");
                m.append(l.as_str());
                m.append(" is not supported");
                m
            },
            WhisperError::MissingToken(t) => {
                let mut m = String::from_str("no token-id for ");
                m.append(t.as_str());
                m
            },
            WhisperError::NoSpeechToken => String::from_str("unable to find any non-speech token"),
            WhisperError::MissingTimestamps => String::from_str(
                "a segment has no timestamps to render",
            ),
        }
    }
}

/// What to do about the language before decoding.
#[derive(Debug, PartialEq, Eq)]
pub enum LanguagePlan {
    /// Detect the language from the audio.
    Detect,
    /// Look up the language token with this text.
    Lookup(String),
    /// Decode without a language token.
    NoLanguage,
}

pub open spec fn language_tag(language: Seq<char>) -> Seq<char> {
    "<|"@ + language + "|>"@
}

/// The language step: a multilingual model detects the language unless the
/// request names one; an English-only model takes no language hint.
pub fn plan_language(multilingual: bool, language: Option<String>) -> (r: Result<
    LanguagePlan,
    WhisperError,
>)
    ensures
        multilingual && language is None ==> r == Ok::<LanguagePlan, WhisperError>(
            LanguagePlan::Detect,
        ),
        !multilingual && language is None ==> r == Ok::<LanguagePlan, WhisperError>(
            LanguagePlan::NoLanguage,
        ),
        multilingual && language is Some ==> (r matches Ok(LanguagePlan::Lookup(t)) && t@
            == language_tag(language.unwrap()@)),
        !multilingual && language is Some ==> r == Err::<LanguagePlan, WhisperError>(
            WhisperError::LanguageOnMonolingual,
        ),
{
    match (multilingual, language) {
        (true, None) => Ok(LanguagePlan::Detect),
        (false, None) => Ok(LanguagePlan::NoLanguage),
        (true, Some(l)) => {
            let mut tag = String::from_str("<|");
            tag.append(l.as_str());
            tag.append("|>");
            Ok(LanguagePlan::Lookup(tag))
        },
        (false, Some(_)) => Err(WhisperError::LanguageOnMonolingual),
    }
}

/// The token ids of the vocabulary's special tokens.
#[derive(Debug, Clone, Copy, PartialEq, Eq, Structural)]
pub struct SpecialTokens {
    pub sot: u32,
    pub transcribe: u32,
    pub translate: u32,
    pub eot: u32,
    pub no_speech: u32,
    pub no_timestamps: u32,
}

pub open spec fn prefix_of(
    special: SpecialTokens,
    language: Option<u32>,
    task: Option<Task>,
    timestamps: bool,
) -> Seq<u32> {
    let a = seq![special.sot];
    let b = match language {
        Some(l) => a.push(l),
        None => a,
    };
    let c = match task {
        Some(Task::Translate) => b.push(special.translate),
        _ => b.push(special.transcribe),
    };
    if timestamps {
        c
    } else {
        c.push(special.no_timestamps)
    }
}

/// The tokens that open decoding of each window: start of transcript, the
/// language, the task (transcribe by default), and no-timestamps unless
/// timestamps are wanted.
pub fn prompt_prefix(
    special: &SpecialTokens,
    language: Option<u32>,
    task: Option<Task>,
    timestamps: bool,
) -> (r: Vec<u32>)
    ensures
        r@ == prefix_of(*special, language, task, timestamps),
{
    let mut tokens: Vec<u32> = vec![special.sot];
    if let Some(l) = language {
        tokens.push(l);
    }
    match task {
        Some(Task::Translate) => tokens.push(special.translate),
        _ => tokens.push(special.transcribe),
    }
    if !timestamps {
        tokens.push(special.no_timestamps);
    }
    tokens
}

/// Whether decoding of a window stops after `next_token` made the token list
/// `tokens_len` long.
pub fn decode_should_stop(
    next_token: u32,
    special: &SpecialTokens,
    tokens_len: usize,
    max_target_positions: usize,
) -> (r: bool)
    ensures
        r == (next_token == special.eot || tokens_len > max_target_positions),
{
    next_token == special.eot || tokens_len > max_target_positions
}

/// Which of the `vocab_size` tokens the decoder never picks: the configured
/// ones, and the no-timestamps token when timestamps are wanted.
pub fn suppress_mask(
    vocab_size: u32,
    suppress_tokens: &Vec<u32>,
    timestamps: bool,
    no_timestamps_token: u32,
) -> (r: Vec<bool>)
    ensures
        r@.len() == vocab_size,
        forall|i: int|
            0 <= i < vocab_size ==> #[trigger] r@[i] == (suppress_tokens@.contains(i as u32) || (
            timestamps && i == no_timestamps_token)),
{
    let mut mask: Vec<bool> = Vec::new();
    let mut i: u32 = 0;
    while i < vocab_size
        invariant
            i <= vocab_size,
            mask@.len() == i,
            forall|q: int|
                0 <= q < i ==> #[trigger] mask@[q] == (suppress_tokens@.contains(q as u32) || (
                timestamps && q == no_timestamps_token)),
        decreases vocab_size - i,
    {
        let mut listed = false;
        let mut j: usize = 0;
        while j < suppress_tokens.len()
            invariant
                j <= suppress_tokens@.len(),
                listed <==> exists|q: int| 0 <= q < j && suppress_tokens@[q] == i,
            decreases suppress_tokens@.len() - j,
        {
            if suppress_tokens[j] == i {
                listed = true;
            }
            j = j + 1;
        }
        mask.push(listed || (timestamps && i == no_timestamps_token));
        i = i + 1;
    }
    mask
}

/// The time, in milliseconds, that a timestamp token stands for: tokens past
/// the no-timestamps token count in steps of 20 ms.
pub open spec fn token_time_ms(token: u32, no_timestamps: u32) -> nat {
    ((token - no_timestamps + 1) * 20) as nat
}

pub fn timestamp_ms(token: u32, no_timestamps: u32) -> (r: u64)
    requires
        token > no_timestamps,
    ensures
        r == token_time_ms(token, no_timestamps),
{
    ((token - no_timestamps) as u64 + 1) * 20
}

/// Text tokens between two timestamp tokens: where they start, where they
/// end (absent for a run that no timestamp closes), and the tokens.
pub struct TimedRun {
    pub start_ms: u64,
    pub end_ms: Option<u64>,
    pub tokens: Vec<u32>,
}

pub type RunView = (nat, Option<nat>, Seq<u32>);

/// The scan state after some tokens: the latest timestamp, the text tokens
/// since, and the runs closed so far.
pub open spec fn runs_scan(tokens: Seq<u32>, special: SpecialTokens) -> (nat, Seq<u32>, Seq<
    RunView,
>)
    decreases tokens.len(),
{
    if tokens.len() == 0 {
        (0, Seq::empty(), Seq::empty())
    } else {
        let (prev, pending, runs) = runs_scan(tokens.drop_last(), special);
        let t = tokens.last();
        if t == special.sot || t == special.eot {
            (prev, pending, runs)
        } else if t > special.no_timestamps {
            let ts = token_time_ms(t, special.no_timestamps);
            if pending.len() > 0 {
                (ts, Seq::empty(), runs.push((prev, Some(ts), pending)))
            } else {
                (ts, Seq::empty(), runs)
            }
        } else {
            (prev, pending.push(t), runs)
        }
    }
}

/// The runs of a decoded token sequence; start and end of transcript are
/// skipped, and trailing text tokens form a run without an end.
pub open spec fn timed_runs(tokens: Seq<u32>, special: SpecialTokens) -> Seq<RunView> {
    let (prev, pending, runs) = runs_scan(tokens, special);
    if pending.len() > 0 {
        runs.push((prev, None, pending))
    } else {
        runs
    }
}

pub open spec fn run_view(r: TimedRun) -> RunView {
    (
        r.start_ms as nat,
        match r.end_ms {
            Some(e) => Some(e as nat),
            None => None,
        },
        r.tokens@,
    )
}

/// Splits decoded tokens into the runs between timestamp tokens.
pub fn timestamp_runs(tokens: &Vec<u32>, special: &SpecialTokens) -> (r: Vec<TimedRun>)
    ensures
        r@.map_values(|x: TimedRun| run_view(x)) == timed_runs(tokens@, *special),
{
    let mut runs: Vec<TimedRun> = Vec::new();
    let mut pending: Vec<u32> = Vec::new();
    let mut prev: u64 = 0;
    let mut i: usize = 0;
    while i < tokens.len()
        invariant
            i <= tokens@.len(),
            runs_scan(tokens@.take(i as int), *special) == (
                prev as nat,
                pending@,
                runs@.map_values(|x: TimedRun| run_view(x)),
            ),
        decreases tokens@.len() - i,
    {
        let t = tokens[i];
        assert(tokens@.take(i + 1).drop_last() =~= tokens@.take(i as int));
        assert(tokens@.take(i + 1).last() == t);
        if t == special.sot || t == special.eot {
        } else if t > special.no_timestamps {
            let ts = timestamp_ms(t, special.no_timestamps);
            if pending.len() > 0 {
                let run = TimedRun { start_ms: prev, end_ms: Some(ts), tokens: pending };
                let ghost before = runs@;
                runs.push(run);
                assert(runs@.map_values(|x: TimedRun| run_view(x)) =~= before.map_values(
                    |x: TimedRun| run_view(x),
                ).push(run_view(run)));
                pending = Vec::new();
            }
            prev = ts;
        } else {
            pending.push(t);
        }
        i = i + 1;
    }
    assert(tokens@.take(i as int) =~= tokens@);
    if pending.len() > 0 {
        let run = TimedRun { start_ms: prev, end_ms: None, tokens: pending };
        let ghost before = runs@;
        runs.push(run);
        assert(runs@.map_values(|x: TimedRun| run_view(x)) =~= before.map_values(
            |x: TimedRun| run_view(x),
        ).push(run_view(run)));
    }
    runs
}

} // verus!
