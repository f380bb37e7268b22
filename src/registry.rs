//! The loaded models, keyed by alias, and the lookups that route a request.

use crate::config::{ChatModelConfig, Config, WhisperModelConfig};
use crate::engine::{chat_error_text, ChatError, ChatModel, Whisper};
use crate::whisper::{whisper_error_text, WhisperError};
use vstd::prelude::*;

verus! {

/// A loaded model of either family.
pub enum Model {
    Whisper(Whisper),
    Chat(ChatModel),
}

/// One alias and the model it names.
pub struct ModelEntry {
    pub alias: String,
    pub model: Model,
}

/// The registry: each alias names at most one model.
pub struct Models {
    pub entries: Vec<ModelEntry>,
}

/// An HTTP failure: the status code and a message for the body.
pub struct ApiError {
    pub status: u16,
    pub message: String,
}

pub const BAD_REQUEST: u16 = 400;

pub open spec fn has_alias(entries: Seq<ModelEntry>, alias: Seq<char>) -> bool {
    exists|i: int| 0 <= i < entries.len() && (#[trigger] entries[i]).alias@ == alias
}

/// The entries after registering `e`: it replaces the entry with its alias,
/// or joins the end.
pub open spec fn inserted(entries: Seq<ModelEntry>, e: ModelEntry) -> Seq<ModelEntry> {
    if has_alias(entries, e.alias@) {
        entries.update(
            choose|i: int| 0 <= i < entries.len() && (#[trigger] entries[i]).alias@ == e.alias@,
            e,
        )
    } else {
        entries.push(e)
    }
}

/// The entries after registering each of `added` in turn.
pub open spec fn registered(entries: Seq<ModelEntry>, added: Seq<ModelEntry>) -> Seq<ModelEntry>
    decreases added.len(),
{
    if added.len() == 0 {
        entries
    } else {
        inserted(registered(entries, added.drop_last()), added.last())
    }
}

pub open spec fn model_kind(m: Model) -> ModelKind {
    match m {
        Model::Chat(_) => ModelKind::Chat,
        Model::Whisper(_) => ModelKind::Whisper,
    }
}

/// Registering models under pairwise distinct aliases into an empty registry
/// keeps every one of them: each alias then names exactly its own model.
pub proof fn law_distinct_aliases_all_registered(added: Seq<ModelEntry>)
    requires
        forall|i: int, j: int|
            0 <= i < j < added.len() ==> (#[trigger] added[i]).alias@ != (#[trigger] added[j]).alias@,
    ensures
        registered(Seq::empty(), added) == added,
    decreases added.len(),
{
    if added.len() > 0 {
        let prev = added.drop_last();
        assert forall|i: int, j: int| 0 <= i < j < prev.len() implies (#[trigger] prev[i]).alias@
            != (#[trigger] prev[j]).alias@ by {
            assert(prev[i] == added[i] && prev[j] == added[j]);
        }
        law_distinct_aliases_all_registered(prev);
        if has_alias(prev, added.last().alias@) {
            let i = choose|i: int| 0 <= i < prev.len() && (#[trigger] prev[i]).alias@
                == added.last().alias@;
            assert(added[i] == prev[i]);
            assert(added[i].alias@ != added[added.len() - 1].alias@);
        }
        assert(prev.push(added.last()) =~= added);
    }
}

impl Models {
    pub open spec fn wf(&self) -> bool {
        forall|i: int, j: int|
            0 <= i < j < self.entries@.len() ==> (#[trigger] self.entries@[i]).alias@
                != (#[trigger] self.entries@[j]).alias@
    }

    /// An empty registry.
    pub fn new() -> (r: Models)
        ensures
            r.wf(),
            r.entries@.len() == 0,
    {
        Models { entries: Vec::new() }
    }

    /// Where the entry for `alias` stands.
    fn position(&self, alias: &String) -> (r: Option<usize>)
        ensures
            r matches Some(i) ==> i < self.entries@.len() && self.entries@[i as int].alias@
                == alias@,
            r is None ==> !has_alias(self.entries@, alias@),
    {
        let mut i: usize = 0;
        while i < self.entries.len()
            invariant
                i <= self.entries@.len(),
                forall|q: int| 0 <= q < i ==> (#[trigger] self.entries@[q]).alias@ != alias@,
            decreases self.entries@.len() - i,
        {
            if self.entries[i].alias.eq(alias) {
                return Some(i);
            }
            i = i + 1;
        }
        None
    }

    /// Registers `model` under `alias`, replacing a model that had that alias.
    pub fn insert(&mut self, alias: String, model: Model)
        requires
            old(self).wf(),
        ensures
            final(self).wf(),
            final(self).entries@ == inserted(old(self).entries@, ModelEntry { alias, model }),
    {
        let ghost e = ModelEntry { alias, model };
        match self.position(&alias) {
            Some(i) => {
                proof {
                    let j = choose|j: int|
                        0 <= j < self.entries@.len() && (#[trigger] self.entries@[j]).alias@
                            == alias@;
                    if j != i as int {
                        if j < i {
                            assert(self.entries@[j].alias@ != self.entries@[i as int].alias@);
                        } else {
                            assert(self.entries@[i as int].alias@ != self.entries@[j].alias@);
                        }
                    }
                }
                self.entries.set(i, ModelEntry { alias, model });
            },
            None => {
                self.entries.push(ModelEntry { alias, model });
            },
        }
    }

    /// Records the outcome of loading one configured model: a model of the
    /// step's family is registered under its alias; a failure, or a model of
    /// the other family, is the startup error naming the alias, and nothing
    /// changes.
    pub fn register(&mut self, step: &LoadStep, outcome: Result<Model, String>) -> (r: Result<
        (),
        String,
    >)
        requires
            old(self).wf(),
        ensures
            final(self).wf(),
            r is Ok <==> (outcome matches Ok(m) && model_kind(m) == step.kind),
            r is Ok ==> final(self).entries@ == inserted(
                old(self).entries@,
                ModelEntry { alias: step.alias, model: outcome.unwrap() },
            ),
            r is Err ==> final(self).entries@ == old(self).entries@,
            outcome matches Err(d) ==> r matches Err(m) && m@ == step.alias@ + ": "@ + d@,
    {
        match outcome {
            Ok(model) => {
                let kind = match &model {
                    Model::Chat(_) => ModelKind::Chat,
                    Model::Whisper(_) => ModelKind::Whisper,
                };
                if kind != step.kind {
                    return Err(load_failure(&step.alias, String::from_str("model of the other family")));
                }
                self.insert(step.alias.clone(), model);
                Ok(())
            },
            Err(detail) => Err(load_failure(&step.alias, detail)),
        }
    }

    /// The chat model named `alias`, if that alias names one.
    pub fn get_chat(&self, alias: String) -> (r: Option<&ChatModel>)
        requires
            self.wf(),
        ensures
            r is Some <==> exists|i: int|
                0 <= i < self.entries@.len() && (#[trigger] self.entries@[i]).alias@ == alias@
                    && self.entries@[i].model is Chat,
            r matches Some(m) ==> exists|i: int|
                0 <= i < self.entries@.len() && (#[trigger] self.entries@[i]).alias@ == alias@
                    && self.entries@[i].model == Model::Chat(*m),
    {
        match self.position(&alias) {
            Some(i) => match &self.entries[i].model {
                Model::Chat(m) => Some(m),
                Model::Whisper(_) => None,
            },
            None => None,
        }
    }

    /// The Whisper model named `alias`, if that alias names one.
    pub fn get_whisper(&self, alias: String) -> (r: Option<&Whisper>)
        requires
            self.wf(),
        ensures
            r is Some <==> exists|i: int|
                0 <= i < self.entries@.len() && (#[trigger] self.entries@[i]).alias@ == alias@
                    && self.entries@[i].model is Whisper,
            r matches Some(m) ==> exists|i: int|
                0 <= i < self.entries@.len() && (#[trigger] self.entries@[i]).alias@ == alias@
                    && self.entries@[i].model == Model::Whisper(*m),
    {
        match self.position(&alias) {
            Some(i) => match &self.entries[i].model {
                Model::Whisper(m) => Some(m),
                Model::Chat(_) => None,
            },
            None => None,
        }
    }
}

/// The 400 answer for an alias that names no model of the asked family.
pub fn model_not_set() -> (r: ApiError)
    ensures
        r.status == BAD_REQUEST,
        r.message@ == "model not set"@,
{
    ApiError { status: BAD_REQUEST, message: String::from_str("model not set") }
}

fn bad_request(prefix: &str, detail: String) -> (r: ApiError)
    ensures
        r.status == BAD_REQUEST,
        r.message@ == prefix@ + detail@,
{
    let mut message = String::from_str(prefix);
    message.append(detail.as_str());
    ApiError { status: BAD_REQUEST, message }
}

/// The 400 answer for a chat request that the model could not handle.
pub fn chat_failure(e: &ChatError) -> (r: ApiError)
    ensures
        r.status == BAD_REQUEST,
        r.message@ == "failed to handle chat model: "@ + chat_error_text(*e),
{
    bad_request("failed to handle chat model: ", e.message())
}

/// The 400 answer for a transcription that the model could not handle.
pub fn whisper_failure(e: &WhisperError) -> (r: ApiError)
    ensures
        r.status == BAD_REQUEST,
        r.message@ == "failed to handle whisper model: "@ + whisper_error_text(*e),
{
    bad_request("failed to handle whisper model: ", e.message())
}

impl Models {
    /// The chat model a request names, or the 400 answer.
    pub fn chat_for(&self, alias: String) -> (r: Result<&ChatModel, ApiError>)
        requires
            self.wf(),
        ensures
            r is Ok <==> exists|i: int|
                0 <= i < self.entries@.len() && (#[trigger] self.entries@[i]).alias@ == alias@
                    && self.entries@[i].model is Chat,
            r matches Err(e) ==> e.status == BAD_REQUEST && e.message@ == "model not set"@,
    {
        match self.get_chat(alias) {
            Some(m) => Ok(m),
            None => Err(model_not_set()),
        }
    }

    /// The Whisper model a request names, or the 400 answer.
    pub fn whisper_for(&self, alias: String) -> (r: Result<&Whisper, ApiError>)
        requires
            self.wf(),
        ensures
            r is Ok <==> exists|i: int|
                0 <= i < self.entries@.len() && (#[trigger] self.entries@[i]).alias@ == alias@
                    && self.entries@[i].model is Whisper,
            r matches Err(e) ==> e.status == BAD_REQUEST && e.message@ == "model not set"@,
    {
        match self.get_whisper(alias) {
            Some(m) => Ok(m),
            None => Err(model_not_set()),
        }
    }
}

/// Which family a configured model belongs to.
#[derive(Debug, Clone, Copy, PartialEq, Eq, Structural)]
pub enum ModelKind {
    Chat,
    Whisper,
}

/// One model to load: its alias, its family, and where it stands in its
/// family's config list.
pub struct LoadStep {
    pub alias: String,
    pub kind: ModelKind,
    pub index: usize,
}

pub open spec fn chat_entries(config: Config) -> Seq<ChatModelConfig> {
    match config.chat_configs {
        Some(v) => v@,
        None => Seq::empty(),
    }
}

pub open spec fn whisper_entries(config: Config) -> Seq<WhisperModelConfig> {
    match config.whisper_configs {
        Some(v) => v@,
        None => Seq::empty(),
    }
}

/// The order in which models load at startup: the chat entries, then the
/// Whisper entries, each in config order.
pub fn load_order(config: &Config) -> (r: Vec<LoadStep>)
    ensures
        r@.len() == chat_entries(*config).len() + whisper_entries(*config).len(),
        forall|i: int|
            0 <= i < chat_entries(*config).len() ==> {
                &&& (#[trigger] r@[i]).kind == ModelKind::Chat
                &&& r@[i].index == i
                &&& r@[i].alias@ == chat_entries(*config)[i].alias@
            },
        forall|i: int|
            chat_entries(*config).len() <= i < r@.len() ==> {
                &&& (#[trigger] r@[i]).kind == ModelKind::Whisper
                &&& r@[i].index == i - chat_entries(*config).len()
                &&& r@[i].alias@ == whisper_entries(*config)[i - chat_entries(
                    *config,
                ).len()].alias@
            },
{
    let mut r: Vec<LoadStep> = Vec::new();
    if let Some(chats) = &config.chat_configs {
        let mut i: usize = 0;
        while i < chats.len()
            invariant
                i <= chats@.len(),
                chats@ == chat_entries(*config),
                r@.len() == i,
                forall|q: int|
                    0 <= q < i ==> {
                        &&& (#[trigger] r@[q]).kind == ModelKind::Chat
                        &&& r@[q].index == q
                        &&& r@[q].alias@ == chats@[q].alias@
                    },
            decreases chats@.len() - i,
        {
            r.push(LoadStep { alias: chats[i].alias.clone(), kind: ModelKind::Chat, index: i });
            i = i + 1;
        }
    }
    let c = r.len();
    if let Some(whispers) = &config.whisper_configs {
        let mut i: usize = 0;
        while i < whispers.len()
            invariant
                i <= whispers@.len(),
                whispers@ == whisper_entries(*config),
                c == chat_entries(*config).len(),
                r@.len() == c + i,
                forall|q: int|
                    0 <= q < c ==> {
                        &&& (#[trigger] r@[q]).kind == ModelKind::Chat
                        &&& r@[q].index == q
                        &&& r@[q].alias@ == chat_entries(*config)[q].alias@
                    },
                forall|q: int|
                    c <= q < c + i ==> {
                        &&& (#[trigger] r@[q]).kind == ModelKind::Whisper
                        &&& r@[q].index == q - c
                        &&& r@[q].alias@ == whispers@[q - c].alias@
                    },
            decreases whispers@.len() - i,
        {
            r.push(LoadStep { alias: whispers[i].alias.clone(), kind: ModelKind::Whisper, index: i });
            i = i + 1;
        }
    }
    r
}

/// The startup error for a model that failed to load: its alias, then why.
pub fn load_failure(alias: &String, detail: String) -> (r: String)
    ensures
        r@ == alias@ + ": "@ + detail@,
{
    let mut m = alias.clone();
    m.append(": ");
    m.append(detail.as_str());
    m
}

} // verus!
