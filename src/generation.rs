//! The decisions of the chat decode loop: which tokens the repeat penalty
//! sees, when generation stops, what text and usage it reports, and which
//! chunks a stream emits.

use crate::chat_format::concat;
use crate::messages::AssistantMessage;
use crate::response::{
    ChatCompleteUsage, ChatCompletionChoice, ChatCompletionResponse, ChatCompletionResponseChunk,
    FinishReason,
};
use vstd::prelude::*;

verus! {

/// How many of the latest tokens the repeat penalty looks at.
pub const REPEAT_LAST_N: usize = 64;

/// The decode budget when a request names none.
pub const DEFAULT_MAX_TOKENS: usize = 4096;

/// Where the repeat-penalty window starts in a history of `len` tokens.
pub open spec fn window_start(len: int) -> int {
    if len > REPEAT_LAST_N {
        len - REPEAT_LAST_N
    } else {
        0
    }
}

/// Where the repeat-penalty window starts in a history of `len` tokens.
pub fn repeat_penalty_start(len: usize) -> (r: usize)
    ensures
        r == window_start(len as int),
{
    if len > REPEAT_LAST_N {
        len - REPEAT_LAST_N
    } else {
        0
    }
}

/// The tokens the repeat penalty applies to: the last 64 when the history is
/// longer, all of them otherwise.
pub fn repeat_penalty_window(all_tokens: &Vec<u32>) -> (r: Vec<u32>)
    ensures
        r@ == all_tokens@.subrange(window_start(all_tokens@.len() as int), all_tokens@.len() as int),
        all_tokens@.len() > REPEAT_LAST_N ==> r@.len() == REPEAT_LAST_N,
        all_tokens@.len() <= REPEAT_LAST_N ==> r@ == all_tokens@,
{
    let start = repeat_penalty_start(all_tokens.len());
    let mut r: Vec<u32> = Vec::new();
    let mut i = start;
    while i < all_tokens.len()
        invariant
            start <= i <= all_tokens@.len(),
            start == window_start(all_tokens@.len() as int),
            r@ == all_tokens@.subrange(start as int, i as int),
        decreases all_tokens@.len() - i,
    {
        r.push(all_tokens[i]);
        i = i + 1;
        assert(r@ =~= all_tokens@.subrange(start as int, i as int));
    }
    assert(all_tokens@.subrange(0, all_tokens@.len() as int) =~= all_tokens@);
    r
}

/// The mathematical state of one generation.
pub struct GenerationView {
    pub prompt_tokens: nat,
    /// How many completion tokens may be sampled in all.
    pub limit: nat,
    pub eos_token: u32,
    /// Every sampled token, the end-of-sequence token included.
    pub tokens: Seq<u32>,
    /// The decoded text of every sampled token but the end-of-sequence one.
    pub content: Seq<char>,
    /// `None` while generation goes on.
    pub finish: Option<FinishReason>,
}

/// The completion budget: the prefill token plus `max_tokens` decode steps,
/// kept small enough that every position fits in `usize`.
pub open spec fn budget(prompt_tokens: nat, max_tokens: Option<usize>) -> nat {
    let steps: nat = match max_tokens {
        Some(m) => m as nat,
        None => DEFAULT_MAX_TOKENS as nat,
    };
    let room: nat = (usize::MAX - prompt_tokens) as nat;
    if steps + 1 <= room {
        steps + 1
    } else {
        room
    }
}

/// The state before the first token.
pub open spec fn initial(prompt_tokens: nat, max_tokens: Option<usize>, eos_token: u32) -> GenerationView {
    let limit = budget(prompt_tokens, max_tokens);
    GenerationView {
        prompt_tokens,
        limit,
        eos_token,
        tokens: Seq::empty(),
        content: Seq::empty(),
        finish: if limit == 0 { Some(FinishReason::Length) } else { None },
    }
}

/// Whether `token` ends generation: the end-of-sequence token sampled in the
/// decode loop. The prefill token, the first one, always joins the answer.
pub open spec fn ends(g: GenerationView, token: u32) -> bool {
    g.tokens.len() > 0 && token == g.eos_token
}

/// The text that a sampled token contributes: none for the token that ends
/// generation.
pub open spec fn emitted(g: GenerationView, token: u32, fragment: Seq<char>) -> Option<Seq<char>> {
    if ends(g, token) {
        None
    } else {
        Some(fragment)
    }
}

/// The state after sampling `token`, whose decoded text is `fragment`.
pub open spec fn step(g: GenerationView, token: u32, fragment: Seq<char>) -> GenerationView {
    let tokens = g.tokens.push(token);
    if ends(g, token) {
        GenerationView { tokens, finish: Some(FinishReason::Stop), ..g }
    } else {
        GenerationView {
            tokens,
            content: g.content + fragment,
            finish: if tokens.len() >= g.limit { Some(FinishReason::Length) } else { None },
            ..g
        }
    }
}

/// The state after a sequence of sampled tokens; tokens after the end are ignored.
pub open spec fn run_events(g: GenerationView, events: Seq<(u32, Seq<char>)>) -> GenerationView
    decreases events.len(),
{
    if events.len() == 0 || g.finish is Some {
        g
    } else {
        run_events(step(g, events[0].0, events[0].1), events.drop_first())
    }
}

/// The contents of the chunks a stream emits for a sequence of sampled tokens.
pub open spec fn stream_fragments(g: GenerationView, events: Seq<(u32, Seq<char>)>) -> Seq<
    Seq<char>,
>
    decreases events.len(),
{
    if events.len() == 0 || g.finish is Some {
        Seq::empty()
    } else {
        let here: Seq<Seq<char>> = match emitted(g, events[0].0, events[0].1) {
            Some(f) => seq![f],
            None => Seq::empty(),
        };
        here + stream_fragments(step(g, events[0].0, events[0].1), events.drop_first())
    }
}

proof fn lemma_concat_prepend(head: Seq<Seq<char>>, rest: Seq<Seq<char>>)
    ensures
        concat(head + rest) == concat(head) + concat(rest),
    decreases rest.len(),
{
    if rest.len() == 0 {
        assert(head + rest =~= head);
        assert(concat(head) + Seq::<char>::empty() =~= concat(head));
    } else {
        lemma_concat_prepend(head, rest.drop_last());
        assert((head + rest).drop_last() =~= head + rest.drop_last());
        assert(concat(head) + concat(rest.drop_last()) + rest.last() =~= concat(head) + (concat(
            rest.drop_last(),
        ) + rest.last()));
    }
}

/// Concatenating the contents of all streamed chunks gives the text that the
/// aggregated response reports, for the same sampled tokens.
pub proof fn law_stream_aggregation(g: GenerationView, events: Seq<(u32, Seq<char>)>)
    ensures
        run_events(g, events).content == g.content + concat(stream_fragments(g, events)),
    decreases events.len(),
{
    if events.len() == 0 || g.finish is Some {
        assert(g.content + Seq::<char>::empty() =~= g.content);
    } else {
        let (t, f) = events[0];
        let next = step(g, t, f);
        law_stream_aggregation(next, events.drop_first());
        let rest = stream_fragments(next, events.drop_first());
        match emitted(g, t, f) {
            Some(x) => {
                lemma_concat_prepend(seq![x], rest);
                assert(seq![x].drop_last() =~= Seq::<Seq<char>>::empty());
                assert(concat(seq![x]) == concat(Seq::<Seq<char>>::empty()) + x);
                assert(Seq::<char>::empty() + x =~= x);
                assert(g.content + x + concat(rest) =~= g.content + (x + concat(rest)));
            },
            None => {
                assert(Seq::<Seq<char>>::empty() + rest =~= rest);
            },
        }
    }
}

/// The state of one generation: what was sampled and decoded so far.
pub struct Generation {
    pub prompt_tokens: usize,
    pub limit: usize,
    pub eos_token: u32,
    pub all_tokens: Vec<u32>,
    pub content: String,
    pub finish: Option<FinishReason>,
}

impl View for Generation {
    type V = GenerationView;

    open spec fn view(&self) -> GenerationView {
        GenerationView {
            prompt_tokens: self.prompt_tokens as nat,
            limit: self.limit as nat,
            eos_token: self.eos_token,
            tokens: self.all_tokens@,
            content: self.content@,
            finish: self.finish,
        }
    }
}

impl Generation {
    pub open spec fn wf(&self) -> bool {
        &&& self.prompt_tokens + self.limit <= usize::MAX
        &&& self.all_tokens@.len() <= self.limit
        &&& self.finish is None ==> self.all_tokens@.len() < self.limit
    }

    /// A generation over a prompt of `prompt_tokens` tokens.
    pub fn new(prompt_tokens: usize, max_tokens: Option<usize>, eos_token: u32) -> (r: Generation)
        ensures
            r.wf(),
            r@ == initial(prompt_tokens as nat, max_tokens, eos_token),
    {
        let steps: usize = match max_tokens {
            Some(m) => m,
            None => DEFAULT_MAX_TOKENS,
        };
        let room: usize = usize::MAX - prompt_tokens;
        let limit: usize = if steps < room {
            steps + 1
        } else {
            room
        };
        let r = Generation {
            prompt_tokens,
            limit,
            eos_token,
            all_tokens: Vec::new(),
            content: String::new(),
            finish: if limit == 0 {
                Some(FinishReason::Length)
            } else {
                None
            },
        };
        assert(r@ =~= initial(prompt_tokens as nat, max_tokens, eos_token));
        r
    }

    pub fn is_finished(&self) -> (r: bool)
        ensures
            r == self@.finish is Some,
    {
        self.finish.is_some()
    }

    /// Records a sampled token and its decoded text; returns the text that
    /// joins the answer, or `None` for an end-of-sequence token sampled after the prefill token.
    pub fn accept(&mut self, token: u32, fragment: String) -> (r: Option<String>)
        requires
            old(self).wf(),
            old(self)@.finish is None,
        ensures
            final(self).wf(),
            final(self)@ == step(old(self)@, token, fragment@),
            match (r, emitted(old(self)@, token, fragment@)) {
                (Some(s), Some(f)) => s@ == f,
                (None, None) => true,
                _ => false,
            },
    {
        let decoding = self.all_tokens.len() > 0;
        self.all_tokens.push(token);
        if decoding && token == self.eos_token {
            self.finish = Some(FinishReason::Stop);
            None
        } else {
            self.content.append(fragment.as_str());
            if self.all_tokens.len() >= self.limit {
                self.finish = Some(FinishReason::Length);
            }
            Some(fragment)
        }
    }

    /// The position at which the latest token is fed back to the model.
    pub fn next_position(&self) -> (r: usize)
        requires
            self.wf(),
            self.all_tokens@.len() > 0,
        ensures
            r == self.prompt_tokens + self.all_tokens@.len() - 1,
    {
        self.prompt_tokens + (self.all_tokens.len() - 1)
    }

    /// The latest sampled token.
    pub fn last_token(&self) -> (r: Option<u32>)
        ensures
            self.all_tokens@.len() == 0 ==> r is None,
            self.all_tokens@.len() > 0 ==> r == Some(self.all_tokens@.last()),
    {
        if self.all_tokens.len() == 0 {
            None
        } else {
            Some(self.all_tokens[self.all_tokens.len() - 1])
        }
    }

    /// The tokens the repeat penalty applies to before the next sample.
    pub fn penalty_window(&self) -> (r: Vec<u32>)
        ensures
            r@ == self.all_tokens@.subrange(
                window_start(self.all_tokens@.len() as int),
                self.all_tokens@.len() as int,
            ),
    {
        repeat_penalty_window(&self.all_tokens)
    }

    /// The token counts: every sampled token is a completion token.
    pub fn usage(&self) -> (u: ChatCompleteUsage)
        requires
            self.wf(),
        ensures
            u.prompt_tokens == self.prompt_tokens,
            u.completion_tokens == self.all_tokens@.len(),
            u.total_tokens == u.prompt_tokens + u.completion_tokens,
    {
        let completion = self.all_tokens.len();
        ChatCompleteUsage {
            completion_tokens: completion,
            prompt_tokens: self.prompt_tokens,
            total_tokens: self.prompt_tokens + completion,
        }
    }

    /// The finished generation as the single choice of `base`, with its usage.
    pub fn into_response(self, base: ChatCompletionResponse) -> (r: ChatCompletionResponse)
        requires
            self.wf(),
            self@.finish is Some,
        ensures
            r.id == base.id,
            r.created == base.created,
            r.model == base.model,
            r.system_fingerprint == base.system_fingerprint,
            r.object == base.object,
            r.choices@.len() == base.choices@.len() + 1,
            r.choices@.last().index == 0,
            r.choices@.last().finish_reason == self@.finish.unwrap(),
            r.choices@.last().message.content == Some(self.content),
            r.usage.prompt_tokens == self.prompt_tokens,
            r.usage.completion_tokens == self.all_tokens@.len(),
            r.usage.total_tokens == r.usage.prompt_tokens + r.usage.completion_tokens,
    {
        let usage = self.usage();
        let finish_reason = match self.finish {
            Some(f) => f,
            None => FinishReason::Length,
        };
        let mut response = base;
        response.choices.push(
            ChatCompletionChoice {
                finish_reason,
                index: 0,
                message: AssistantMessage {
                    content: Some(self.content),
                    name: None,
                    tool_calls: Vec::new(),
                },
            },
        );
        response.usage = usage;
        response
    }
}

/// A choice that carries one streamed piece, or none in the terminal chunk.
pub open spec fn chunk_choice_ok(c: ChatCompletionChoice, content: Option<Seq<char>>) -> bool {
    &&& c.index == 0
    &&& c.message.name is None
    &&& c.message.tool_calls@.len() == 0
    &&& match content {
        Some(f) => c.finish_reason == FinishReason::Null && c.message.content is Some
            && c.message.content.unwrap()@ == f,
        None => c.finish_reason == FinishReason::Stop && c.message.content is None,
    }
}

/// The chunks of one streamed completion: one per decoded piece, then a
/// terminal chunk without content.
pub struct ChatStream {
    pub response: ChatCompletionResponse,
    pub generation: Generation,
    /// Whether the terminal chunk went out.
    pub closed: bool,
}

fn stream_chunk(response: &ChatCompletionResponse, content: Option<String>) -> (r:
    ChatCompletionResponseChunk)
    ensures
        r.id == response.id,
        r.created == response.created,
        r.model == response.model,
        r.system_fingerprint == response.system_fingerprint,
        r.object@ == "chat.completion.chunk"@,
        r.choices@.len() == 1,
        chunk_choice_ok(
            r.choices@[0],
            match content {
                Some(s) => Some(s@),
                None => None,
            },
        ),
{
    let finish_reason = if content.is_some() {
        FinishReason::Null
    } else {
        FinishReason::Stop
    };
    let choice = ChatCompletionChoice {
        finish_reason,
        index: 0,
        message: AssistantMessage { content, name: None, tool_calls: Vec::new() },
    };
    let r = ChatCompletionResponseChunk::from_response(response, vec![choice]);
    r
}

impl ChatStream {
    pub fn new(response: ChatCompletionResponse, generation: Generation) -> (r: ChatStream)
        ensures
            r.response == response,
            r.generation == generation,
            !r.closed,
    {
        ChatStream { response, generation, closed: false }
    }

    /// Whether no chunk is left to emit.
    pub fn is_done(&self) -> (r: bool)
        ensures
            r == self.closed,
    {
        self.closed
    }

    /// Records a sampled token and returns its chunk: the decoded piece, or the
    /// terminal chunk for an end-of-sequence token after the prefill token.
    pub fn on_token(&mut self, token: u32, fragment: String) -> (r: ChatCompletionResponseChunk)
        requires
            old(self).generation.wf(),
            old(self).generation@.finish is None,
            !old(self).closed,
        ensures
            final(self).generation.wf(),
            final(self).generation@ == step(old(self).generation@, token, fragment@),
            final(self).closed == ends(old(self).generation@, token),
            final(self).response == old(self).response,
            r.id == old(self).response.id,
            r.created == old(self).response.created,
            r.model == old(self).response.model,
            r.system_fingerprint == old(self).response.system_fingerprint,
            r.object@ == "chat.completion.chunk"@,
            r.choices@.len() == 1,
            chunk_choice_ok(r.choices@[0], emitted(old(self).generation@, token, fragment@)),
    {
        let piece = self.generation.accept(token, fragment);
        if piece.is_none() {
            self.closed = true;
        }
        stream_chunk(&self.response, piece)
    }

    /// The terminal chunk once the budget ran out, if it has not gone out yet.
    pub fn close(&mut self) -> (r: Option<ChatCompletionResponseChunk>)
        ensures
            final(self).generation == old(self).generation,
            final(self).response == old(self).response,
            final(self).closed == (old(self).closed || old(self).generation@.finish is Some),
            r is Some <==> (!old(self).closed && old(self).generation@.finish is Some),
            r is Some ==> r.unwrap().id == old(self).response.id && r.unwrap().created == old(
                self,
            ).response.created && r.unwrap().model == old(self).response.model
                && r.unwrap().system_fingerprint == old(self).response.system_fingerprint
                && r.unwrap().object@ == "chat.completion.chunk"@
                && r.unwrap().choices@.len() == 1 && chunk_choice_ok(r.unwrap().choices@[0], None),
    {
        if !self.closed && self.generation.is_finished() {
            self.closed = true;
            Some(stream_chunk(&self.response, None))
        } else {
            None
        }
    }
}

} // verus!
