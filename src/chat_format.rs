//! Rendering a conversation into the prompt text of one model family.

pub mod alpaca;
pub mod chatglm3;
pub mod chatml;
pub mod llama2;
pub mod openchat;

use crate::messages::{
    has_tool_turn, split_result, AssistantMessage, ChatCompletionMessage, ChatMessage,
    ChatMessages, TemplateError,
};
use vstd::prelude::*;

verus! {

/// The prompt family of a chat model.
#[derive(Debug, Clone, Copy, PartialEq, Eq, Structural)]
pub enum ChatFormat {
    Llama2,
    Alpaca,
    ChatML,
    ChatGLM3,
    OpenChat,
}

/// The parts laid end to end.
pub open spec fn concat(parts: Seq<Seq<char>>) -> Seq<char>
    decreases parts.len(),
{
    if parts.len() == 0 {
        Seq::empty()
    } else {
        concat(parts.drop_last()) + parts.last()
    }
}

/// The parts laid end to end with `sep` between each two neighbours.
pub open spec fn joined(parts: Seq<Seq<char>>, sep: Seq<char>) -> Seq<char>
    decreases parts.len(),
{
    if parts.len() <= 1 {
        concat(parts)
    } else {
        joined(parts.drop_last(), sep) + sep + parts.last()
    }
}

/// The text of an assistant message; an absent content reads as empty.
pub open spec fn assistant_text(a: AssistantMessage) -> Seq<char> {
    match a.content {
        Some(c) => c@,
        None => Seq::empty(),
    }
}

/// Whether the turn at `i` is the first user turn of the conversation.
pub open spec fn is_first_user(chat: Seq<ChatMessage>, i: int) -> bool {
    &&& chat[i] is User
    &&& forall|j: int| 0 <= j < i ==> !(#[trigger] chat[j] is User)
}

/// The prompt of a conversation with this system text and these turns.
pub open spec fn prompt_of(format: ChatFormat, system: Seq<char>, chat: Seq<ChatMessage>) -> Seq<
    char,
> {
    match format {
        ChatFormat::Llama2 => llama2::llama2_prompt(system, chat),
        ChatFormat::Alpaca => alpaca::alpaca_prompt(system, chat),
        ChatFormat::ChatML => chatml::chatml_prompt(system, chat),
        ChatFormat::ChatGLM3 => chatglm3::chatglm3_prompt(system, chat),
        ChatFormat::OpenChat => openchat::openchat_prompt(system, chat),
    }
}

/// What rendering a message list gives: the splitting error, the error for
/// a tool turn, or the prompt.
pub open spec fn format_result(format: ChatFormat, msgs: Seq<ChatCompletionMessage>) -> Result<
    Seq<char>,
    TemplateError,
> {
    match split_result(msgs) {
        Ok((s, c)) => if has_tool_turn(c) {
            Err(TemplateError::ToolUnsupported)
        } else {
            Ok(prompt_of(format, s.content@, c))
        },
        Err(e) => Err(e),
    }
}

/// The end-of-sequence sentinel of each family.
pub open spec fn eos_text(format: ChatFormat) -> Seq<char> {
    match format {
        ChatFormat::Llama2 => "</s>"@,
        ChatFormat::Alpaca => "</s>"@,
        ChatFormat::ChatML => "<|im_end|>"@,
        ChatFormat::ChatGLM3 => "</s>"@,
        ChatFormat::OpenChat => "<|end_of_turn|>"@,
    }
}

pub proof fn lemma_joined_step(parts: Seq<Seq<char>>, sep: Seq<char>, i: int)
    requires
        0 <= i < parts.len(),
    ensures
        joined(parts.take(i + 1), sep) == if i == 0 {
            parts[0]
        } else {
            joined(parts.take(i), sep) + sep + parts[i]
        },
{
    assert(parts.take(i + 1).drop_last() =~= parts.take(i));
    if i == 0 {
        assert(parts.take(0) =~= Seq::<Seq<char>>::empty());
        assert(concat(parts.take(1)) == concat(parts.take(0)) + parts[0]);
        assert(Seq::<char>::empty() + parts[0] =~= parts[0]);
    }
}

pub proof fn lemma_concat_step(parts: Seq<Seq<char>>, i: int)
    requires
        0 <= i < parts.len(),
    ensures
        concat(parts.take(i + 1)) == concat(parts.take(i)) + parts[i],
{
    assert(parts.take(i + 1).drop_last() =~= parts.take(i));
}

/// The text of an assistant message, as an owned string.
pub fn assistant_content(a: &AssistantMessage) -> (r: String)
    ensures
        r@ == assistant_text(*a),
{
    match &a.content {
        Some(c) => c.clone(),
        None => String::new(),
    }
}

/// Whether the turns hold a tool message.
pub fn holds_tool(chat: &Vec<ChatMessage>) -> (r: bool)
    ensures
        r == has_tool_turn(chat@),
{
    let mut i: usize = 0;
    while i < chat.len()
        invariant
            i <= chat@.len(),
            forall|j: int| 0 <= j < i ==> !(#[trigger] chat@[j] is Tool),
        decreases chat@.len() - i,
    {
        if let ChatMessage::Tool(_) = &chat[i] {
            assert(chat@[i as int] is Tool);
            return true;
        }
        i = i + 1;
    }
    false
}

impl ChatFormat {
    /// Renders a message list into this family's prompt.
    pub fn format_messages(&self, messages: Vec<ChatCompletionMessage>) -> (r: Result<
        String,
        TemplateError,
    >)
        ensures
            match (r, format_result(*self, messages@)) {
                (Ok(p), Ok(q)) => p@ == q,
                (Err(e), Err(f)) => e == f,
                _ => false,
            },
    {
        let ghost msgs = messages@;
        let messages = match ChatMessages::try_from(messages) {
            Ok(m) => m,
            Err(e) => {
                return Err(e);
            },
        };
        match self {
            ChatFormat::Llama2 => llama2::format_messages(messages),
            ChatFormat::Alpaca => alpaca::format_messages(messages),
            ChatFormat::ChatML => chatml::format_messages(messages),
            ChatFormat::ChatGLM3 => chatglm3::format_messages(messages),
            ChatFormat::OpenChat => openchat::format_messages(messages),
        }
    }

    /// The end-of-sequence sentinel text, resolved to a token when a model loads.
    pub fn get_eos_token(&self) -> (r: String)
        ensures
            r@ == eos_text(*self),
    {
        match self {
            ChatFormat::Llama2 => String::from_str("</s>"),
            ChatFormat::Alpaca => String::from_str("</s>"),
            ChatFormat::ChatML => String::from_str("<|im_end|>"),
            ChatFormat::ChatGLM3 => String::from_str("</s>"),
            ChatFormat::OpenChat => String::from_str("<|end_of_turn|>"),
        }
    }
}

// ---------------------------------------------------------------------------
// Every prompt holds its conversation's texts in order.
/// `parts` laid out between the `gaps`: `g0 p0 g1 p1 ... gn`.
pub open spec fn woven(gaps: Seq<Seq<char>>, parts: Seq<Seq<char>>) -> Seq<char>
    decreases parts.len(),
{
    if parts.len() == 0 {
        gaps[0]
    } else {
        gaps[0] + parts[0] + woven(gaps.drop_first(), parts.drop_first())
    }
}

/// Whether `text` holds every one of `parts`, in order and without overlap.
pub open spec fn contains_in_order(text: Seq<char>, parts: Seq<Seq<char>>) -> bool {
    exists|gaps: Seq<Seq<char>>| gaps.len() == parts.len() + 1 && text == woven(gaps, parts)
}

/// The text that a turn carries: a user's content, an assistant's text.
pub open spec fn turn_content(m: ChatMessage) -> Seq<char> {
    match m {
        ChatMessage::User(u) => u.content@,
        ChatMessage::Assistant(a) => assistant_text(a),
        ChatMessage::Tool(_) => Seq::empty(),
    }
}

pub open spec fn turn_contents(chat: Seq<ChatMessage>) -> Seq<Seq<char>> {
    chat.map_values(|m: ChatMessage| turn_content(m))
}

proof fn lemma_woven_append(gaps: Seq<Seq<char>>, parts: Seq<Seq<char>>, x: Seq<char>)
    requires
        gaps.len() == parts.len() + 1,
    ensures
        woven(gaps.update(parts.len() as int, gaps[parts.len() as int] + x), parts) == woven(
            gaps,
            parts,
        ) + x,
    decreases parts.len(),
{
    let g2 = gaps.update(parts.len() as int, gaps[parts.len() as int] + x);
    if parts.len() > 0 {
        lemma_woven_append(gaps.drop_first(), parts.drop_first(), x);
        assert(g2.drop_first() =~= gaps.drop_first().update(
            parts.drop_first().len() as int,
            gaps.drop_first()[parts.drop_first().len() as int] + x,
        ));
        assert(gaps[0] + parts[0] + (woven(gaps.drop_first(), parts.drop_first()) + x) =~= gaps[0]
            + parts[0] + woven(gaps.drop_first(), parts.drop_first()) + x);
    }
}

proof fn lemma_woven_prepend(gaps: Seq<Seq<char>>, parts: Seq<Seq<char>>, x: Seq<char>)
    requires
        gaps.len() == parts.len() + 1,
    ensures
        woven(gaps.update(0, x + gaps[0]), parts) == x + woven(gaps, parts),
{
    let g2 = gaps.update(0, x + gaps[0]);
    if parts.len() > 0 {
        assert(g2.drop_first() =~= gaps.drop_first());
        assert(x + gaps[0] + parts[0] + woven(gaps.drop_first(), parts.drop_first()) =~= x + (
        gaps[0] + parts[0] + woven(gaps.drop_first(), parts.drop_first())));
    }
}

/// Turns of the shape `pre + content + post`, joined by `sep`, weave the contents.
proof fn lemma_joined_woven(
    pre: Seq<Seq<char>>,
    c: Seq<Seq<char>>,
    post: Seq<Seq<char>>,
    sep: Seq<char>,
) -> (gaps: Seq<Seq<char>>)
    requires
        pre.len() == c.len(),
        post.len() == c.len(),
    ensures
        gaps.len() == c.len() + 1,
        joined(Seq::new(c.len(), |i: int| pre[i] + c[i] + post[i]), sep) == woven(gaps, c),
    decreases c.len(),
{
    let n = c.len();
    let parts = Seq::new(n, |i: int| pre[i] + c[i] + post[i]);
    if n == 0 {
        let g = seq![Seq::<char>::empty()];
        assert(parts =~= Seq::<Seq<char>>::empty());
        g
    } else if n == 1 {
        let g = seq![pre[0], post[0]];
        assert(parts.drop_last() =~= Seq::<Seq<char>>::empty());
        assert(concat(parts) == concat(parts.drop_last()) + parts[0]);
        assert(Seq::<char>::empty() + parts[0] =~= parts[0]);
        assert(g.drop_first() =~= seq![post[0]]);
        assert(c.drop_first() =~= Seq::<Seq<char>>::empty());
        assert(woven(g.drop_first(), c.drop_first()) == post[0]);
        assert(woven(g, c) == g[0] + c[0] + woven(g.drop_first(), c.drop_first()));
        assert(woven(g, c) == pre[0] + c[0] + post[0]);
        assert(joined(parts, sep) == parts[0]);
        g
    } else {
        let g1 = lemma_joined_woven(pre.drop_last(), c.drop_last(), post.drop_last(), sep);
        assert(parts.drop_last() =~= Seq::new(
            (n - 1) as nat,
            |i: int| pre.drop_last()[i] + c.drop_last()[i] + post.drop_last()[i],
        ));
        let x = sep + pre[n - 1];
        let g2 = g1.update((n - 1) as int, g1[(n - 1) as int] + x);
        lemma_woven_append(g1, c.drop_last(), x);
        let g = g2.push(post[n - 1]);
        lemma_woven_split(g, c);
        assert(g.drop_last() =~= g2);
        assert(woven(g1, c.drop_last()) + sep + parts[n - 1] =~= woven(g1, c.drop_last()) + x
            + c[n - 1] + post[n - 1]);
        assert(joined(parts, sep) == joined(parts.drop_last(), sep) + sep + parts[n - 1]);
        assert(joined(parts.drop_last(), sep) == woven(g1, c.drop_last()));
        assert(woven(g, c) == woven(g2, c.drop_last()) + c[n - 1] + post[n - 1]);
        g
    }
}

/// Weaving ends with the last part and the last gap.
proof fn lemma_woven_split(gaps: Seq<Seq<char>>, parts: Seq<Seq<char>>)
    requires
        gaps.len() == parts.len() + 1,
        parts.len() > 0,
    ensures
        woven(gaps, parts) == woven(gaps.drop_last(), parts.drop_last()) + parts.last()
            + gaps.last(),
    decreases parts.len(),
{
    if parts.len() == 1 {
        assert(gaps.drop_first() =~= seq![gaps.last()]);
        assert(parts.drop_last() =~= Seq::<Seq<char>>::empty());
        assert(woven(gaps.drop_first(), parts.drop_first()) == gaps.last());
    } else {
        lemma_woven_split(gaps.drop_first(), parts.drop_first());
        assert(gaps.drop_first().drop_last() =~= gaps.drop_last().drop_first());
        assert(parts.drop_first().drop_last() =~= parts.drop_last().drop_first());
        assert(gaps[0] + parts[0] + (woven(gaps.drop_last().drop_first(), parts.drop_last().drop_first())
            + parts.last() + gaps.last()) =~= gaps[0] + parts[0] + woven(
            gaps.drop_last().drop_first(),
            parts.drop_last().drop_first(),
        ) + parts.last() + gaps.last());
    }
}

proof fn lemma_concat_is_joined(parts: Seq<Seq<char>>)
    ensures
        concat(parts) == joined(parts, Seq::empty()),
    decreases parts.len(),
{
    if parts.len() > 1 {
        lemma_concat_is_joined(parts.drop_last());
        assert(joined(parts.drop_last(), Seq::empty()) + Seq::<char>::empty() =~= joined(
            parts.drop_last(),
            Seq::empty(),
        ));
    }
}

/// A prompt `a + system + b + body + c`, whose body weaves the turn contents,
/// holds the system text and then every turn content, in order.
proof fn lemma_prompt_woven(
    a: Seq<char>,
    system: Seq<char>,
    b: Seq<char>,
    c: Seq<char>,
    g: Seq<Seq<char>>,
    contents: Seq<Seq<char>>,
)
    requires
        g.len() == contents.len() + 1,
    ensures
        contains_in_order(a + system + b + woven(g, contents) + c, seq![system] + contents),
{
    let n = contents.len() as int;
    let g1 = g.update(n, g[n] + c);
    lemma_woven_append(g, contents, c);
    let g2 = g1.update(0, b + g1[0]);
    lemma_woven_prepend(g1, contents, b);
    let gaps = seq![a] + g2;
    let parts = seq![system] + contents;
    assert(gaps.drop_first() =~= g2);
    assert(parts.drop_first() =~= contents);
    assert(a + system + b + woven(g, contents) + c =~= a + system + (b + (woven(g, contents) + c)));
    assert(woven(gaps, parts) == a + system + woven(g2, contents));
    assert(gaps.len() == parts.len() + 1);
}

/// Every chat format renders the system text and then each turn's text, in
/// order, into its prompt.
pub proof fn law_prompt_keeps_contents(format: ChatFormat, system: Seq<char>, chat: Seq<ChatMessage>)
    ensures
        contains_in_order(prompt_of(format, system, chat), seq![system] + turn_contents(chat)),
{
    let n = chat.len();
    let c = turn_contents(chat);
    match format {
        ChatFormat::ChatML => {
            let pre = chat.map_values(|m: ChatMessage| chatml::chatml_pre(m));
            let post = chat.map_values(|m: ChatMessage| chatml::chatml_post(m));
            let g = lemma_joined_woven(pre, c, post, Seq::empty());
            assert forall|i: int| 0 <= i < n implies #[trigger] chatml::chatml_turns(chat)[i] == Seq::new(
                n,
                |k: int| pre[k] + c[k] + post[k],
            )[i] by {
                chatml::lemma_chatml_turn_shape(chat[i]);
            }
            assert(chatml::chatml_turns(chat) =~= Seq::new(n, |k: int| pre[k] + c[k] + post[k]));
            lemma_concat_is_joined(chatml::chatml_turns(chat));
            lemma_prompt_woven("<|im_start|>system\n"@, system, "\n<|im_end|>"@ + "\n"@, "\n"@, g, c);
            assert("<|im_start|>system\n"@ + system + ("\n<|im_end|>"@ + "\n"@) + woven(g, c) + "\n"@
                =~= prompt_of(format, system, chat));
        },
        ChatFormat::Llama2 => {
            let pre = Seq::new(n, |k: int| llama2::llama2_pre(chat[k], is_first_user(chat, k)));
            let post = chat.map_values(|m: ChatMessage| llama2::llama2_post(m));
            let g = lemma_joined_woven(pre, c, post, Seq::empty());
            assert forall|i: int| 0 <= i < n implies #[trigger] llama2::llama2_turns(chat)[i] == Seq::new(
                n,
                |k: int| pre[k] + c[k] + post[k],
            )[i] by {
                llama2::lemma_llama2_turn_shape(chat[i], is_first_user(chat, i));
            }
            assert(llama2::llama2_turns(chat) =~= Seq::new(n, |k: int| pre[k] + c[k] + post[k]));
            lemma_concat_is_joined(llama2::llama2_turns(chat));
            lemma_prompt_woven("<s>[INST] <<SYS>>\n"@, system, "\n<</SYS>>"@ + "\n"@, Seq::empty(), g, c);
            assert("<s>[INST] <<SYS>>\n"@ + system + ("\n<</SYS>>"@ + "\n"@) + woven(g, c) + Seq::<char>::empty()
                =~= prompt_of(format, system, chat));
        },
        ChatFormat::Alpaca => {
            let pre = chat.map_values(|m: ChatMessage| alpaca::alpaca_pre(m));
            let post = chat.map_values(|m: ChatMessage| alpaca::alpaca_post(m));
            let g = lemma_joined_woven(pre, c, post, "</s>"@);
            assert forall|i: int| 0 <= i < n implies #[trigger] alpaca::alpaca_turns(chat)[i] == Seq::new(
                n,
                |k: int| pre[k] + c[k] + post[k],
            )[i] by {
                alpaca::lemma_alpaca_turn_shape(chat[i]);
            }
            assert(alpaca::alpaca_turns(chat) =~= Seq::new(n, |k: int| pre[k] + c[k] + post[k]));
            lemma_prompt_woven(Seq::empty(), system, "\n\n"@, "\n</s>"@, g, c);
            assert(Seq::<char>::empty() + system + "\n\n"@ + woven(g, c) + "\n</s>"@
                =~= prompt_of(format, system, chat));
        },
        ChatFormat::OpenChat => {
            let pre = chat.map_values(|m: ChatMessage| openchat::openchat_pre(m));
            let post = chat.map_values(|m: ChatMessage| openchat::openchat_post(m));
            let g = lemma_joined_woven(pre, c, post, "</s>\n"@);
            assert forall|i: int| 0 <= i < n implies #[trigger] openchat::openchat_turns(chat)[i] == Seq::new(
                n,
                |k: int| pre[k] + c[k] + post[k],
            )[i] by {
                openchat::lemma_openchat_turn_shape(chat[i]);
            }
            assert(openchat::openchat_turns(chat) =~= Seq::new(n, |k: int| pre[k] + c[k] + post[k]));
            lemma_prompt_woven("<s>[INST] <<SYS>>\n"@, system, "\n<</SYS>>"@ + "\n"@, "\n</s>"@, g, c);
            assert("<s>[INST] <<SYS>>\n"@ + system + ("\n<</SYS>>"@ + "\n"@) + woven(g, c) + "\n</s>"@
                =~= prompt_of(format, system, chat));
        },
        ChatFormat::ChatGLM3 => {
            let pre = chat.map_values(|m: ChatMessage| chatglm3::chatglm3_pre(m));
            let post = chat.map_values(|m: ChatMessage| Seq::<char>::empty());
            let g = lemma_joined_woven(pre, c, post, Seq::empty());
            assert forall|i: int| 0 <= i < n implies #[trigger] chatglm3::chatglm3_turns(chat)[i] == Seq::new(
                n,
                |k: int| pre[k] + c[k] + post[k],
            )[i] by {
                chatglm3::lemma_chatglm3_turn_shape(chat[i]);
            }
            assert(chatglm3::chatglm3_turns(chat) =~= Seq::new(n, |k: int| pre[k] + c[k] + post[k]));
            lemma_concat_is_joined(chatglm3::chatglm3_turns(chat));
            lemma_prompt_woven("[gMASK]sop<|system|>\n"@, system, Seq::empty(), "<|assistant|>"@, g, c);
            assert("[gMASK]sop<|system|>\n"@ + system + Seq::<char>::empty() + woven(g, c) + "<|assistant|>"@
                =~= prompt_of(format, system, chat));
        },
    }
}

/// What `format_messages` renders holds the system text and then each user
/// and assistant text, in order.
pub proof fn law_format_keeps_contents(format: ChatFormat, msgs: Seq<ChatCompletionMessage>)
    requires
        format_result(format, msgs) is Ok,
    ensures
        contains_in_order(
            format_result(format, msgs).unwrap(),
            seq![split_result(msgs).unwrap().0.content@] + turn_contents(split_result(msgs).unwrap().1),
        ),
{
    let (s, c) = split_result(msgs).unwrap();
    law_prompt_keeps_contents(format, s.content@, c);
}

} // verus!
