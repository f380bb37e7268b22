use super::{assistant_content, assistant_text, holds_tool, concat, lemma_concat_step};
use crate::messages::{has_tool_turn, ChatMessage, ChatMessages, TemplateError};
use vstd::prelude::*;

verus! {

/// One turn; a user turn opens the assistant's reply, which the next turn
/// fills and closes.
pub open spec fn chatml_turn(m: ChatMessage) -> Seq<char> {
    match m {
        ChatMessage::User(u) => "<|im_start|>user\n"@ + u.content@
            + "\n<|im_end|>\n<|im_start|>assistant"@,
        ChatMessage::Assistant(a) => "\n"@ + assistant_text(a) + "\n<|im_end|>"@ + "\n"@,
        ChatMessage::Tool(_) => Seq::empty(),
    }
}

pub open spec fn chatml_turns(chat: Seq<ChatMessage>) -> Seq<Seq<char>> {
    chat.map_values(|m: ChatMessage| chatml_turn(m))
}

pub open spec fn chatml_prompt(system: Seq<char>, chat: Seq<ChatMessage>) -> Seq<char> {
    "<|im_start|>system\n"@ + system + "\n<|im_end|>"@ + "\n"@ + concat(chatml_turns(chat))
        + "\n"@
}

pub fn transform(message: &ChatMessage) -> (r: String)
    requires
        !(message is Tool),
    ensures
        r@ == chatml_turn(*message),
{
    let mut out = String::new();
    match message {
        ChatMessage::User(m) => {
            out.append("<|im_start|>user\n");
            out.append(m.content.as_str());
            out.append("\n<|im_end|>\n<|im_start|>assistant");
        },
        ChatMessage::Assistant(m) => {
            let text = assistant_content(m);
            out.append("\n");
            out.append(text.as_str());
            out.append("\n<|im_end|>");
            out.append("\n");
        },
        ChatMessage::Tool(_) => {},
    }
    assert(out@ =~= chatml_turn(*message));
    out
}

pub fn format_messages(messages: ChatMessages) -> (r: Result<String, TemplateError>)
    ensures
        match r {
            Ok(p) => !has_tool_turn(messages.chat@) && p@ == chatml_prompt(
                messages.system.content@,
                messages.chat@,
            ),
            Err(e) => has_tool_turn(messages.chat@) && e == TemplateError::ToolUnsupported,
        },
{
    if holds_tool(&messages.chat) {
        return Err(TemplateError::ToolUnsupported);
    }
    let chat = &messages.chat;
    let mut body = String::new();
    let mut i: usize = 0;
    while i < chat.len()
        invariant
            i <= chat@.len(),
            !has_tool_turn(chat@),
            body@ == concat(chatml_turns(chat@).take(i as int)),
        decreases chat@.len() - i,
    {
        assert(!(chat@[i as int] is Tool));
        let piece = transform(&chat[i]);
        proof {
            lemma_concat_step(chatml_turns(chat@), i as int);
        }
        body.append(piece.as_str());
        i = i + 1;
    }
    assert(chatml_turns(chat@).take(i as int) =~= chatml_turns(chat@));
    let mut out = String::new();
    out.append("<|im_start|>system\n");
    out.append(messages.system.content.as_str());
    out.append("\n<|im_end|>");
    out.append("\n");
    out.append(body.as_str());
    out.append("\n");
    assert(out@ =~= chatml_prompt(messages.system.content@, messages.chat@));
    Ok(out)
}

pub open spec fn chatml_pre(m: ChatMessage) -> Seq<char> {
    match m {
        ChatMessage::User(_) => "<|im_start|>user\n"@,
        ChatMessage::Assistant(_) => "\n"@,
        ChatMessage::Tool(_) => Seq::empty(),
    }
}

pub open spec fn chatml_post(m: ChatMessage) -> Seq<char> {
    match m {
        ChatMessage::User(_) => "\n<|im_end|>\n<|im_start|>assistant"@,
        ChatMessage::Assistant(_) => "\n<|im_end|>"@ + "\n"@,
        ChatMessage::Tool(_) => Seq::empty(),
    }
}

pub proof fn lemma_chatml_turn_shape(m: ChatMessage)
    ensures
        chatml_turn(m) == chatml_pre(m) + super::turn_content(m) + chatml_post(m),
{
    assert(chatml_turn(m) =~= chatml_pre(m) + super::turn_content(m) + chatml_post(m));
}

} // verus!
