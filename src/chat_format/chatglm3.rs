use super::{assistant_content, assistant_text, concat, holds_tool, lemma_concat_step};
use crate::messages::{has_tool_turn, ChatMessage, ChatMessages, TemplateError};
use vstd::prelude::*;

verus! {

/// One turn, tagged by its role.
pub open spec fn chatglm3_turn(m: ChatMessage) -> Seq<char> {
    match m {
        ChatMessage::User(u) => "<|user|>\n"@ + u.content@,
        ChatMessage::Assistant(a) => "<|assistant|>\n"@ + assistant_text(a),
        ChatMessage::Tool(_) => Seq::empty(),
    }
}

pub open spec fn chatglm3_turns(chat: Seq<ChatMessage>) -> Seq<Seq<char>> {
    chat.map_values(|m: ChatMessage| chatglm3_turn(m))
}

/// The generation prefix and the system block, the turns, then the tag that
/// opens the assistant's reply.
pub open spec fn chatglm3_prompt(system: Seq<char>, chat: Seq<ChatMessage>) -> Seq<char> {
    "[gMASK]sop<|system|>\n"@ + system + concat(chatglm3_turns(chat)) + "<|assistant|>"@
}

pub fn transform(message: &ChatMessage) -> (r: String)
    requires
        !(message is Tool),
    ensures
        r@ == chatglm3_turn(*message),
{
    let mut out = String::new();
    match message {
        ChatMessage::User(m) => {
            out.append("<|user|>\n");
            out.append(m.content.as_str());
        },
        ChatMessage::Assistant(m) => {
            let text = assistant_content(m);
            out.append("<|assistant|>\n");
            out.append(text.as_str());
        },
        ChatMessage::Tool(_) => {},
    }
    assert(out@ =~= chatglm3_turn(*message));
    out
}

pub fn format_messages(messages: ChatMessages) -> (r: Result<String, TemplateError>)
    ensures
        match r {
            Ok(p) => !has_tool_turn(messages.chat@) && p@ == chatglm3_prompt(
                messages.system.content@,
                messages.chat@,
            ),
            Err(e) => has_tool_turn(messages.chat@) && e == TemplateError::ToolUnsupported,
        },
{
    if holds_tool(&messages.chat) {
        return Err(TemplateError::ToolUnsupported);
    }
    let chat = &messages.chat;
    let mut body = String::new();
    let mut i: usize = 0;
    while i < chat.len()
        invariant
            i <= chat@.len(),
            !has_tool_turn(chat@),
            body@ == concat(chatglm3_turns(chat@).take(i as int)),
        decreases chat@.len() - i,
    {
        assert(!(chat@[i as int] is Tool));
        let piece = transform(&chat[i]);
        proof {
            lemma_concat_step(chatglm3_turns(chat@), i as int);
        }
        body.append(piece.as_str());
        i = i + 1;
    }
    assert(chatglm3_turns(chat@).take(i as int) =~= chatglm3_turns(chat@));
    let mut out = String::new();
    out.append("[gMASK]sop<|system|>\n");
    out.append(messages.system.content.as_str());
    out.append(body.as_str());
    out.append("<|assistant|>");
    assert(out@ =~= chatglm3_prompt(messages.system.content@, messages.chat@));
    Ok(out)
}

pub open spec fn chatglm3_pre(m: ChatMessage) -> Seq<char> {
    match m {
        ChatMessage::User(_) => "<|user|>\n"@,
        ChatMessage::Assistant(_) => "<|assistant|>\n"@,
        ChatMessage::Tool(_) => Seq::empty(),
    }
}

pub proof fn lemma_chatglm3_turn_shape(m: ChatMessage)
    ensures
        chatglm3_turn(m) == chatglm3_pre(m) + super::turn_content(m) + Seq::<char>::empty(),
{
    assert(chatglm3_turn(m) =~= chatglm3_pre(m) + super::turn_content(m) + Seq::<char>::empty());
}

} // verus!
