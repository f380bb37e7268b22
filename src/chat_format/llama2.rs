use super::{
    assistant_content, assistant_text, holds_tool, concat, is_first_user, lemma_concat_step,
};
use crate::messages::{has_tool_turn, ChatMessage, ChatMessages, TemplateError};
use vstd::prelude::*;

verus! {

/// One turn; the first user turn continues the instruction block that the
/// system prompt opened, so its own opening is left out.
pub open spec fn llama2_turn(m: ChatMessage, first_user: bool) -> Seq<char> {
    match m {
        ChatMessage::User(u) => if first_user {
            u.content@ + "\n[/INST]"@
        } else {
            "<s>[INST]\n"@ + u.content@ + "\n[/INST]"@
        },
        ChatMessage::Assistant(a) => "\n"@ + assistant_text(a) + "\n</s>\n"@,
        ChatMessage::Tool(_) => Seq::empty(),
    }
}

pub open spec fn llama2_turns(chat: Seq<ChatMessage>) -> Seq<Seq<char>> {
    Seq::new(chat.len(), |i: int| llama2_turn(chat[i], is_first_user(chat, i)))
}

pub open spec fn llama2_prompt(system: Seq<char>, chat: Seq<ChatMessage>) -> Seq<char> {
    "<s>[INST] <<SYS>>\n"@ + system + "\n<</SYS>>"@ + "\n"@ + concat(llama2_turns(chat))
}

pub fn transform(message: &ChatMessage, first_user: bool) -> (r: String)
    requires
        !(message is Tool),
    ensures
        r@ == llama2_turn(*message, first_user),
{
    let mut out = String::new();
    match message {
        ChatMessage::User(m) => {
            if !first_user {
                out.append("<s>[INST]\n");
            }
            out.append(m.content.as_str());
            out.append("\n[/INST]");
        },
        ChatMessage::Assistant(m) => {
            let text = assistant_content(m);
            out.append("\n");
            out.append(text.as_str());
            out.append("\n</s>\n");
        },
        ChatMessage::Tool(_) => {},
    }
    assert(out@ =~= llama2_turn(*message, first_user));
    out
}

pub fn format_messages(messages: ChatMessages) -> (r: Result<String, TemplateError>)
    ensures
        match r {
            Ok(p) => !has_tool_turn(messages.chat@) && p@ == llama2_prompt(
                messages.system.content@,
                messages.chat@,
            ),
            Err(e) => has_tool_turn(messages.chat@) && e == TemplateError::ToolUnsupported,
        },
{
    if holds_tool(&messages.chat) {
        return Err(TemplateError::ToolUnsupported);
    }
    let chat = &messages.chat;
    let mut body = String::new();
    let mut seen_user = false;
    let mut i: usize = 0;
    while i < chat.len()
        invariant
            i <= chat@.len(),
            !has_tool_turn(chat@),
            seen_user <==> exists|j: int| 0 <= j < i && (#[trigger] chat@[j]) is User,
            body@ == concat(llama2_turns(chat@).take(i as int)),
        decreases chat@.len() - i,
    {
        assert(!(chat@[i as int] is Tool));
        let is_user = matches!(chat[i], ChatMessage::User(_));
        let first = is_user && !seen_user;
        assert(first == is_first_user(chat@, i as int));
        let piece = transform(&chat[i], first);
        proof {
            lemma_concat_step(llama2_turns(chat@), i as int);
        }
        body.append(piece.as_str());
        if is_user {
            seen_user = true;
        }
        i = i + 1;
    }
    assert(llama2_turns(chat@).take(i as int) =~= llama2_turns(chat@));
    let mut out = String::new();
    out.append("<s>[INST] <<SYS>>\n");
    out.append(messages.system.content.as_str());
    out.append("\n<</SYS>>");
    out.append("\n");
    out.append(body.as_str());
    assert(out@ =~= llama2_prompt(messages.system.content@, messages.chat@));
    Ok(out)
}

pub open spec fn llama2_pre(m: ChatMessage, first_user: bool) -> Seq<char> {
    match m {
        ChatMessage::User(_) => if first_user {
            Seq::empty()
        } else {
            "<s>[INST]\n"@
        },
        ChatMessage::Assistant(_) => "\n"@,
        ChatMessage::Tool(_) => Seq::empty(),
    }
}

pub open spec fn llama2_post(m: ChatMessage) -> Seq<char> {
    match m {
        ChatMessage::User(_) => "\n[/INST]"@,
        ChatMessage::Assistant(_) => "\n</s>\n"@,
        ChatMessage::Tool(_) => Seq::empty(),
    }
}

pub proof fn lemma_llama2_turn_shape(m: ChatMessage, first_user: bool)
    ensures
        llama2_turn(m, first_user) == llama2_pre(m, first_user) + super::turn_content(m)
            + llama2_post(m),
{
    assert(llama2_turn(m, first_user) =~= llama2_pre(m, first_user) + super::turn_content(m)
        + llama2_post(m));
}

} // verus!
