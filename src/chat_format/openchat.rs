use super::{assistant_content, assistant_text, holds_tool, joined, lemma_joined_step};
use crate::messages::{has_tool_turn, ChatMessage, ChatMessages, TemplateError};
use vstd::prelude::*;

verus! {

pub open spec fn openchat_turn(m: ChatMessage) -> Seq<char> {
    match m {
        ChatMessage::User(u) => "<s>[INST]\n"@ + u.content@ + "\n"@,
        ChatMessage::Assistant(a) => "[/INST]\n"@ + assistant_text(a) + "\n"@,
        ChatMessage::Tool(_) => Seq::empty(),
    }
}

pub open spec fn openchat_turns(chat: Seq<ChatMessage>) -> Seq<Seq<char>> {
    chat.map_values(|m: ChatMessage| openchat_turn(m))
}

/// The system block, then the turns joined by `</s>` and a newline, then a closing `</s>`.
pub open spec fn openchat_prompt(system: Seq<char>, chat: Seq<ChatMessage>) -> Seq<char> {
    "<s>[INST] <<SYS>>\n"@ + system + "\n<</SYS>>"@ + "\n"@ + joined(openchat_turns(chat), "</s>\n"@)
        + "\n</s>"@
}

pub fn transform(message: &ChatMessage) -> (r: String)
    requires
        !(message is Tool),
    ensures
        r@ == openchat_turn(*message),
{
    let mut out = String::new();
    match message {
        ChatMessage::User(m) => {
            out.append("<s>[INST]\n");
            out.append(m.content.as_str());
            out.append("\n");
        },
        ChatMessage::Assistant(m) => {
            let text = assistant_content(m);
            out.append("[/INST]\n");
            out.append(text.as_str());
            out.append("\n");
        },
        ChatMessage::Tool(_) => {},
    }
    assert(out@ =~= openchat_turn(*message));
    out
}

pub fn format_messages(messages: ChatMessages) -> (r: Result<String, TemplateError>)
    ensures
        match r {
            Ok(p) => !has_tool_turn(messages.chat@) && p@ == openchat_prompt(
                messages.system.content@,
                messages.chat@,
            ),
            Err(e) => has_tool_turn(messages.chat@) && e == TemplateError::ToolUnsupported,
        },
{
    if holds_tool(&messages.chat) {
        return Err(TemplateError::ToolUnsupported);
    }
    let chat = &messages.chat;
    let mut body = String::new();
    let mut i: usize = 0;
    while i < chat.len()
        invariant
            i <= chat@.len(),
            !has_tool_turn(chat@),
            body@ == joined(openchat_turns(chat@).take(i as int), "</s>\n"@),
        decreases chat@.len() - i,
    {
        assert(!(chat@[i as int] is Tool));
        let piece = transform(&chat[i]);
        proof {
            lemma_joined_step(openchat_turns(chat@), "</s>\n"@, i as int);
        }
        if i > 0 {
            body.append("</s>\n");
        } else {
            assert(body@ =~= Seq::<char>::empty());
        }
        body.append(piece.as_str());
        i = i + 1;
    }
    assert(openchat_turns(chat@).take(i as int) =~= openchat_turns(chat@));
    let mut out = String::new();
    out.append("<s>[INST] <<SYS>>\n");
    out.append(messages.system.content.as_str());
    out.append("\n<</SYS>>");
    out.append("\n");
    out.append(body.as_str());
    out.append("\n</s>");
    assert(out@ =~= openchat_prompt(messages.system.content@, messages.chat@));
    Ok(out)
}

pub open spec fn openchat_pre(m: ChatMessage) -> Seq<char> {
    match m {
        ChatMessage::User(_) => "<s>[INST]\n"@,
        ChatMessage::Assistant(_) => "[/INST]\n"@,
        ChatMessage::Tool(_) => Seq::empty(),
    }
}

pub open spec fn openchat_post(m: ChatMessage) -> Seq<char> {
    match m {
        ChatMessage::Tool(_) => Seq::empty(),
        _ => "\n"@,
    }
}

pub proof fn lemma_openchat_turn_shape(m: ChatMessage)
    ensures
        openchat_turn(m) == openchat_pre(m) + super::turn_content(m) + openchat_post(m),
{
    assert(openchat_turn(m) =~= openchat_pre(m) + super::turn_content(m) + openchat_post(m));
}

} // verus!
