use super::{assistant_content, assistant_text, holds_tool, joined, lemma_joined_step};
use crate::messages::{has_tool_turn, ChatMessage, ChatMessages, TemplateError};
use vstd::prelude::*;

verus! {

pub open spec fn alpaca_turn(m: ChatMessage) -> Seq<char> {
    match m {
        ChatMessage::User(u) => "### Instruction:\n"@ + u.content@ + "\n"@,
        ChatMessage::Assistant(a) => "### Response\n"@ + assistant_text(a) + "\n"@,
        ChatMessage::Tool(_) => Seq::empty(),
    }
}

pub open spec fn alpaca_turns(chat: Seq<ChatMessage>) -> Seq<Seq<char>> {
    chat.map_values(|m: ChatMessage| alpaca_turn(m))
}

/// The system text and a blank line, then the turns joined by `</s>`, then a
/// closing `</s>`.
pub open spec fn alpaca_prompt(system: Seq<char>, chat: Seq<ChatMessage>) -> Seq<char> {
    system + "\n\n"@ + joined(alpaca_turns(chat), "</s>"@) + "\n</s>"@
}

pub fn transform(message: &ChatMessage) -> (r: String)
    requires
        !(message is Tool),
    ensures
        r@ == alpaca_turn(*message),
{
    let mut out = String::new();
    match message {
        ChatMessage::User(m) => {
            out.append("### Instruction:\n");
            out.append(m.content.as_str());
            out.append("\n");
        },
        ChatMessage::Assistant(m) => {
            let text = assistant_content(m);
            out.append("### Response\n");
            out.append(text.as_str());
            out.append("\n");
        },
        ChatMessage::Tool(_) => {},
    }
    assert(out@ =~= alpaca_turn(*message));
    out
}

pub fn format_messages(messages: ChatMessages) -> (r: Result<String, TemplateError>)
    ensures
        match r {
            Ok(p) => !has_tool_turn(messages.chat@) && p@ == alpaca_prompt(
                messages.system.content@,
                messages.chat@,
            ),
            Err(e) => has_tool_turn(messages.chat@) && e == TemplateError::ToolUnsupported,
        },
{
    if holds_tool(&messages.chat) {
        return Err(TemplateError::ToolUnsupported);
    }
    let chat = &messages.chat;
    let mut body = String::new();
    let mut i: usize = 0;
    while i < chat.len()
        invariant
            i <= chat@.len(),
            !has_tool_turn(chat@),
            body@ == joined(alpaca_turns(chat@).take(i as int), "</s>"@),
        decreases chat@.len() - i,
    {
        assert(!(chat@[i as int] is Tool));
        let piece = transform(&chat[i]);
        proof {
            lemma_joined_step(alpaca_turns(chat@), "</s>"@, i as int);
        }
        if i > 0 {
            body.append("</s>");
        } else {
            assert(body@ =~= Seq::<char>::empty());
        }
        body.append(piece.as_str());
        i = i + 1;
    }
    assert(alpaca_turns(chat@).take(i as int) =~= alpaca_turns(chat@));
    let mut out = String::new();
    out.append(messages.system.content.as_str());
    out.append("\n\n");
    out.append(body.as_str());
    out.append("\n</s>");
    assert(out@ =~= alpaca_prompt(messages.system.content@, messages.chat@));
    Ok(out)
}

pub open spec fn alpaca_pre(m: ChatMessage) -> Seq<char> {
    match m {
        ChatMessage::User(_) => "### Instruction:\n"@,
        ChatMessage::Assistant(_) => "### Response\n"@,
        ChatMessage::Tool(_) => Seq::empty(),
    }
}

pub open spec fn alpaca_post(m: ChatMessage) -> Seq<char> {
    match m {
        ChatMessage::Tool(_) => Seq::empty(),
        _ => "\n"@,
    }
}

pub proof fn lemma_alpaca_turn_shape(m: ChatMessage)
    ensures
        alpaca_turn(m) == alpaca_pre(m) + super::turn_content(m) + alpaca_post(m),
{
    assert(alpaca_turn(m) =~= alpaca_pre(m) + super::turn_content(m) + alpaca_post(m));
}

} // verus!
