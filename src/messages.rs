use vstd::prelude::*;

verus! {

/// The instruction that frames a conversation.
pub struct SystemMessage {
    pub content: String,
    pub name: Option<String>,
}

/// A message from a human.
pub struct UserMessage {
    pub content: String,
    pub name: Option<String>,
}

/// A function call requested by the assistant.
pub struct ToolCall {
    pub id: String,
    pub name: String,
    pub arguments: String,
}

/// A message from the assistant; its content is absent in terminal stream chunks.
pub struct AssistantMessage {
    pub content: Option<String>,
    pub name: Option<String>,
    pub tool_calls: Vec<ToolCall>,
}

/// The answer of a tool to an earlier call.
pub struct ToolMessage {
    pub content: String,
    pub tool_call_id: String,
}

/// One role-tagged message of a chat completion request.
pub enum ChatCompletionMessage {
    System(SystemMessage),
    User(UserMessage),
    Assistant(AssistantMessage),
    Tool(ToolMessage),
}

/// One conversation turn: every message but the system one.
pub enum ChatMessage {
    /// A message from a human.
    User(UserMessage),
    /// A message from the assistant.
    Assistant(AssistantMessage),
    /// A message from a tool.
    Tool(ToolMessage),
}

/// A conversation split into its single system message and its turns.
pub struct ChatMessages {
    pub system: SystemMessage,
    pub chat: Vec<ChatMessage>,
}

/// Why a conversation cannot be rendered into a prompt.
#[derive(Debug, PartialEq, Eq, Structural)]
pub enum TemplateError {
    /// The conversation has no system message.
    MissingSystem,
    /// The conversation has more than one system message.
    MultipleSystem,
    /// The conversation holds a tool message, which prompts cannot carry.
    ToolUnsupported,
}

pub open spec fn template_error_text(e: TemplateError) -> Seq<char> {
    match e {
        TemplateError::MissingSystem => "No system message found"@,
        TemplateError::MultipleSystem => "more than one system message found"@,
        TemplateError::ToolUnsupported => "tool messages are not supported"@,
    }
}

impl TemplateError {
    pub fn message(&self) -> (r: String)
        ensures
            r@ == template_error_text(*self),
    {
        match self {
            TemplateError::MissingSystem => String::from_str("No system message found"),
            TemplateError::MultipleSystem => String::from_str("more than one system message found"),
            TemplateError::ToolUnsupported => String::from_str("tool messages are not supported"),
        }
    }
}

/// The turn that a non-system message becomes.
pub open spec fn turn_of(m: ChatCompletionMessage) -> Option<ChatMessage> {
    match m {
        ChatCompletionMessage::System(_) => None,
        ChatCompletionMessage::User(u) => Some(ChatMessage::User(u)),
        ChatCompletionMessage::Assistant(a) => Some(ChatMessage::Assistant(a)),
        ChatCompletionMessage::Tool(t) => Some(ChatMessage::Tool(t)),
    }
}

/// The turns of a message list, in order, without its system messages.
pub open spec fn chat_turns(msgs: Seq<ChatCompletionMessage>) -> Seq<ChatMessage>
    decreases msgs.len(),
{
    if msgs.len() == 0 {
        Seq::empty()
    } else {
        match turn_of(msgs[0]) {
            Some(t) => seq![t] + chat_turns(msgs.drop_first()),
            None => chat_turns(msgs.drop_first()),
        }
    }
}

/// How many system messages a message list holds.
pub open spec fn system_count(msgs: Seq<ChatCompletionMessage>) -> nat
    decreases msgs.len(),
{
    if msgs.len() == 0 {
        0
    } else {
        (if msgs[0] is System { 1nat } else { 0nat }) + system_count(msgs.drop_first())
    }
}

/// The first system message of a message list.
pub open spec fn first_system(msgs: Seq<ChatCompletionMessage>) -> Option<SystemMessage>
    decreases msgs.len(),
{
    if msgs.len() == 0 {
        None
    } else {
        match msgs[0] {
            ChatCompletionMessage::System(s) => Some(s),
            _ => first_system(msgs.drop_first()),
        }
    }
}

pub open spec fn has_tool_turn(chat: Seq<ChatMessage>) -> bool {
    exists|i: int| 0 <= i < chat.len() && (#[trigger] chat[i]) is Tool
}

/// What splitting a message list gives: its one system message and its turns
/// (tool turns included), or the error for a missing or repeated system message.
pub open spec fn split_result(msgs: Seq<ChatCompletionMessage>) -> Result<
    (SystemMessage, Seq<ChatMessage>),
    TemplateError,
> {
    if system_count(msgs) == 0 {
        Err(TemplateError::MissingSystem)
    } else if system_count(msgs) > 1 {
        Err(TemplateError::MultipleSystem)
    } else {
        Ok((first_system(msgs).unwrap(), chat_turns(msgs)))
    }
}

proof fn lemma_first_system_some(msgs: Seq<ChatCompletionMessage>)
    requires
        system_count(msgs) > 0,
    ensures
        first_system(msgs) is Some,
    decreases msgs.len(),
{
    if msgs.len() > 0 && !(msgs[0] is System) {
        lemma_first_system_some(msgs.drop_first());
    }
}

impl ChatMessages {
    /// Splits a message list into its one system message and its turns.
    pub fn try_from(value: Vec<ChatCompletionMessage>) -> (r: Result<ChatMessages, TemplateError>)
        ensures
            match (r, split_result(value@)) {
                (Ok(m), Ok((s, c))) => m.system == s && m.chat@ == c,
                (Err(e), Err(f)) => e == f,
                _ => false,
            },
    {
        let ghost msgs = value@;
        let total: usize = value.len();
        let mut rest = value;
        let mut system: Option<SystemMessage> = None;
        let mut count: usize = 0;
        let mut chat: Vec<ChatMessage> = Vec::new();
        while rest.len() > 0
            invariant
                msgs.len() == total,
                rest@ == msgs.subrange(0, rest@.len() as int),
                count == system_count(msgs.subrange(rest@.len() as int, msgs.len() as int)),
                count <= msgs.len() - rest@.len(),
                system == first_system(msgs.subrange(rest@.len() as int, msgs.len() as int)),
                chat@ == chat_turns(msgs.subrange(rest@.len() as int, msgs.len() as int)),
            decreases rest@.len(),
        {
            let ghost k = rest@.len() as int;
            let ghost suffix = msgs.subrange(k - 1, msgs.len() as int);
            assert(suffix.drop_first() =~= msgs.subrange(k, msgs.len() as int));
            assert(suffix[0] == msgs[k - 1]);
            let message = rest.pop().unwrap();
            assert(rest@ =~= msgs.subrange(0, rest@.len() as int));
            match message {
                ChatCompletionMessage::System(m) => {
                    system = Some(m);
                    count = count + 1;
                },
                ChatCompletionMessage::User(m) => {
                    chat.insert(0, ChatMessage::User(m));
                },
                ChatCompletionMessage::Assistant(m) => {
                    chat.insert(0, ChatMessage::Assistant(m));
                },
                ChatCompletionMessage::Tool(m) => {
                    chat.insert(0, ChatMessage::Tool(m));
                },
            }
            assert(chat@ =~= chat_turns(suffix));
        }
        assert(msgs.subrange(0, msgs.len() as int) =~= msgs);
        if count > 1 {
            return Err(TemplateError::MultipleSystem);
        }
        match system {
            Some(s) => {
                if count == 0 {
                    proof {
                        lemma_first_system_some_count(msgs);
                    }
                    return Err(TemplateError::MissingSystem);
                }
                Ok(ChatMessages { system: s, chat })
            },
            None => {
                proof {
                    if system_count(msgs) > 0 {
                        lemma_first_system_some(msgs);
                    }
                }
                Err(TemplateError::MissingSystem)
            },
        }
    }
}

proof fn lemma_first_system_some_count(msgs: Seq<ChatCompletionMessage>)
    requires
        first_system(msgs) is Some,
    ensures
        system_count(msgs) > 0,
    decreases msgs.len(),
{
    if msgs.len() > 0 && !(msgs[0] is System) {
        lemma_first_system_some_count(msgs.drop_first());
    }
}

} // verus!
