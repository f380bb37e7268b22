use llm_server::{
    AssistantMessage, ChatCompletionMessage, ChatFormat, ChatMessage, ChatMessages, SystemMessage, TemplateError,
    ToolMessage, UserMessage,
};

fn system(s: &str) -> ChatCompletionMessage {
    ChatCompletionMessage::System(SystemMessage { content: s.to_string(), name: None })
}

fn user(s: &str) -> ChatCompletionMessage {
    ChatCompletionMessage::User(UserMessage { content: s.to_string(), name: None })
}

fn assistant(s: Option<&str>) -> ChatCompletionMessage {
    ChatCompletionMessage::Assistant(AssistantMessage {
        content: s.map(|x| x.to_string()),
        name: None,
        tool_calls: vec![],
    })
}

fn conversation() -> Vec<ChatCompletionMessage> {
    vec![
        system("you are helpfull assistant!"),
        user("Hello"),
        assistant(Some("World")),
        user("who are you"),
    ]
}

#[test]
fn chatml_prompt_test() {
    let prompt = ChatFormat::ChatML.format_messages(conversation()).unwrap();
    assert_eq!(
        prompt,
        r#"<|im_start|>system
you are helpfull assistant!
<|im_end|>
<|im_start|>user
Hello
<|im_end|>
<|im_start|>assistant
World
<|im_end|>
<|im_start|>user
who are you
<|im_end|>
<|im_start|>assistant
"#
    )
}

#[test]
fn llama2_prompt_test() {
    let prompt = ChatFormat::Llama2.format_messages(conversation()).unwrap();
    assert_eq!(
        prompt,
        r#"<s>[INST] <<SYS>>
you are helpfull assistant!
<</SYS>>
Hello
[/INST]
World
</s>
<s>[INST]
who are you
[/INST]"#
    )
}

#[test]
fn alpaca_prompt_joins_turns() {
    let prompt = ChatFormat::Alpaca.format_messages(conversation()).unwrap();
    assert_eq!(
        prompt,
        "you are helpfull assistant!\n\n### Instruction:\nHello\n</s>### Response\nWorld\n</s>### Instruction:\nwho are you\n\n</s>"
    );
}

#[test]
fn openchat_prompt_joins_turns() {
    let prompt = ChatFormat::OpenChat.format_messages(conversation()).unwrap();
    assert_eq!(
        prompt,
        "<s>[INST] <<SYS>>\nyou are helpfull assistant!\n<</SYS>>\n<s>[INST]\nHello\n</s>\n[/INST]\nWorld\n</s>\n<s>[INST]\nwho are you\n\n</s>"
    );
}

#[test]
fn chatglm3_prompt_tags_roles() {
    let prompt = ChatFormat::ChatGLM3.format_messages(conversation()).unwrap();
    assert_eq!(
        prompt,
        "[gMASK]sop<|system|>\nyou are helpfull assistant!<|user|>\nHello<|assistant|>\nWorld<|user|>\nwho are you<|assistant|>"
    );
}

#[test]
fn chatml_empty_assistant_is_closed() {
    let msgs = vec![system("s"), user("u"), assistant(None)];
    let prompt = ChatFormat::ChatML.format_messages(msgs).unwrap();
    assert_eq!(
        prompt,
        "<|im_start|>system\ns\n<|im_end|>\n<|im_start|>user\nu\n<|im_end|>\n<|im_start|>assistant\n\n<|im_end|>\n\n"
    );
}

#[test]
fn llama2_empty_assistant_is_closed() {
    let msgs = vec![system("s"), user("u"), assistant(Some(""))];
    let prompt = ChatFormat::Llama2.format_messages(msgs).unwrap();
    assert_eq!(prompt, "<s>[INST] <<SYS>>\ns\n<</SYS>>\nu\n[/INST]\n\n</s>\n");
}

#[test]
fn system_message_may_stand_anywhere() {
    let msgs = vec![user("u"), system("s")];
    let prompt = ChatFormat::ChatML.format_messages(msgs).unwrap();
    assert_eq!(
        prompt,
        "<|im_start|>system\ns\n<|im_end|>\n<|im_start|>user\nu\n<|im_end|>\n<|im_start|>assistant\n"
    );
}

#[test]
fn only_system_message() {
    let prompt = ChatFormat::ChatML.format_messages(vec![system("s")]).unwrap();
    assert_eq!(prompt, "<|im_start|>system\ns\n<|im_end|>\n\n");
}

#[test]
fn missing_system_message_fails() {
    let r = ChatFormat::ChatML.format_messages(vec![user("u")]);
    assert_eq!(r, Err(TemplateError::MissingSystem));
    assert_eq!(
        TemplateError::MissingSystem.message(),
        "No system message found"
    );
}

#[test]
fn empty_conversation_fails() {
    let r = ChatFormat::Llama2.format_messages(vec![]);
    assert_eq!(r, Err(TemplateError::MissingSystem));
}

#[test]
fn two_system_messages_fail() {
    let r = ChatFormat::Alpaca.format_messages(vec![system("a"), user("u"), system("b")]);
    assert_eq!(r, Err(TemplateError::MultipleSystem));
}

#[test]
fn split_keeps_tool_turns() {
    let tool = ChatCompletionMessage::Tool(ToolMessage {
        content: "42".to_string(),
        tool_call_id: "call".to_string(),
    });
    let m = ChatMessages::try_from(vec![user("u"), system("s"), tool]).unwrap();
    assert_eq!(m.system.content, "s");
    assert_eq!(m.chat.len(), 2);
    assert!(matches!(m.chat[1], ChatMessage::Tool(_)));
    assert!(matches!(ChatMessages::try_from(vec![user("u")]), Err(TemplateError::MissingSystem)));
}

#[test]
fn tool_message_fails() {
    let tool = ChatCompletionMessage::Tool(ToolMessage {
        content: "42".to_string(),
        tool_call_id: "call".to_string(),
    });
    let r = ChatFormat::OpenChat.format_messages(vec![system("s"), user("u"), tool]);
    assert_eq!(r, Err(TemplateError::ToolUnsupported));
}

#[test]
fn prompt_holds_contents_in_order() {
    for format in [
        ChatFormat::Llama2,
        ChatFormat::Alpaca,
        ChatFormat::ChatML,
        ChatFormat::ChatGLM3,
        ChatFormat::OpenChat,
    ] {
        let prompt = format.format_messages(conversation()).unwrap();
        let mut at = 0;
        for part in ["you are helpfull assistant!", "Hello", "World", "who are you"] {
            let found = prompt[at..].find(part).expect("content present");
            at += found + part.len();
        }
        assert_eq!(prompt.matches("you are helpfull assistant!").count(), 1);
    }
}

#[test]
fn eos_sentinels() {
    assert_eq!(ChatFormat::ChatML.get_eos_token(), "<|im_end|>");
    assert_eq!(ChatFormat::Llama2.get_eos_token(), "</s>");
    assert_eq!(ChatFormat::Alpaca.get_eos_token(), "</s>");
    assert_eq!(ChatFormat::ChatGLM3.get_eos_token(), "</s>");
    assert_eq!(ChatFormat::OpenChat.get_eos_token(), "<|end_of_turn|>");
}
