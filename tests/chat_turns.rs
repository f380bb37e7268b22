use llm_server::chat_format::{alpaca, chatglm3, chatml, llama2, openchat};
use llm_server::{AssistantMessage, ChatMessage, ChatMessages, SystemMessage, UserMessage};

fn user(s: &str) -> ChatMessage {
    ChatMessage::User(UserMessage { content: s.to_string(), name: None })
}

fn assistant(s: &str) -> ChatMessage {
    ChatMessage::Assistant(AssistantMessage { content: Some(s.to_string()), name: None, tool_calls: vec![] })
}

#[test]
fn turns_of_each_format() {
    assert_eq!(chatml::transform(&user("u")), "<|im_start|>user\nu\n<|im_end|>\n<|im_start|>assistant");
    assert_eq!(chatml::transform(&assistant("a")), "\na\n<|im_end|>\n");
    assert_eq!(chatml::transform(&assistant("")), "\n\n<|im_end|>\n");
    assert_eq!(llama2::transform(&assistant(""), false), "\n\n</s>\n");
    assert_eq!(llama2::transform(&user("u"), true), "u\n[/INST]");
    assert_eq!(llama2::transform(&user("u"), false), "<s>[INST]\nu\n[/INST]");
    assert_eq!(llama2::transform(&assistant("a"), false), "\na\n</s>\n");
    assert_eq!(alpaca::transform(&user("u")), "### Instruction:\nu\n");
    assert_eq!(alpaca::transform(&assistant("a")), "### Response\na\n");
    assert_eq!(openchat::transform(&user("u")), "<s>[INST]\nu\n");
    assert_eq!(openchat::transform(&assistant("a")), "[/INST]\na\n");
    assert_eq!(chatglm3::transform(&user("u")), "<|user|>\nu");
    assert_eq!(chatglm3::transform(&assistant("a")), "<|assistant|>\na");
}

#[test]
fn per_format_rendering_of_split_messages() {
    let messages = || ChatMessages {
        system: SystemMessage { content: "s".to_string(), name: None },
        chat: vec![user("u")],
    };
    assert_eq!(
        chatml::format_messages(messages()).unwrap(),
        "<|im_start|>system\ns\n<|im_end|>\n<|im_start|>user\nu\n<|im_end|>\n<|im_start|>assistant\n"
    );
    assert_eq!(llama2::format_messages(messages()).unwrap(), "<s>[INST] <<SYS>>\ns\n<</SYS>>\nu\n[/INST]");
    assert_eq!(alpaca::format_messages(messages()).unwrap(), "s\n\n### Instruction:\nu\n\n</s>");
    assert_eq!(openchat::format_messages(messages()).unwrap(), "<s>[INST] <<SYS>>\ns\n<</SYS>>\n<s>[INST]\nu\n\n</s>");
    assert_eq!(chatglm3::format_messages(messages()).unwrap(), "[gMASK]sop<|system|>\ns<|user|>\nu<|assistant|>");
}
