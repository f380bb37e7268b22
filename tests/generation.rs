use llm_server::{
    repeat_penalty_start, repeat_penalty_window, shape_response, ChatCompletionResponse,
    ChatCompletionResponseChunk, ChatResponse, ChatResponseFormat, ChatStream, FinishReason,
    Generation, DEFAULT_MAX_TOKENS,
};

#[test]
fn penalty_window_is_last_64_tokens() {
    let history: Vec<u32> = (0..100).collect();
    let w = repeat_penalty_window(&history);
    assert_eq!(w.len(), 64);
    assert_eq!(w[0], 36);
    assert_eq!(*w.last().unwrap(), 99);
    assert_eq!(repeat_penalty_start(100), 36);
}

#[test]
fn penalty_window_is_whole_short_history() {
    let history: Vec<u32> = (0..10).collect();
    assert_eq!(repeat_penalty_window(&history), history);
    let exact: Vec<u32> = (0..64).collect();
    assert_eq!(repeat_penalty_window(&exact), exact);
    assert!(repeat_penalty_window(&vec![]).is_empty());
    assert_eq!(repeat_penalty_start(64), 0);
}

#[test]
fn generation_stops_at_eos() {
    let mut g = Generation::new(5, Some(8), 2);
    assert!(!g.is_finished());
    assert_eq!(g.accept(10, "Hi".to_string()), Some("Hi".to_string()));
    assert_eq!(g.next_position(), 5);
    assert_eq!(g.accept(11, " there".to_string()), Some(" there".to_string()));
    assert_eq!(g.next_position(), 6);
    assert_eq!(g.accept(2, "</s>".to_string()), None);
    assert!(g.is_finished());
    assert_eq!(g.finish, Some(FinishReason::Stop));
    assert_eq!(g.content, "Hi there");
    let u = g.usage();
    assert_eq!((u.prompt_tokens, u.completion_tokens, u.total_tokens), (5, 3, 8));
}

#[test]
fn generation_stops_at_budget() {
    let mut g = Generation::new(3, Some(2), 0);
    g.accept(7, "a".to_string());
    g.accept(8, "b".to_string());
    assert!(!g.is_finished());
    g.accept(9, "c".to_string());
    assert_eq!(g.finish, Some(FinishReason::Length));
    assert_eq!(g.content, "abc");
    let u = g.usage();
    assert_eq!(u.total_tokens, u.prompt_tokens + u.completion_tokens);
    assert_eq!(u.completion_tokens, 3);
}

#[test]
fn default_budget() {
    let g = Generation::new(1, None, 0);
    assert_eq!(g.limit, DEFAULT_MAX_TOKENS + 1);
    let g = Generation::new(usize::MAX, Some(3), 0);
    assert_eq!(g.limit, 0);
    assert!(g.is_finished());
}

#[test]
fn response_carries_content_and_usage() {
    let base = ChatCompletionResponse::with_identity("id-1".to_string(), 42, "m".to_string());
    let mut g = Generation::new(4, Some(8), 1);
    g.accept(5, "ok".to_string());
    g.accept(1, "".to_string());
    let r = g.into_response(base);
    assert_eq!(r.object, "chat.completion");
    assert_eq!(r.id, "id-1");
    assert_eq!(r.created, 42);
    assert_eq!(r.choices.len(), 1);
    assert_eq!(r.choices[0].finish_reason, FinishReason::Stop);
    assert_eq!(r.choices[0].message.content.as_deref(), Some("ok"));
    assert_eq!(r.usage.prompt_tokens, 4);
    assert_eq!(r.usage.completion_tokens, 2);
    assert_eq!(r.usage.total_tokens, 6);
}

#[test]
fn fresh_response_has_uuid_and_time() {
    let r = ChatCompletionResponse::new("alias".to_string());
    assert_eq!(r.id.len(), 36);
    assert_eq!(r.id.matches('-').count(), 4);
    let id: Vec<char> = r.id.chars().collect();
    assert_eq!((id[8], id[13], id[14], id[18], id[23]), ('-', '-', '4', '-', '-'));
    assert!(matches!(id[19], '8' | '9' | 'a' | 'b'));
    assert!(r.id.chars().all(|c| c == '-' || c.is_ascii_digit() || ('a'..='f').contains(&c)));
    assert_eq!(r.object, "chat.completion");
    assert!(r.created > 1_600_000_000);
    assert_eq!(r.model, "alias");
    assert!(r.choices.is_empty());
    let other = ChatCompletionResponse::new("alias".to_string());
    assert_ne!(r.id, other.id);
}

#[test]
fn chunk_shares_identity() {
    let base = ChatCompletionResponse::with_identity("x".to_string(), 7, "m".to_string());
    let c = ChatCompletionResponseChunk::from_response(&base, vec![]);
    assert_eq!(c.id, "x");
    assert_eq!(c.created, 7);
    assert_eq!(c.model, "m");
    assert_eq!(c.object, "chat.completion.chunk");
}

fn run_stream(events: &[(u32, &str)], max: usize) -> (Vec<Option<String>>, Vec<FinishReason>, String) {
    let base = ChatCompletionResponse::with_identity("s".to_string(), 1, "m".to_string());
    let mut stream = ChatStream::new(base, Generation::new(3, Some(max), 0));
    let mut contents = vec![];
    let mut reasons = vec![];
    for (t, f) in events {
        if stream.generation.is_finished() || stream.is_done() {
            break;
        }
        let c = stream.on_token(*t, f.to_string());
        contents.push(c.choices[0].message.content.clone());
        reasons.push(c.choices[0].finish_reason);
    }
    if let Some(c) = stream.close() {
        contents.push(c.choices[0].message.content.clone());
        reasons.push(c.choices[0].finish_reason);
    }
    (contents, reasons, stream.generation.content.clone())
}

#[test]
fn stream_concatenation_equals_aggregate() {
    let events = [(4, "Hel"), (5, "lo"), (6, "!"), (0, ""), (9, "late")];
    let (contents, reasons, aggregate) = run_stream(&events, 16);
    let joined: String = contents.iter().flatten().cloned().collect();
    assert_eq!(joined, "Hello!");
    assert_eq!(joined, aggregate);
    assert_eq!(*reasons.last().unwrap(), FinishReason::Stop);
    assert!(contents.last().unwrap().is_none());
    assert!(reasons[..reasons.len() - 1].iter().all(|r| *r == FinishReason::Null));
}

#[test]
fn stream_closes_when_budget_runs_out() {
    let events = [(4, "a"), (5, "b"), (6, "c"), (7, "d")];
    let (contents, reasons, aggregate) = run_stream(&events, 1);
    assert_eq!(contents, vec![Some("a".to_string()), Some("b".to_string()), None]);
    assert_eq!(reasons.last(), Some(&FinishReason::Stop));
    assert_eq!(aggregate, "ab");
}

#[test]
fn text_format_returns_the_answer_alone() {
    let base = ChatCompletionResponse::with_identity("i".to_string(), 1, "m".to_string());
    let mut g = Generation::new(1, Some(0), 9);
    g.accept(3, "answer".to_string());
    let r = g.into_response(base);
    match shape_response(r, Some(ChatResponseFormat::Text)) {
        ChatResponse::Text(t) => assert_eq!(t, "answer"),
        _ => panic!("expected text"),
    }
    let base = ChatCompletionResponse::with_identity("i".to_string(), 1, "m".to_string());
    assert!(matches!(shape_response(base, None), ChatResponse::Completion(_)));
}

#[test]
fn prefill_token_always_joins_the_answer() {
    let mut g = Generation::new(5, Some(8), 2);
    assert_eq!(g.accept(2, "x".to_string()), Some("x".to_string()));
    assert!(!g.is_finished());
    assert_eq!(g.content, "x");
    assert_eq!(g.accept(2, "y".to_string()), None);
    assert_eq!(g.finish, Some(FinishReason::Stop));
    assert_eq!(g.content, "x");
    assert_eq!(g.usage().completion_tokens, 2);
}

#[test]
fn stream_emits_prefill_even_if_it_is_the_end_token() {
    let (contents, reasons, aggregate) = run_stream(&[(0, "p"), (5, "q"), (0, "")], 8);
    assert_eq!(contents, vec![Some("p".to_string()), Some("q".to_string()), None]);
    assert_eq!(reasons.last(), Some(&FinishReason::Stop));
    assert_eq!(aggregate, "pq");
}
