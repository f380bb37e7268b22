use llm_server::{
    collect_segments, plan_windows, scan_time_tags, CreateTranscriptionResponse, DecodedWindow,
    Segment, TimestampText, TranscriptionFormat, WhisperError,
};

#[test]
fn test_timestamp_text_srt() {
    let tts = TimestampText {
        start_ms: 0,
        end_ms: 1000,
        index: 0,
        text: "hello world".to_string(),
    };
    assert_eq!(tts.srt(), "1\n00:00:00,000 --> 00:00:01,000\nhello world\n");
}

#[test]
fn test_timestamp_text_vtt() {
    let tts = TimestampText {
        start_ms: 0,
        end_ms: 1000,
        index: 0,
        text: "hello world".to_string(),
    };
    assert_eq!(tts.vtt(), "00:00:00,000 --> 00:00:01,000\nhello world\n");
}

#[test]
fn timecodes_carry_hours_minutes_and_millis() {
    let tts = TimestampText {
        start_ms: 3_723_004,
        end_ms: 360_000_000,
        index: 41,
        text: "x".to_string(),
    };
    assert_eq!(tts.get_start_str(), "01:02:03,004");
    assert_eq!(tts.get_end_str(), "100:00:00,000");
    assert_eq!(tts.srt(), "42\n01:02:03,004 --> 100:00:00,000\nx\n");
}

fn segment(text: &str) -> Segment {
    Segment { start_ms: 0, duration_ms: 30_000, tokens: vec![], text: text.to_string() }
}

#[test]
fn time_tags_are_read_and_removed() {
    let (stamps, text) = scan_time_tags("<|0.00|> Hello there.<|2.50|><|2.50|> More<|4.125|>");
    assert_eq!(stamps, vec![Some(0), Some(2500), Some(2500), Some(4125)]);
    assert_eq!(text, " Hello there. More");
}

#[test]
fn malformed_tags_stay_in_text() {
    let (stamps, text) = scan_time_tags("<|1.|> <|.5|> <1.5|> <|1.5>");
    assert!(stamps.is_empty());
    assert_eq!(text, "<|1.|> <|.5|> <1.5|> <|1.5>");
}

#[test]
fn segment_srt_uses_first_two_tags() {
    let s = segment("<|0.00|> hello world<|1.00|>");
    let t = s.get_timestamp_text(0).unwrap();
    assert_eq!((t.start_ms, t.end_ms), (0, 1000));
    assert_eq!(s.srt(0).unwrap(), "1\n00:00:00,000 --> 00:00:01,000\n hello world\n");
    assert_eq!(s.vtt(3).unwrap(), "00:00:00,000 --> 00:00:01,000\n hello world\n");
    assert_eq!(s.text(), "<|0.00|> hello world<|1.00|>");
}

#[test]
fn segment_without_tags_has_no_srt() {
    let s = segment("plain words");
    assert!(s.get_timestamp_text(0).is_none());
    assert!(s.srt(0).is_none());
}

#[test]
fn windows_cover_the_frames() {
    let w = plan_windows(7000);
    assert_eq!(w.len(), 3);
    assert_eq!((w[0].seek, w[0].size, w[0].start_ms, w[0].duration_ms), (0, 3000, 0, 30_000));
    assert_eq!((w[1].seek, w[1].size, w[1].start_ms), (3000, 3000, 30_000));
    assert_eq!((w[2].seek, w[2].size, w[2].start_ms, w[2].duration_ms), (6000, 1000, 60_000, 10_000));
    assert!(plan_windows(0).is_empty());
    assert_eq!(plan_windows(3000).len(), 1);
}

fn decoded(text: &str) -> Option<DecodedWindow> {
    Some(DecodedWindow { tokens: vec![1, 2], text: text.to_string() })
}

#[test]
fn silent_windows_leave_no_segment() {
    let segs = collect_segments(9100, vec![decoded("a"), None, decoded("c"), None]);
    assert_eq!(segs.len(), 2);
    assert_eq!((segs[0].start_ms, segs[0].duration_ms), (0, 30_000));
    assert_eq!((segs[1].start_ms, segs[1].duration_ms), (60_000, 30_000));
    assert_eq!(segs[1].text, "c");
    for i in 0..segs.len() - 1 {
        assert!(segs[i].start_ms + segs[i].duration_ms <= segs[i + 1].start_ms);
    }
    assert!(collect_segments(3000, vec![None]).is_empty());
}

#[test]
fn response_bodies() {
    let segs = vec![segment("<|0.00|>a<|1.00|>"), segment("<|0.00|>b<|2.00|>")];
    let srt = CreateTranscriptionResponse::new(segs, TranscriptionFormat::Srt);
    assert_eq!(
        srt.body().unwrap(),
        "1\n00:00:00,000 --> 00:00:01,000\na\n\n2\n00:00:00,000 --> 00:00:02,000\nb\n"
    );
    let segs = vec![segment("<|0.00|>a<|1.00|>")];
    let vtt = CreateTranscriptionResponse::new(segs, TranscriptionFormat::Vtt);
    assert_eq!(vtt.body().unwrap(), "00:00:00,000 --> 00:00:01,000\na\n");
    let text = CreateTranscriptionResponse::new(
        vec![segment(" one"), segment(" two")],
        TranscriptionFormat::Text,
    );
    assert_eq!(text.body().unwrap(), " one two");
    assert_eq!(text.text(), " one two");
    let bad = CreateTranscriptionResponse::new(vec![segment("untimed")], TranscriptionFormat::Srt);
    assert_eq!(bad.body(), Err(WhisperError::MissingTimestamps));
}

#[test]
fn formats_that_need_timestamps() {
    assert!(TranscriptionFormat::Srt.has_timestamps());
    assert!(TranscriptionFormat::Vtt.has_timestamps());
    assert!(TranscriptionFormat::VerboseJson.has_timestamps());
    assert!(!TranscriptionFormat::Text.has_timestamps());
    assert!(!TranscriptionFormat::Json.has_timestamps());
    assert!(TranscriptionFormat::VerboseJson.is_verbose());
    assert!(!TranscriptionFormat::Json.is_verbose());
}
