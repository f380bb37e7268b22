use llm_server::{parse_wav, timestamp_runs, SpecialTokens, TranscriptionFormat, WavError, WhisperVariant};

fn wav(channels: u16, rate: u32, bits: u16, format: u16, samples: &[i16], extra_chunk: bool) -> Vec<u8> {
    let mut data = Vec::new();
    for s in samples {
        data.extend_from_slice(&s.to_le_bytes());
    }
    let mut b = Vec::new();
    b.extend_from_slice(b"RIFF");
    b.extend_from_slice(&0u32.to_le_bytes());
    b.extend_from_slice(b"WAVE");
    if extra_chunk {
        b.extend_from_slice(b"LIST");
        b.extend_from_slice(&3u32.to_le_bytes());
        b.extend_from_slice(&[1, 2, 3, 0]);
    }
    b.extend_from_slice(b"fmt ");
    b.extend_from_slice(&16u32.to_le_bytes());
    b.extend_from_slice(&format.to_le_bytes());
    b.extend_from_slice(&channels.to_le_bytes());
    b.extend_from_slice(&rate.to_le_bytes());
    b.extend_from_slice(&(rate * channels as u32 * 2).to_le_bytes());
    b.extend_from_slice(&(channels * 2).to_le_bytes());
    b.extend_from_slice(&bits.to_le_bytes());
    b.extend_from_slice(b"data");
    b.extend_from_slice(&(data.len() as u32).to_le_bytes());
    b.extend_from_slice(&data);
    b
}

#[test]
fn reads_pcm16_samples() {
    let bytes = wav(1, 16000, 16, 1, &[0, 1, -1, 32767, -32768], false);
    let w = parse_wav(&bytes).unwrap();
    assert_eq!((w.channels, w.sample_rate), (1, 16000));
    assert_eq!(w.samples, vec![0, 1, -1, 32767, -32768]);
}

#[test]
fn skips_unknown_padded_chunks() {
    let bytes = wav(2, 44100, 16, 1, &[5, -5, 7, -7], true);
    let w = parse_wav(&bytes).unwrap();
    assert_eq!((w.channels, w.sample_rate), (2, 44100));
    assert_eq!(w.samples, vec![5, -5, 7, -7]);
}

#[test]
fn truncated_data_keeps_whole_samples() {
    let mut bytes = wav(1, 16000, 16, 1, &[1, 2, 3], false);
    bytes.truncate(bytes.len() - 1);
    assert_eq!(parse_wav(&bytes).unwrap().samples, vec![1, 2]);
}

#[test]
fn wav_errors() {
    assert_eq!(parse_wav(&b"RIFX0000WAVE".to_vec()).err(), Some(WavError::NotWave));
    assert_eq!(parse_wav(&b"RIFF0000WAVE".to_vec()).err(), Some(WavError::MissingFormat));
    let float = wav(1, 16000, 32, 3, &[0], false);
    assert_eq!(parse_wav(&float).err(), Some(WavError::UnsupportedEncoding));
    let mut no_data = wav(1, 16000, 16, 1, &[], false);
    no_data.truncate(no_data.len() - 8);
    assert_eq!(parse_wav(&no_data).err(), Some(WavError::MissingData));
}

#[test]
fn names_of_models_and_formats() {
    assert_eq!(WhisperVariant::from_name("tiny.en"), Some(WhisperVariant::TinyEn));
    assert_eq!(WhisperVariant::from_name("large-v3-turbo"), Some(WhisperVariant::LargeV3Turbo));
    assert_eq!(WhisperVariant::from_name("huge"), None);
    assert_eq!(TranscriptionFormat::from_name("srt"), Some(TranscriptionFormat::Srt));
    assert_eq!(TranscriptionFormat::from_name("verbose_json"), Some(TranscriptionFormat::VerboseJson));
    assert_eq!(TranscriptionFormat::from_name("xml"), None);
}

#[test]
fn runs_between_timestamp_tokens() {
    let sp = SpecialTokens { sot: 1, transcribe: 2, translate: 3, eot: 4, no_speech: 5, no_timestamps: 100 };
    let tokens = vec![1, 2, 101, 10, 11, 150, 150, 12, 4, 13];
    let runs = timestamp_runs(&tokens, &sp);
    assert_eq!(runs.len(), 3);
    assert_eq!((runs[0].start_ms, runs[0].end_ms), (0, Some(40)));
    assert_eq!(runs[0].tokens, vec![2]);
    assert_eq!((runs[1].start_ms, runs[1].end_ms), (40, Some(1020)));
    assert_eq!(runs[1].tokens, vec![10, 11]);
    assert_eq!((runs[2].start_ms, runs[2].end_ms), (1020, None));
    assert_eq!(runs[2].tokens, vec![12, 13]);
    assert!(timestamp_runs(&vec![1, 101, 4], &sp).is_empty());
}
