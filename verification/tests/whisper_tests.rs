use transcribers::config::SttConfig;
use transcribers::stt::whisper::{
    acceleration, assemble_chunk, centiseconds_to_ms, chunk_language, chunk_spans, join_chunks,
    language_hint,
    plan_transcription, samples_to_ms, RawSegment, Transcript, TranscriptSegment,
    TranscriptionPlan,
};

fn seg(text: &str, start_ms: i64, end_ms: i64) -> TranscriptSegment {
    TranscriptSegment { text: text.to_string(), start_ms, end_ms }
}

fn raw(text: &str, start_cs: i64, end_cs: i64) -> RawSegment {
    RawSegment { text: text.to_string(), start_cs, end_cs }
}

#[test]
fn language_hint_is_none_for_auto() {
    assert_eq!(language_hint("auto"), None);
    assert_eq!(language_hint("en"), Some("en".to_string()));
    assert_eq!(language_hint("Auto"), Some("Auto".to_string()));
    assert_eq!(language_hint(""), Some(String::new()));
}

#[test]
fn samples_to_ms_values() {
    assert_eq!(samples_to_ms(16000, 16000), 1000);
    assert_eq!(samples_to_ms(480000, 16000), 30000);
    assert_eq!(samples_to_ms(1, 3), 333);
    assert_eq!(samples_to_ms(5, 0), 0);
    assert_eq!(samples_to_ms(0, 16000), 0);
    assert_eq!(samples_to_ms(usize::MAX, 1), u32::MAX);
    assert_eq!(samples_to_ms(usize::MAX, u32::MAX), u32::MAX);
    assert_eq!(samples_to_ms(4_294_967_295, 1000), u32::MAX);
    assert_eq!(samples_to_ms(4_294_967_295, 1001), 4_290_676_618);
}

#[test]
fn samples_to_ms_is_monotonic_on_examples() {
    let mut last = 0;
    for s in (0..100_000usize).step_by(777) {
        let ms = samples_to_ms(s, 44100);
        assert!(ms >= last);
        last = ms;
    }
}

#[test]
fn centiseconds_in_ms() {
    assert_eq!(centiseconds_to_ms(150), 1500);
    assert_eq!(centiseconds_to_ms(-3), -30);
    assert_eq!(centiseconds_to_ms(0), 0);
    assert_eq!(centiseconds_to_ms(i64::MAX), i64::MAX);
    assert_eq!(centiseconds_to_ms(i64::MIN), i64::MIN);
}

#[test]
fn plan_for_short_quiet_and_long_audio() {
    assert_eq!(plan_transcription(0, 16000, false), TranscriptionPlan::Silent);
    assert_eq!(plan_transcription(100, 0, false), TranscriptionPlan::Silent);
    assert_eq!(plan_transcription(4799, 16000, false), TranscriptionPlan::Silent);
    assert_eq!(plan_transcription(4800, 16000, false), TranscriptionPlan::Whole);
    assert_eq!(plan_transcription(16000, 16000, true), TranscriptionPlan::Silent);
    assert_eq!(plan_transcription(480000, 16000, false), TranscriptionPlan::Whole);
    assert_eq!(
        plan_transcription(480001, 16000, false),
        TranscriptionPlan::Chunked(vec![(0, 480000), (464000, 480001)])
    );
}

#[test]
fn spans_of_seventy_seconds() {
    assert_eq!(
        chunk_spans(1_120_000, 16000),
        vec![(0, 480000), (464000, 944000), (928000, 1_120_000)]
    );
}

#[test]
fn spans_cover_every_sample() {
    for (len, rate) in [(1usize, 1u32), (31, 1), (95, 2), (1000, 7), (1_234_567, 16000)] {
        let spans = chunk_spans(len, rate);
        assert_eq!(spans[0].0, 0);
        assert_eq!(spans.last().unwrap().1, len);
        for w in spans.windows(2) {
            assert_eq!(w[1].0, w[0].1 - rate as usize);
        }
        for s in &spans {
            assert!(s.1 - s.0 <= 30 * rate as usize);
        }
    }
}

#[test]
fn appending_chunks_joins_text_and_shifts_segments() {
    let mut t = Transcript::empty(None);
    let first = Transcript {
        text: "  Hello there. ".to_string(),
        language: Some("en".to_string()),
        segments: vec![seg("Hello there.", 0, 1200)],
    };
    t.append_chunk(first, 0);
    let second = Transcript {
        text: "General Kenobi.".to_string(),
        language: Some("de".to_string()),
        segments: vec![seg("General Kenobi.", 500, 2500)],
    };
    t.append_chunk(second, 29000);
    assert_eq!(t.text, "Hello there. General Kenobi.");
    assert_eq!(t.language, Some("en".to_string()));
    assert_eq!(t.segments, vec![seg("Hello there.", 0, 1200), seg("General Kenobi.", 29500, 31500)]);
}

#[test]
fn appending_an_empty_chunk_keeps_text() {
    let mut t = Transcript::empty(Some("fr".to_string()));
    t.append_chunk(Transcript::empty(Some("en".to_string())), 1000);
    assert_eq!(t.text, "");
    assert_eq!(t.language, Some("fr".to_string()));
    t.append_chunk(
        Transcript { text: "   ".to_string(), language: None, segments: vec![] },
        2000,
    );
    assert_eq!(t.text, "");
    t.append_chunk(
        Transcript { text: "bonjour".to_string(), language: None, segments: vec![] },
        3000,
    );
    assert_eq!(t.text, "bonjour");
}

#[test]
fn appending_saturates_late_times() {
    let mut t = Transcript::empty(None);
    t.append_chunk(
        Transcript { text: String::new(), language: None, segments: vec![seg("x", i64::MAX - 5, i64::MAX)] },
        10,
    );
    assert_eq!(t.segments[0].start_ms, i64::MAX);
    assert_eq!(t.segments[0].end_ms, i64::MAX);
}

#[test]
fn chunk_assembled_from_raw_segments() {
    let t = assemble_chunk(
        Some("en".to_string()),
        vec![raw(" Hello", 0, 150), raw("   ", 150, 200), raw(" world.", 200, 400)],
    );
    assert_eq!(t.text, "Hello world.");
    assert_eq!(t.language, Some("en".to_string()));
    assert_eq!(t.segments, vec![seg("Hello", 0, 1500), seg("world.", 2000, 4000)]);
}

#[test]
fn chunk_with_no_speech() {
    let t = assemble_chunk(None, vec![raw(" ", 0, 10)]);
    assert_eq!(t.text, "");
    assert!(t.segments.is_empty());
    let t = assemble_chunk(None, vec![]);
    assert_eq!(t.text, "");
}

#[test]
fn chunk_language_follows_configuration() {
    assert_eq!(chunk_language("auto", Some("en".to_string())), Some("en".to_string()));
    assert_eq!(chunk_language("auto", None), None);
    assert_eq!(chunk_language("de", Some("en".to_string())), Some("de".to_string()));
    assert_eq!(chunk_language("de", None), Some("de".to_string()));
}

#[test]
fn acceleration_needs_gpu_for_flash_attention() {
    let mut c = SttConfig::default();
    let a = acceleration(&c);
    assert!(a.use_gpu && a.flash_attn);
    c.use_gpu = false;
    let a = acceleration(&c);
    assert!(!a.use_gpu && !a.flash_attn);
    c.use_gpu = true;
    c.flash_attn = false;
    let a = acceleration(&c);
    assert!(a.use_gpu && !a.flash_attn);
}

#[test]
fn joined_text_stays_trimmed() {
    let mut t = Transcript::empty(None);
    for piece in ["  one ", "\ttwo\n", "   ", " three"] {
        t.append_chunk(Transcript { text: piece.to_string(), language: None, segments: vec![] }, 0);
        assert_eq!(t.text, t.text.trim());
    }
    assert_eq!(t.text, "one two three");
}

#[test]
fn chunks_joined_at_their_span_starts() {
    let spans = vec![(0usize, 480000usize), (464000, 944000), (928000, 1_120_000)];
    let chunks = vec![
        Transcript { text: "one".to_string(), language: Some("en".to_string()), segments: vec![seg("one", 0, 900)] },
        Transcript { text: " ".to_string(), language: None, segments: vec![] },
        Transcript { text: "three".to_string(), language: Some("de".to_string()), segments: vec![seg("three", 100, 700)] },
    ];
    let t = join_chunks(None, &spans, 16000, chunks);
    assert_eq!(t.text, "one three");
    assert_eq!(t.language, Some("en".to_string()));
    assert_eq!(t.segments, vec![seg("one", 0, 900), seg("three", 58100, 58700)]);
    let t = join_chunks(Some("it".to_string()), &vec![], 16000, vec![]);
    assert_eq!(t.text, "");
    assert_eq!(t.language, Some("it".to_string()));
}
