use transcribers::tts::routes::{
    default_format, default_voice, parse_voice, speech_job, SpeechRequest, TtsError, Voice,
};
use transcribers::tts::wav::{encode_wav, SPEECH_SAMPLE_RATE};
use transcribers::tts::{
    check_elapsed, model_kind, model_kind_name, prepare_synthesis,
    synthesis_timeout_ms, Language, ModelKind, PlannedVoice, Speaker, SynthesisError,
};

fn preset(n: &str) -> Voice {
    Voice::Preset { name: n.to_string() }
}

fn profile(n: &str) -> Voice {
    Voice::Profile { name: n.to_string() }
}

#[test]
fn request_defaults() {
    assert_eq!(default_voice(), "ryan");
    assert_eq!(default_format(), "wav");
}

#[test]
fn voices_are_read_from_names() {
    assert_eq!(parse_voice("serena", "ryan"), preset("serena"));
    assert_eq!(parse_voice("", "ryan"), preset("ryan"));
    assert_eq!(parse_voice("profile:alice", "ryan"), profile("alice"));
    assert_eq!(parse_voice("profile:", "ryan"), profile(""));
    assert_eq!(parse_voice("", "profile:bob"), profile("bob"));
    assert_eq!(parse_voice("Profile:alice", "ryan"), preset("Profile:alice"));
    assert_eq!(parse_voice("profile", "ryan"), preset("profile"));
    assert_eq!(parse_voice("profile:é", "ryan"), profile("é"));
}

#[test]
fn speech_request_becomes_english_job() {
    let req = SpeechRequest {
        input: "Hello".to_string(),
        voice: "profile:me".to_string(),
        response_format: "wav".to_string(),
        model: None,
    };
    let job = speech_job(req, "ryan");
    assert_eq!(job.text, "Hello");
    assert_eq!(job.voice, profile("me"));
    assert_eq!(job.language, "en");
}

#[test]
fn model_kinds_and_timeouts() {
    assert_eq!(model_kind("base"), ModelKind::Base);
    assert_eq!(model_kind("custom-voice"), ModelKind::CustomVoice);
    assert_eq!(model_kind("Base"), ModelKind::CustomVoice);
    assert_eq!(model_kind_name(ModelKind::Base), "base");
    assert_eq!(model_kind_name(ModelKind::CustomVoice), "custom-voice");
    assert_eq!(synthesis_timeout_ms(0), 1);
    assert_eq!(synthesis_timeout_ms(90_000), 90_000);
}

#[test]
fn languages_are_read_by_the_synthesiser_crate() {
    let cv = ModelKind::CustomVoice;
    let lang = |code: &str| prepare_synthesis("hi", &preset("ryan"), code, cv).map(|p| p.language);
    assert_eq!(lang("en"), Ok(Language::English));
    assert_eq!(lang("en-US"), Ok(Language::English));
    assert_eq!(lang("DE"), Ok(Language::German));
    assert_eq!(lang("Italian"), Ok(Language::Italian));
    assert_eq!(lang("zh-Hans-CN"), Ok(Language::Chinese));
    assert_eq!(
        lang("xx-YY"),
        Err(SynthesisError::Language("unknown language 'xx-YY': Unknown language: xx".to_string()))
    );
}

#[test]
fn speakers_are_read_by_the_synthesiser_crate() {
    let cv = ModelKind::CustomVoice;
    let speaker = |name: &str| prepare_synthesis("hi", &preset(name), "en", cv).map(|p| p.voice);
    assert_eq!(speaker("Ryan"), Ok(PlannedVoice::Preset(Speaker::Ryan)));
    assert_eq!(speaker("uncle_fu"), Ok(PlannedVoice::Preset(Speaker::UncleFu)));
    assert_eq!(speaker("OnoAnna"), Ok(PlannedVoice::Preset(Speaker::OnoAnna)));
    assert_eq!(speaker("dylan"), Ok(PlannedVoice::Preset(Speaker::Dylan)));
    assert_eq!(
        speaker("bob"),
        Err(SynthesisError::Speaker("unknown preset voice 'bob': Unknown speaker: bob".to_string()))
    );
}

#[test]
fn synthesis_checks_in_order() {
    let cv = ModelKind::CustomVoice;
    assert_eq!(prepare_synthesis("   ", &preset("ryan"), "en", cv), Err(SynthesisError::EmptyText));
    assert_eq!(
        prepare_synthesis("hi", &preset("ryan"), "xx", cv),
        Err(SynthesisError::Language(
            "unknown language 'xx': Unknown language: xx".to_string()
        ))
    );
    assert_eq!(
        prepare_synthesis("hi", &preset("ryan"), "en", ModelKind::Base),
        Err(SynthesisError::PresetNeedsCustomVoice(ModelKind::Base))
    );
    assert_eq!(
        prepare_synthesis("hi", &preset("nobody"), "en", cv),
        Err(SynthesisError::Speaker(
            "unknown preset voice 'nobody': Unknown speaker: nobody".to_string()
        ))
    );
    assert_eq!(
        prepare_synthesis("hi", &profile("me"), "en", cv),
        Err(SynthesisError::ProfileNeedsBase(cv))
    );
    let plan = prepare_synthesis("  Hello there  ", &preset("Ryan"), "en", cv).unwrap();
    assert_eq!(plan.text, "Hello there");
    assert_eq!(plan.language, Language::English);
    assert_eq!(plan.voice, PlannedVoice::Preset(Speaker::Ryan));
    let plan = prepare_synthesis("Bonjour", &profile("me"), "fr-CA", ModelKind::Base).unwrap();
    assert_eq!(plan.language, Language::French);
    assert_eq!(plan.voice, PlannedVoice::Profile("me".to_string()));
}

#[test]
fn synthesis_error_texts() {
    assert_eq!(SynthesisError::EmptyText.message(), "text is empty");
    assert_eq!(
        SynthesisError::PresetNeedsCustomVoice(ModelKind::Base).message(),
        "preset voices require custom-voice model, but running base"
    );
    assert_eq!(
        SynthesisError::ProfileNeedsBase(ModelKind::CustomVoice).message(),
        "profile voices require base model, but running custom-voice"
    );
    assert_eq!(
        SynthesisError::Timeout { elapsed_ms: 91234, timeout_ms: 90000 }.message(),
        "synthesis exceeded timeout (91234ms > 90000ms)"
    );
    assert_eq!(SynthesisError::Speaker("x".to_string()).message(), "x");
}

#[test]
fn time_limit() {
    assert_eq!(check_elapsed(90_000_000_000, 90_000), Ok(()));
    assert_eq!(
        check_elapsed(90_000_000_001, 90_000),
        Err(SynthesisError::Timeout { elapsed_ms: 90000, timeout_ms: 90000 })
    );
    assert_eq!(check_elapsed(0, 1), Ok(()));
}

#[test]
fn tts_errors() {
    assert_eq!(TtsError::EngineUnavailable.status(), 503);
    assert_eq!(TtsError::WorkerDropped.status(), 500);
    assert_eq!(TtsError::SynthesisFailed("x".to_string()).status(), 500);
    assert_eq!(TtsError::EngineUnavailable.message(), "TTS engine unavailable");
    assert_eq!(TtsError::WorkerDropped.message(), "TTS worker dropped");
    assert_eq!(TtsError::SynthesisFailed("boom".to_string()).message(), "synthesis failed: boom");
}

#[test]
fn wav_file_layout() {
    let samples: Vec<i16> = vec![0, 1, -1, i16::MAX, i16::MIN, 256];
    let bytes = encode_wav(&samples);
    assert_eq!(bytes.len(), 44 + 2 * samples.len());
    assert_eq!(&bytes[0..4], b"RIFF");
    assert_eq!(u32::from_le_bytes(bytes[4..8].try_into().unwrap()), (bytes.len() - 8) as u32);
    assert_eq!(&bytes[8..12], b"WAVE");
    assert_eq!(&bytes[12..16], b"fmt ");
    assert_eq!(u32::from_le_bytes(bytes[16..20].try_into().unwrap()), 16);
    assert_eq!(u16::from_le_bytes(bytes[20..22].try_into().unwrap()), 1);
    assert_eq!(u16::from_le_bytes(bytes[22..24].try_into().unwrap()), 1);
    assert_eq!(u32::from_le_bytes(bytes[24..28].try_into().unwrap()), SPEECH_SAMPLE_RATE);
    assert_eq!(u32::from_le_bytes(bytes[28..32].try_into().unwrap()), 48000);
    assert_eq!(u16::from_le_bytes(bytes[32..34].try_into().unwrap()), 2);
    assert_eq!(u16::from_le_bytes(bytes[34..36].try_into().unwrap()), 16);
    assert_eq!(&bytes[36..40], b"data");
    assert_eq!(u32::from_le_bytes(bytes[40..44].try_into().unwrap()), 12);
    let mut expected = Vec::new();
    for s in &samples {
        expected.extend_from_slice(&s.to_le_bytes());
    }
    assert_eq!(&bytes[44..], &expected[..]);
}

#[test]
fn wav_file_of_no_samples() {
    let bytes = encode_wav(&Vec::new());
    assert_eq!(bytes.len(), 44);
    assert_eq!(u32::from_le_bytes(bytes[4..8].try_into().unwrap()), 36);
    assert_eq!(u32::from_le_bytes(bytes[40..44].try_into().unwrap()), 0);
}
