use std::path::Path;

use transcribers::config::Config;
use transcribers::health::{health, models};
use transcribers::server::{service_info, stt_model_name, tts_model_name};

fn std_name(p: &str) -> String {
    Path::new(p).file_stem().and_then(|s| s.to_str()).unwrap_or("whisper").to_string()
}

#[test]
fn stt_model_name_matches_file_stem() {
    let cases = [
        "/models/ggml-large-v3-turbo.bin",
        "model.bin",
        "model",
        "/models/",
        "/models//",
        "/",
        "",
        ".",
        "..",
        "/a/..",
        "a/.",
        "a/./",
        "./",
        "./x.y.z",
        ".hidden",
        "/dir/.hidden",
        "..double",
        "trailing.",
        "a/b/c.tar.gz",
        "a//b",
        "./.",
        "x/./.",
        "...",
        "/models/whisper-small.en.bin",
    ];
    for p in cases {
        assert_eq!(stt_model_name(p), std_name(p), "path {:?}", p);
    }
}

#[test]
fn default_model_names() {
    let info = service_info(&Config::default());
    assert_eq!(info.stt_model, "ggml-large-v3-turbo");
    assert_eq!(info.tts_model, "qwen3-tts-custom-voice");
    assert_eq!(info.default_voice, "ryan");
    assert_eq!(tts_model_name("base"), "qwen3-tts-base");
}

#[test]
fn health_and_model_list() {
    let stt = "ggml-base".to_string();
    let tts = "qwen3-tts-base".to_string();
    let h = health(&stt, &tts, 42);
    assert_eq!(h.status, "ok");
    assert_eq!(h.stt_model, stt);
    assert_eq!(h.tts_model, tts);
    assert_eq!(h.uptime_secs, 42);
    let m = models(&stt, &tts);
    assert_eq!(m.object, "list");
    assert_eq!(m.data.len(), 2);
    assert_eq!(m.data[0].id, stt);
    assert_eq!(m.data[0].object, "model");
    assert_eq!(m.data[1].id, tts);
    assert_eq!(m.data[1].object, "model");
}

#[test]
fn model_names_are_plain() {
    for p in ["/a/b.c", "", "/", "..", "a/..", "x/.y", "dir/", "é/ü.bin"] {
        let n = stt_model_name(p);
        assert!(!n.is_empty(), "path {:?}", p);
        assert!(!n.contains('/'), "path {:?}", p);
    }
}
