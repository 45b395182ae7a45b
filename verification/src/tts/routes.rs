//! The speech endpoint: its request, the voice it names and its errors.
use vstd::prelude::*;

use crate::text::has_prefix;

verus! {

/// A request for speech: the text, the voice, the audio format and the model.
#[derive(Debug, Clone)]
pub struct SpeechRequest {
    pub input: String,
    pub voice: String,
    pub response_format: String,
    pub model: Option<String>,
}

/// The voice a request asks for: a preset speaker of the model, or a stored voice profile.
#[derive(Debug, Clone, PartialEq, Eq)]
pub enum Voice {
    Preset { name: String },
    Profile { name: String },
}

/// What a worker is asked to synthesise.
#[derive(Debug, Clone)]
pub struct SpeechJob {
    pub text: String,
    pub voice: Voice,
    pub language: String,
}

/// Why the speech endpoint failed.
#[derive(Debug, Clone, PartialEq, Eq)]
pub enum TtsError {
    /// The worker no longer takes jobs.
    EngineUnavailable,
    /// The worker went away before it answered.
    WorkerDropped,
    /// Synthesis failed, for the reason given.
    SynthesisFailed(String),
}

/// The voice a request gets when it names none.
pub fn default_voice() -> (v: String)
    ensures
        v@ == "ryan"@,
{
    String::from_str("ryan")
}

/// The audio format a request gets when it names none.
pub fn default_format() -> (f: String)
    ensures
        f@ == "wav"@,
{
    String::from_str("wav")
}

/// The marker that names a stored voice profile.
pub open spec fn profile_marker() -> Seq<char> {
    "profile:"@
}

/// The voice name in effect: the requested one, or the default when none was given.
pub open spec fn chosen_voice(voice: Seq<char>, default: Seq<char>) -> Seq<char> {
    if voice.len() == 0 {
        default
    } else {
        voice
    }
}

/// Whether a voice name names a stored profile.
pub open spec fn names_profile(v: Seq<char>) -> bool {
    profile_marker().len() <= v.len() && v.subrange(0, profile_marker().len() as int)
        == profile_marker()
}

/// Whether `v` is the voice that the name `voice` gives, with `default` standing in for an
/// empty name: `profile:NAME` names the stored profile `NAME`, any other name a preset
/// speaker.
pub open spec fn is_voice_for(v: Voice, voice: Seq<char>, default: Seq<char>) -> bool {
    let c = chosen_voice(voice, default);
    if names_profile(c) {
        v matches Voice::Profile { name } && name@ == c.subrange(
            profile_marker().len() as int,
            c.len() as int,
        )
    } else {
        v matches Voice::Preset { name } && name@ == c
    }
}

/// Reads a voice name: `profile:NAME` names the stored profile `NAME`, any other name a
/// preset speaker; an empty name stands for `default`.
pub fn parse_voice(voice: &str, default: &str) -> (v: Voice)
    ensures
        is_voice_for(v, voice@, default@),
{
    proof {
        reveal_strlit("profile:");
    }
    let chosen: &str = if voice.is_empty() {
        default
    } else {
        voice
    };
    let marker = "profile:";
    if has_prefix(chosen, marker) {
        let n = chosen.unicode_len();
        Voice::Profile { name: chosen.substring_char(8, n).to_owned() }
    } else {
        Voice::Preset { name: chosen.to_owned() }
    }
}

/// The job a speech request becomes: its text, its voice read against the server's default,
/// and English.
pub fn speech_job(request: SpeechRequest, default: &str) -> (job: SpeechJob)
    ensures
        job.text == request.input,
        is_voice_for(job.voice, request.voice@, default@),
        job.language@ == "en"@,
{
    let voice = parse_voice(request.voice.as_str(), default);
    SpeechJob { text: request.input, voice, language: String::from_str("en") }
}

impl TtsError {
    /// The HTTP status that answers this error.
    pub fn status(&self) -> (code: u16)
        ensures
            code == (match self {
                TtsError::EngineUnavailable => 503u16,
                _ => 500u16,
            }),
    {
        match self {
            TtsError::EngineUnavailable => 503,
            _ => 500,
        }
    }

    /// The text of the answer to this error.
    pub fn message(&self) -> (m: String)
        ensures
            m@ == (match self {
                TtsError::EngineUnavailable => "TTS engine unavailable"@,
                TtsError::WorkerDropped => "TTS worker dropped"@,
                TtsError::SynthesisFailed(e) => "synthesis failed: "@ + e@,
            }),
    {
        match self {
            TtsError::EngineUnavailable => String::from_str("TTS engine unavailable"),
            TtsError::WorkerDropped => String::from_str("TTS worker dropped"),
            TtsError::SynthesisFailed(e) => {
                let mut m = String::from_str("synthesis failed: ");
                m.append(e.as_str());
                m
            },
        }
    }
}

/// An empty voice name stands for the default voice.
pub proof fn lemma_empty_voice_is_default(v: Voice, default: Seq<char>)
    ensures
        is_voice_for(v, Seq::empty(), default) == is_voice_for(v, default, default),
{
}

/// `profile:` followed by any name asks for the stored profile of that name.
pub proof fn lemma_profile_voice(v: Voice, name: Seq<char>, default: Seq<char>)
    ensures
        is_voice_for(v, profile_marker() + name, default) <==> (v matches Voice::Profile { name: n }
            && n@ == name),
{
    reveal_strlit("profile:");
    let full = profile_marker() + name;
    assert(full.subrange(0, profile_marker().len() as int) =~= profile_marker());
    assert(full.subrange(profile_marker().len() as int, full.len() as int) =~= name);
}

} // verus!
