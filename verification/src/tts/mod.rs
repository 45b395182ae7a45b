//! Text to speech: the model variant, the checks before a synthesis, its time limit and the
//! WAV file it produces.
pub mod routes;
pub mod wav;

use vstd::prelude::*;

use crate::text::{decimal, decimal_string, same_text, trim, trimmed};
use routes::Voice;

verus! {

/// The model variants: `Base` clones stored voice profiles, `CustomVoice` speaks with preset
/// speakers.
#[derive(Debug, Clone, Copy, PartialEq, Eq, Structural)]
pub enum ModelKind {
    Base,
    CustomVoice,
}

/// The languages the synthesiser speaks.
#[derive(Debug, Clone, Copy, PartialEq, Eq, Structural)]
pub enum Language {
    Chinese,
    English,
    Japanese,
    Korean,
    German,
    French,
    Russian,
    Portuguese,
    Spanish,
    Italian,
}

/// The preset speakers of the custom-voice model.
#[derive(Debug, Clone, Copy, PartialEq, Eq, Structural)]
pub enum Speaker {
    Serena,
    Vivian,
    UncleFu,
    Ryan,
    Aiden,
    OnoAnna,
    Sohee,
    Eric,
    Dylan,
}

/// The voice a synthesis speaks with, once checked.
#[derive(Debug, Clone, PartialEq, Eq)]
pub enum PlannedVoice {
    Preset(Speaker),
    Profile(String),
}

/// A synthesis that passed its checks: the trimmed text, its language and its voice.
#[derive(Debug, Clone, PartialEq, Eq)]
pub struct SynthesisPlan {
    pub text: String,
    pub language: Language,
    pub voice: PlannedVoice,
}

/// Why a synthesis was refused.
#[derive(Debug, Clone, PartialEq, Eq)]
pub enum SynthesisError {
    /// Nothing but white space to say.
    EmptyText,
    /// The language code is not one the synthesiser speaks; the text says why.
    Language(String),
    /// A preset speaker was asked of the model variant given, which has none.
    PresetNeedsCustomVoice(ModelKind),
    /// The preset speaker is unknown; the text says why.
    Speaker(String),
    /// A voice profile was asked of the model variant given, which cannot clone one.
    ProfileNeedsBase(ModelKind),
    /// The synthesis took longer than allowed.
    Timeout { elapsed_ms: u128, timeout_ms: u128 },
}

/// The name of a model variant.
pub open spec fn kind_name(k: ModelKind) -> Seq<char> {
    match k {
        ModelKind::Base => "base"@,
        ModelKind::CustomVoice => "custom-voice"@,
    }
}

/// The model variant a configuration names: `base`, or the custom-voice model for any
/// other name.
pub fn model_kind(model: &str) -> (k: ModelKind)
    ensures
        k == (if model@ == "base"@ {
            ModelKind::Base
        } else {
            ModelKind::CustomVoice
        }),
{
    if same_text(model, "base") {
        ModelKind::Base
    } else {
        ModelKind::CustomVoice
    }
}

/// The name of a model variant.
pub fn model_kind_name(k: ModelKind) -> (s: String)
    ensures
        s@ == kind_name(k),
{
    match k {
        ModelKind::Base => String::from_str("base"),
        ModelKind::CustomVoice => String::from_str("custom-voice"),
    }
}

/// The time limit of one synthesis in milliseconds: the configured one, at least one.
pub fn synthesis_timeout_ms(configured: u64) -> (ms: u64)
    ensures
        ms == (if configured < 1 {
            1
        } else {
            configured
        }),
{
    if configured < 1 {
        1
    } else {
        configured
    }
}

/// The part of a language code before its first `-`, the region being ignored.
pub open spec fn base_code(code: Seq<char>) -> Seq<char>
    decreases code.len(),
{
    if code.len() == 0 || code[0] == '-' {
        Seq::empty()
    } else {
        seq![code[0]] + base_code(code.drop_first())
    }
}

/// Whether every character of `s` is ASCII.
pub open spec fn is_ascii_text(s: Seq<char>) -> bool {
    forall|i: int| 0 <= i < s.len() ==> (s[i] as u32) < 128
}

/// `c` with an ASCII capital letter made small.
pub open spec fn ascii_lower_char(c: char) -> char {
    if 'A' <= c <= 'Z' {
        ((c as u32) + 32) as char
    } else {
        c
    }
}

/// `s` with its ASCII capital letters made small.
pub open spec fn ascii_lower(s: Seq<char>) -> Seq<char> {
    s.map_values(|c: char| ascii_lower_char(c))
}

/// The language with a given small-letter name or code.
pub open spec fn language_named(s: Seq<char>) -> Option<Language> {
    if s == "english"@ || s == "en"@ {
        Some(Language::English)
    } else if s == "chinese"@ || s == "zh"@ {
        Some(Language::Chinese)
    } else if s == "japanese"@ || s == "ja"@ {
        Some(Language::Japanese)
    } else if s == "korean"@ || s == "ko"@ {
        Some(Language::Korean)
    } else if s == "german"@ || s == "de"@ {
        Some(Language::German)
    } else if s == "french"@ || s == "fr"@ {
        Some(Language::French)
    } else if s == "russian"@ || s == "ru"@ {
        Some(Language::Russian)
    } else if s == "portuguese"@ || s == "pt"@ {
        Some(Language::Portuguese)
    } else if s == "spanish"@ || s == "es"@ {
        Some(Language::Spanish)
    } else if s == "italian"@ || s == "it"@ {
        Some(Language::Italian)
    } else {
        None
    }
}

/// The preset speaker with a given small-letter name.
pub open spec fn speaker_named(s: Seq<char>) -> Option<Speaker> {
    if s == "ryan"@ {
        Some(Speaker::Ryan)
    } else if s == "serena"@ {
        Some(Speaker::Serena)
    } else if s == "vivian"@ {
        Some(Speaker::Vivian)
    } else if s == "aiden"@ {
        Some(Speaker::Aiden)
    } else if s == "uncle_fu"@ || s == "unclefu"@ {
        Some(Speaker::UncleFu)
    } else if s == "ono_anna"@ || s == "onoanna"@ {
        Some(Speaker::OnoAnna)
    } else if s == "sohee"@ {
        Some(Speaker::Sohee)
    } else if s == "eric"@ {
        Some(Speaker::Eric)
    } else if s == "dylan"@ {
        Some(Speaker::Dylan)
    } else {
        None
    }
}

/// The value of a result, if it has one.
pub open spec fn ok_value<T, E>(r: Result<T, E>) -> Option<T> {
    match r {
        Ok(v) => Some(v),
        Err(_) => None,
    }
}

/// What `speakers_core::lang::parse_language` makes of a language code.
pub uninterp spec fn language_of_code(code: Seq<char>) -> Option<Language>;

/// What `speakers_core::lang::parse_speaker` makes of a speaker name.
pub uninterp spec fn speaker_of_name(name: Seq<char>) -> Option<Speaker>;

/// The text of the error for an unknown language code.
pub open spec fn language_error(code: Seq<char>) -> Seq<char> {
    "unknown language '"@ + code + "': Unknown language: "@ + base_code(code)
}

/// The text of the error for an unknown preset speaker.
pub open spec fn speaker_error(name: Seq<char>) -> Seq<char> {
    "unknown preset voice '"@ + name + "': Unknown speaker: "@ + name
}

/// Calls `speakers_core::lang::parse_language`, which takes the part of `code` before its
/// first `-`, lowercases it and reads it as a language name or code, and reports the language
/// by its variant or the error by its text. Claimed here: the result is the same for the same
/// code; for an ASCII code it is the language of the table in `language_named`; the error's
/// text is the one the function formats.
#[verifier::external_body]
fn parse_language_code(code: &str) -> (r: Result<Language, String>)
    ensures
        ok_value(r) == language_of_code(code@),
        is_ascii_text(base_code(code@)) ==> ok_value(r) == language_named(
            ascii_lower(base_code(code@)),
        ),
        r matches Err(m) ==> m@ == language_error(code@),
{
    match speakers_core::lang::parse_language(code) {
        Ok(qwen3_tts::Language::Chinese) => Ok(Language::Chinese),
        Ok(qwen3_tts::Language::English) => Ok(Language::English),
        Ok(qwen3_tts::Language::Japanese) => Ok(Language::Japanese),
        Ok(qwen3_tts::Language::Korean) => Ok(Language::Korean),
        Ok(qwen3_tts::Language::German) => Ok(Language::German),
        Ok(qwen3_tts::Language::French) => Ok(Language::French),
        Ok(qwen3_tts::Language::Russian) => Ok(Language::Russian),
        Ok(qwen3_tts::Language::Portuguese) => Ok(Language::Portuguese),
        Ok(qwen3_tts::Language::Spanish) => Ok(Language::Spanish),
        Ok(qwen3_tts::Language::Italian) => Ok(Language::Italian),
        Err(e) => Err(e.to_string()),
    }
}

/// Calls `speakers_core::lang::parse_speaker`, which lowercases `name` and reads it as a
/// preset speaker, and reports the speaker by its variant or the error by its text. Claimed
/// here: the result is the same for the same name; for an ASCII name it is the speaker of
/// the table in `speaker_named`; the error's text is the one the function formats.
#[verifier::external_body]
fn parse_speaker_name(name: &str) -> (r: Result<Speaker, String>)
    ensures
        ok_value(r) == speaker_of_name(name@),
        is_ascii_text(name@) ==> ok_value(r) == speaker_named(ascii_lower(name@)),
        r matches Err(m) ==> m@ == speaker_error(name@),
{
    match speakers_core::lang::parse_speaker(name) {
        Ok(qwen3_tts::Speaker::Serena) => Ok(Speaker::Serena),
        Ok(qwen3_tts::Speaker::Vivian) => Ok(Speaker::Vivian),
        Ok(qwen3_tts::Speaker::UncleFu) => Ok(Speaker::UncleFu),
        Ok(qwen3_tts::Speaker::Ryan) => Ok(Speaker::Ryan),
        Ok(qwen3_tts::Speaker::Aiden) => Ok(Speaker::Aiden),
        Ok(qwen3_tts::Speaker::OnoAnna) => Ok(Speaker::OnoAnna),
        Ok(qwen3_tts::Speaker::Sohee) => Ok(Speaker::Sohee),
        Ok(qwen3_tts::Speaker::Eric) => Ok(Speaker::Eric),
        Ok(qwen3_tts::Speaker::Dylan) => Ok(Speaker::Dylan),
        Err(e) => Err(e.to_string()),
    }
}

/// Whether `r` is what a synthesis of `text` in `language` with `voice` on the `model`
/// variant comes to before the model runs: the text must hold more than white space, the
/// language must be known, a preset speaker needs the custom-voice model and must be known,
/// a voice profile needs the base model; checked in that order.
pub open spec fn is_synthesis_outcome(
    r: Result<SynthesisPlan, SynthesisError>,
    text: Seq<char>,
    voice: Voice,
    language: Seq<char>,
    model: ModelKind,
) -> bool {
    if trimmed(text).len() == 0 {
        r == Err::<SynthesisPlan, SynthesisError>(SynthesisError::EmptyText)
    } else if language_of_code(language) is None {
        r matches Err(SynthesisError::Language(m)) && m@ == language_error(language)
    } else {
        let lang = language_of_code(language)->0;
        match voice {
            Voice::Preset { name } => if model != ModelKind::CustomVoice {
                r == Err::<SynthesisPlan, SynthesisError>(
                    SynthesisError::PresetNeedsCustomVoice(model),
                )
            } else if speaker_of_name(name@) is None {
                r matches Err(SynthesisError::Speaker(m)) && m@ == speaker_error(name@)
            } else {
                r matches Ok(plan) && plan.text@ == trimmed(text) && plan.language == lang
                    && plan.voice == PlannedVoice::Preset(speaker_of_name(name@)->0)
            },
            Voice::Profile { name } => if model != ModelKind::Base {
                r == Err::<SynthesisPlan, SynthesisError>(SynthesisError::ProfileNeedsBase(model))
            } else {
                r matches Ok(plan) && plan.text@ == trimmed(text) && plan.language == lang
                    && plan.voice == PlannedVoice::Profile(name)
            },
        }
    }
}

/// Checks a synthesis request before the model runs, and reads its language and voice.
pub fn prepare_synthesis(
    text: &str,
    voice: &Voice,
    language: &str,
    model: ModelKind,
) -> (r: Result<SynthesisPlan, SynthesisError>)
    ensures
        is_synthesis_outcome(r, text@, *voice, language@, model),
        r matches Ok(plan) ==> plan.text@ == trimmed(text@) && trimmed(text@).len() > 0
            && language_of_code(language@) == Some(plan.language),
{
    let text = trim(text);
    if text.as_str().is_empty() {
        return Err(SynthesisError::EmptyText);
    }
    let language = match parse_language_code(language) {
        Ok(l) => l,
        Err(m) => return Err(SynthesisError::Language(m)),
    };
    match voice {
        Voice::Preset { name } => {
            if model != ModelKind::CustomVoice {
                return Err(SynthesisError::PresetNeedsCustomVoice(model));
            }
            match parse_speaker_name(name.as_str()) {
                Ok(speaker) => Ok(
                    SynthesisPlan { text, language, voice: PlannedVoice::Preset(speaker) },
                ),
                Err(m) => Err(SynthesisError::Speaker(m)),
            }
        },
        Voice::Profile { name } => {
            if model != ModelKind::Base {
                return Err(SynthesisError::ProfileNeedsBase(model));
            }
            Ok(SynthesisPlan { text, language, voice: PlannedVoice::Profile(name.clone()) })
        },
    }
}

/// Whether a synthesis that took `elapsed_nanos` nanoseconds is within `timeout_ms`
/// milliseconds; the error carries both times in whole milliseconds.
pub fn check_elapsed(elapsed_nanos: u128, timeout_ms: u64) -> (r: Result<(), SynthesisError>)
    ensures
        r is Ok <==> elapsed_nanos <= timeout_ms * 1_000_000,
        r is Err ==> r == Err::<(), SynthesisError>(
            SynthesisError::Timeout {
                elapsed_ms: (elapsed_nanos / 1_000_000) as u128,
                timeout_ms: timeout_ms as u128,
            },
        ),
{
    let limit = (timeout_ms as u128) * 1_000_000;
    if elapsed_nanos <= limit {
        Ok(())
    } else {
        Err(
            SynthesisError::Timeout {
                elapsed_ms: elapsed_nanos / 1_000_000,
                timeout_ms: timeout_ms as u128,
            },
        )
    }
}

/// The text of a synthesis error.
pub open spec fn error_text(e: SynthesisError) -> Seq<char> {
    match e {
        SynthesisError::EmptyText => "text is empty"@,
        SynthesisError::Language(m) => m@,
        SynthesisError::PresetNeedsCustomVoice(k) =>
            "preset voices require custom-voice model, but running "@ + kind_name(k),
        SynthesisError::Speaker(m) => m@,
        SynthesisError::ProfileNeedsBase(k) => "profile voices require base model, but running "@
            + kind_name(k),
        SynthesisError::Timeout { elapsed_ms, timeout_ms } => "synthesis exceeded timeout ("@
            + decimal(elapsed_ms as nat) + "ms > "@ + decimal(timeout_ms as nat) + "ms)"@,
    }
}

impl SynthesisError {
    /// The text of this error.
    pub fn message(&self) -> (m: String)
        ensures
            m@ == error_text(*self),
    {
        match self {
            SynthesisError::EmptyText => String::from_str("text is empty"),
            SynthesisError::Language(m) => m.clone(),
            SynthesisError::PresetNeedsCustomVoice(k) => {
                let mut m = String::from_str(
                    "preset voices require custom-voice model, but running ",
                );
                let name = model_kind_name(*k);
                m.append(name.as_str());
                m
            },
            SynthesisError::Speaker(m) => m.clone(),
            SynthesisError::ProfileNeedsBase(k) => {
                let mut m = String::from_str("profile voices require base model, but running ");
                let name = model_kind_name(*k);
                m.append(name.as_str());
                m
            },
            SynthesisError::Timeout { elapsed_ms, timeout_ms } => {
                let mut m = String::from_str("synthesis exceeded timeout (");
                let e = decimal_string(*elapsed_ms);
                m.append(e.as_str());
                m.append("ms > ");
                let t = decimal_string(*timeout_ms);
                m.append(t.as_str());
                m.append("ms)");
                m
            },
        }
    }
}

/// Whatever the voice and the model, a synthesis that passes its checks speaks the text with
/// its leading and trailing white space removed, in the language its code names; one that
/// has nothing but white space to say is refused as empty.
pub proof fn lemma_plan_speaks_trimmed_text(
    r: Result<SynthesisPlan, SynthesisError>,
    text: Seq<char>,
    voice: Voice,
    language: Seq<char>,
    model: ModelKind,
)
    requires
        is_synthesis_outcome(r, text, voice, language, model),
    ensures
        r matches Ok(plan) ==> plan.text@ == trimmed(text) && language_of_code(language) == Some(
            plan.language,
        ),
        trimmed(text).len() == 0 ==> r == Err::<SynthesisPlan, SynthesisError>(
            SynthesisError::EmptyText,
        ),
{
}

} // verus!
