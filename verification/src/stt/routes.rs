//! The transcription endpoint: its form fields, its answer formats and its errors.
use vstd::prelude::*;

use crate::stt::whisper::{segment_models, Transcript, TranscriptSegment};
use crate::text::same_text;

verus! {

/// What a transcription job hands back: the text, its language and its segments.
#[derive(Debug, Clone)]
pub struct SttResult {
    pub text: String,
    pub language: Option<String>,
    pub segments: Vec<TranscriptSegment>,
}

/// The form fields the endpoint reads.
#[derive(Debug, Clone, Copy, PartialEq, Eq, Structural)]
pub enum FormField {
    /// `file`: the audio.
    File,
    /// `response_format`: how to answer.
    ResponseFormat,
    /// `language`: a language hint, read and not used.
    Language,
    /// Any other field, such as `model`: ignored.
    Ignored,
}

/// The ways of answering a transcription.
#[derive(Debug, Clone, Copy, PartialEq, Eq, Structural)]
pub enum ResponseFormat {
    /// `{"text": ...}`.
    Json,
    /// The text, the language and the segments with their times.
    VerboseJson,
    /// The text alone, as plain text.
    Text,
}

/// What the form of a request held.
#[derive(Debug, Clone)]
pub struct TranscriptionForm {
    pub audio: Option<Vec<u8>>,
    pub response_format: String,
    pub language: Option<String>,
}

/// Why the transcription endpoint failed.
#[derive(Debug, Clone, PartialEq, Eq)]
pub enum SttError {
    /// The `file` field could not be read, for the reason given.
    ReadFile(String),
    /// The form had no `file` field.
    MissingFile,
    /// The audio could not be decoded, for the reason given.
    DecodeAudio(String),
    /// The worker no longer takes jobs.
    EngineUnavailable,
    /// The worker went away before it answered.
    WorkerDropped,
    /// Recognition failed, for the reason given.
    TranscriptionFailed(String),
}

/// The answer to a transcription.
#[derive(Debug, Clone)]
pub enum TranscriptionReply {
    Json { text: String },
    VerboseJson { text: String, language: Option<String>, segments: Vec<TranscriptSegment> },
    Text(String),
}

impl SttResult {
    /// The result a worker hands back for a transcript.
    pub fn from_transcript(t: Transcript) -> (r: SttResult)
        ensures
            r.text == t.text,
            r.language == t.language,
            r.segments == t.segments,
    {
        SttResult { text: t.text, language: t.language, segments: t.segments }
    }
}

/// The field a form field's name stands for.
pub fn form_field(name: &str) -> (f: FormField)
    ensures
        f == (if name@ == "file"@ {
            FormField::File
        } else if name@ == "response_format"@ {
            FormField::ResponseFormat
        } else if name@ == "language"@ {
            FormField::Language
        } else {
            FormField::Ignored
        }),
{
    if same_text(name, "file") {
        FormField::File
    } else if same_text(name, "response_format") {
        FormField::ResponseFormat
    } else if same_text(name, "language") {
        FormField::Language
    } else {
        FormField::Ignored
    }
}

/// The answer format a `response_format` value names: `verbose_json`, `text`, and JSON for
/// anything else.
pub open spec fn format_named(name: Seq<char>) -> ResponseFormat {
    if name == "verbose_json"@ {
        ResponseFormat::VerboseJson
    } else if name == "text"@ {
        ResponseFormat::Text
    } else {
        ResponseFormat::Json
    }
}

/// The answer format a `response_format` field asks for: `verbose_json`, `text`, and JSON
/// for anything else.
pub fn response_format(name: &str) -> (f: ResponseFormat)
    ensures
        f == format_named(name@),
        name@ == "verbose_json"@ <==> f == ResponseFormat::VerboseJson,
        name@ == "text"@ <==> f == ResponseFormat::Text,
        name@ != "verbose_json"@ && name@ != "text"@ <==> f == ResponseFormat::Json,
{
    proof {
        lemma_other_formats_are_json(name@);
    }
    if same_text(name, "verbose_json") {
        ResponseFormat::VerboseJson
    } else if same_text(name, "text") {
        ResponseFormat::Text
    } else {
        ResponseFormat::Json
    }
}

impl TranscriptionForm {
    /// A form before any field is read: no audio, the JSON format, no language.
    pub fn new() -> (f: TranscriptionForm)
        ensures
            f.audio is None,
            f.response_format@ == "json"@,
            f.language is None,
    {
        TranscriptionForm {
            audio: None,
            response_format: String::from_str("json"),
            language: None,
        }
    }

    /// Takes the bytes of a `file` field as the audio; a later file replaces an earlier one.
    pub fn set_audio(&mut self, bytes: Vec<u8>)
        ensures
            final(self).audio == Some(bytes),
            final(self).response_format == old(self).response_format,
            final(self).language == old(self).language,
    {
        self.audio = Some(bytes);
    }

    /// Takes the text of a field: a `response_format` field sets the answer format, a
    /// `language` field the language; any other field leaves the form as it is.
    pub fn apply_text(&mut self, field: FormField, text: String)
        ensures
            final(self).audio == old(self).audio,
            final(self).response_format == (if field == FormField::ResponseFormat {
                text
            } else {
                old(self).response_format
            }),
            final(self).language == (if field == FormField::Language {
                Some(text)
            } else {
                old(self).language
            }),
    {
        match field {
            FormField::ResponseFormat => {
                self.response_format = text;
            },
            FormField::Language => {
                self.language = Some(text);
            },
            _ => {},
        }
    }

    /// The audio of the form and the answer format it asks for; an error when the form had
    /// no `file` field. The language field plays no part.
    pub fn into_request(self) -> (r: Result<(Vec<u8>, ResponseFormat), SttError>)
        ensures
            r == request_of(self),
    {
        let format = response_format(self.response_format.as_str());
        match self.audio {
            Some(audio) => Ok((audio, format)),
            None => Err(SttError::MissingFile),
        }
    }
}

/// What a form asks for: its audio in the format its `response_format` names, or the
/// missing-file error when it has no audio.
pub open spec fn request_of(f: TranscriptionForm) -> Result<(Vec<u8>, ResponseFormat), SttError> {
    match f.audio {
        Some(audio) => Ok((audio, format_named(f.response_format@))),
        None => Err(SttError::MissingFile),
    }
}

/// Forms that differ only in their language field ask for the same thing.
pub proof fn lemma_language_plays_no_part(a: TranscriptionForm, b: TranscriptionForm)
    requires
        a.audio == b.audio,
        a.response_format@ == b.response_format@,
    ensures
        request_of(a) == request_of(b),
{
}

/// Fields other than `file` and `response_format` leave what a form asks for unchanged.
pub proof fn lemma_other_fields_play_no_part(f: TranscriptionForm, field: FormField, text: String)
    requires
        field != FormField::ResponseFormat,
    ensures
        request_of(TranscriptionForm {
            language: if field == FormField::Language {
                Some(text)
            } else {
                f.language
            },
            ..f
        }) == request_of(f),
{
}

/// The answer to `result` in `format`.
pub open spec fn reply_for(result: SttResult, format: ResponseFormat) -> TranscriptionReply {
    match format {
        ResponseFormat::VerboseJson => TranscriptionReply::VerboseJson {
            text: result.text,
            language: result.language,
            segments: result.segments,
        },
        ResponseFormat::Text => TranscriptionReply::Text(result.text),
        ResponseFormat::Json => TranscriptionReply::Json { text: result.text },
    }
}

/// The answer to a transcription in the format asked for.
pub fn transcription_reply(result: SttResult, format: ResponseFormat) -> (r: TranscriptionReply)
    ensures
        r == reply_for(result, format),
{
    match format {
        ResponseFormat::VerboseJson => TranscriptionReply::VerboseJson {
            text: result.text,
            language: result.language,
            segments: result.segments,
        },
        ResponseFormat::Text => TranscriptionReply::Text(result.text),
        ResponseFormat::Json => TranscriptionReply::Json { text: result.text },
    }
}

/// The text of a transcription error.
pub open spec fn stt_error_text(e: SttError) -> Seq<char> {
    match e {
        SttError::ReadFile(m) => "failed to read file: "@ + m@,
        SttError::MissingFile => "missing 'file' field"@,
        SttError::DecodeAudio(m) => "failed to decode audio: "@ + m@,
        SttError::EngineUnavailable => "STT engine unavailable"@,
        SttError::WorkerDropped => "STT worker dropped"@,
        SttError::TranscriptionFailed(m) => "transcription failed: "@ + m@,
    }
}

impl SttError {
    /// The HTTP status that answers this error: 400 for a bad request, 503 when the worker
    /// takes no jobs, 500 otherwise.
    pub fn status(&self) -> (code: u16)
        ensures
            code == (match self {
                SttError::ReadFile(_) | SttError::MissingFile | SttError::DecodeAudio(_) => 400u16,
                SttError::EngineUnavailable => 503u16,
                _ => 500u16,
            }),
    {
        match self {
            SttError::ReadFile(_) | SttError::MissingFile | SttError::DecodeAudio(_) => 400,
            SttError::EngineUnavailable => 503,
            _ => 500,
        }
    }

    /// The text of the answer to this error.
    pub fn message(&self) -> (m: String)
        ensures
            m@ == stt_error_text(*self),
    {
        match self {
            SttError::ReadFile(e) => prefixed("failed to read file: ", e),
            SttError::MissingFile => String::from_str("missing 'file' field"),
            SttError::DecodeAudio(e) => prefixed("failed to decode audio: ", e),
            SttError::EngineUnavailable => String::from_str("STT engine unavailable"),
            SttError::WorkerDropped => String::from_str("STT worker dropped"),
            SttError::TranscriptionFailed(e) => prefixed("transcription failed: ", e),
        }
    }
}

/// `head` followed by `tail`.
fn prefixed(head: &str, tail: &String) -> (s: String)
    ensures
        s@ == head@ + tail@,
{
    let mut s = head.to_owned();
    s.append(tail.as_str());
    s
}

/// Only `verbose_json` and `text` change the answer format; every other name, however close,
/// asks for JSON.
pub proof fn lemma_other_formats_are_json(name: Seq<char>)
    ensures
        format_named(name) == ResponseFormat::VerboseJson <==> name == "verbose_json"@,
        format_named(name) == ResponseFormat::Text <==> name == "text"@,
        name != "verbose_json"@ && name != "text"@ ==> format_named(name) == ResponseFormat::Json,
{
    reveal_strlit("verbose_json");
    reveal_strlit("text");
    assert("text"@.len() != "verbose_json"@.len());
}

} // verus!
