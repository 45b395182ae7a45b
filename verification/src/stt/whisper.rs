//! Transcripts and the decisions around a Whisper run: whether to run it at all, how long
//! audio is cut into chunks, and how the chunks' transcripts are put together.
use vstd::prelude::*;

use crate::config::SttConfig;
use crate::text::{
    lemma_trim_idempotent, lemma_trim_no_ends, lemma_trimmed_ends, same_text,
    trim, trimmed,
};

verus! {

/// One recognised stretch of speech, with its times in milliseconds from the start of the
/// audio.
#[derive(Debug, Clone, PartialEq, Eq)]
pub struct TranscriptSegment {
    pub text: String,
    pub start_ms: i64,
    pub end_ms: i64,
}

/// The text recognised in a piece of audio, its language where known, and its segments.
#[derive(Debug, Clone, PartialEq, Eq)]
pub struct Transcript {
    pub text: String,
    pub language: Option<String>,
    pub segments: Vec<TranscriptSegment>,
}

/// A segment as the recogniser reports it: its text as decoded and its times in
/// centiseconds from the start of the chunk.
#[derive(Debug, Clone, PartialEq, Eq)]
pub struct RawSegment {
    pub text: String,
    pub start_cs: i64,
    pub end_cs: i64,
}

/// A segment as a mathematical value.
pub struct SegmentModel {
    pub text: Seq<char>,
    pub start_ms: i64,
    pub end_ms: i64,
}

/// A transcript as a mathematical value.
pub struct TranscriptModel {
    pub text: Seq<char>,
    pub language: Option<Seq<char>>,
    pub segments: Seq<SegmentModel>,
}

/// The characters of an optional string.
pub open spec fn opt_text(o: Option<String>) -> Option<Seq<char>> {
    match o {
        Some(s) => Some(s@),
        None => None,
    }
}

impl View for TranscriptSegment {
    type V = SegmentModel;

    open spec fn view(&self) -> SegmentModel {
        SegmentModel { text: self.text@, start_ms: self.start_ms, end_ms: self.end_ms }
    }
}

/// The models of a sequence of segments.
pub open spec fn segment_models(segs: Seq<TranscriptSegment>) -> Seq<SegmentModel> {
    segs.map_values(|s: TranscriptSegment| s@)
}

impl View for Transcript {
    type V = TranscriptModel;

    open spec fn view(&self) -> TranscriptModel {
        TranscriptModel {
            text: self.text@,
            language: opt_text(self.language),
            segments: segment_models(self.segments@),
        }
    }
}

/// What to do with a piece of audio.
#[derive(Debug, Clone, PartialEq, Eq)]
pub enum TranscriptionPlan {
    /// Nothing to recognise: the answer is an empty transcript.
    Silent,
    /// Recognise the audio in one run.
    Whole,
    /// Recognise each span `[start, end)` of samples in turn and join the results.
    Chunked(Vec<(usize, usize)>),
}

/// `t + offset`, held at `i64::MAX` where it would pass it.
pub open spec fn offset_time(t: i64, offset: int) -> i64 {
    if t + offset > i64::MAX {
        i64::MAX
    } else {
        (t + offset) as i64
    }
}

/// A segment moved later by `offset_ms` milliseconds.
pub open spec fn shifted_segment(s: SegmentModel, offset_ms: u32) -> SegmentModel {
    SegmentModel {
        text: s.text,
        start_ms: offset_time(s.start_ms, offset_ms as int),
        end_ms: offset_time(s.end_ms, offset_ms as int),
    }
}

/// Segments moved later by `offset_ms` milliseconds.
pub open spec fn shifted_segments(segs: Seq<SegmentModel>, offset_ms: u32) -> Seq<SegmentModel> {
    segs.map_values(|s: SegmentModel| shifted_segment(s, offset_ms))
}

/// Text `acc` with the trimmed `piece` added after a single space; an empty trimmed piece
/// adds nothing, and no space goes before the first piece.
pub open spec fn joined_text(acc: Seq<char>, piece: Seq<char>) -> Seq<char> {
    let p = trimmed(piece);
    if p.len() == 0 {
        acc
    } else if acc.len() == 0 {
        p
    } else {
        acc + seq![' '] + p
    }
}

/// The transcript `t` followed by the chunk `c`, whose times start `offset_ms` milliseconds
/// into the audio: the first known language stays, the texts are joined, and the chunk's
/// segments follow, moved by the offset.
pub open spec fn appended(t: TranscriptModel, c: TranscriptModel, offset_ms: u32) -> TranscriptModel {
    TranscriptModel {
        text: joined_text(t.text, c.text),
        language: if t.language is None {
            c.language
        } else {
            t.language
        },
        segments: t.segments + shifted_segments(c.segments, offset_ms),
    }
}

/// The language hint for a configured language: none for automatic detection.
pub open spec fn hint_for(language: Seq<char>) -> Option<Seq<char>> {
    if language == "auto"@ {
        None
    } else {
        Some(language)
    }
}

impl Transcript {
    /// A transcript with no text and no segments.
    pub fn empty(language: Option<String>) -> (t: Transcript)
        ensures
            t.text@ == Seq::<char>::empty(),
            t.language == language,
            t.segments@ == Seq::<TranscriptSegment>::empty(),
    {
        Transcript { text: String::new(), language, segments: Vec::new() }
    }

    /// Adds the transcript of the next chunk, which starts `offset_ms` milliseconds into the
    /// audio.
    pub fn append_chunk(&mut self, chunk: Transcript, offset_ms: u32)
        ensures
            final(self)@ == appended(old(self)@, chunk@, offset_ms),
            final(self).segments@.len() == old(self).segments@.len() + chunk.segments@.len(),
            forall|k: int|
                0 <= k < old(self).segments@.len() ==> (#[trigger] final(self).segments@[k])@
                    == old(self).segments@[k]@,
            forall|k: int|
                #![trigger chunk.segments@[k]]
                0 <= k < chunk.segments@.len() ==> final(self).segments@[old(self).segments@.len()
                    + k]@ == (SegmentModel {
                    text: chunk.segments@[k].text@,
                    start_ms: if chunk.segments@[k].start_ms + offset_ms > i64::MAX {
                        i64::MAX
                    } else {
                        (chunk.segments@[k].start_ms + offset_ms) as i64
                    },
                    end_ms: if chunk.segments@[k].end_ms + offset_ms > i64::MAX {
                        i64::MAX
                    } else {
                        (chunk.segments@[k].end_ms + offset_ms) as i64
                    },
                }),
    {
        let ghost before = self@;
        let ghost chunk_model = chunk@;
        let Transcript { text: chunk_text, language: chunk_language, segments: chunk_segments } =
            chunk;
        if self.language.is_none() {
            self.language = chunk_language;
        }
        let piece = trim(chunk_text.as_str());
        if !piece.as_str().is_empty() {
            if !self.text.as_str().is_empty() {
                self.text.append(" ");
            }
            self.text.append(piece.as_str());
        }
        proof {
            reveal_strlit(" ");
        }
        assert(self.text@ =~= joined_text(before.text, chunk_model.text));
        let ghost start = self.segments@;
        let ghost text_after = self.text@;
        let ghost language_after = self.language;
        for segment in it: chunk_segments.into_iter()
            invariant
                it.seq() == chunk_segments@,
                self.text@ == text_after,
                self.language == language_after,
                self.segments@.len() == start.len() + it.index(),
                forall|k: int| 0 <= k < start.len() ==> self.segments@[k] == start[k],
                forall|k: int|
                    0 <= k < it.index() ==> (#[trigger] self.segments@[start.len() + k])@
                        == shifted_segment(chunk_segments@[k]@, offset_ms),
        {
            let TranscriptSegment { text, start_ms, end_ms } = segment;
            let moved = TranscriptSegment {
                text,
                start_ms: offset_by(start_ms, offset_ms),
                end_ms: offset_by(end_ms, offset_ms),
            };
            self.segments.push(moved);
        }
        assert(segment_models(self.segments@) =~= segment_models(start) + shifted_segments(
            segment_models(chunk_segments@),
            offset_ms,
        )) by {
            assert forall|k: int| 0 <= k < self.segments@.len() implies #[trigger] segment_models(
                self.segments@,
            )[k] == (segment_models(start) + shifted_segments(
                segment_models(chunk_segments@),
                offset_ms,
            ))[k] by {
                if k >= start.len() {
                    let j = k - start.len();
                    assert(self.segments@[start.len() + j] == self.segments@[k]);
                }
            }
        }
        proof {
            lemma_chunk_segments_in_order(before, chunk_model, offset_ms);
            assert forall|k: int| 0 <= k < before.segments.len() implies (
            #[trigger] self.segments@[k])@ == start[k]@ by {
                assert(segment_models(self.segments@)[k] == self.segments@[k]@);
            }
            assert forall|k: int|
                #![trigger chunk_model.segments[k]]
                0 <= k < chunk_model.segments.len() implies self.segments@[
                start.len() + k]@ == appended(before, chunk_model, offset_ms).segments[start.len()
                + k] by {
                assert(segment_models(self.segments@)[start.len() + k] == self.segments@[
                    start.len() + k]@);
            }
        }
    }
}

/// `t + offset_ms`, held at `i64::MAX`.
pub fn offset_by(t: i64, offset_ms: u32) -> (r: i64)
    ensures
        r == offset_time(t, offset_ms as int),
{
    if t > i64::MAX - (offset_ms as i64) {
        i64::MAX
    } else {
        t + offset_ms as i64
    }
}

/// The language to hand the recogniser: none where the configuration asks for automatic
/// detection, the configured language otherwise.
pub fn language_hint(language: &str) -> (hint: Option<String>)
    ensures
        opt_text(hint) == hint_for(language@),
{
    let auto = "auto";
    if same_text(language, auto) {
        None
    } else {
        Some(language.to_owned())
    }
}

/// Whether the recogniser runs on the GPU and with flash attention.
#[derive(Debug, Clone, Copy, PartialEq, Eq)]
pub struct Acceleration {
    pub use_gpu: bool,
    pub flash_attn: bool,
}

/// The acceleration a configuration asks for: flash attention only together with the GPU.
pub fn acceleration(config: &SttConfig) -> (a: Acceleration)
    ensures
        a.use_gpu == config.use_gpu,
        a.flash_attn == (config.use_gpu && config.flash_attn),
{
    Acceleration { use_gpu: config.use_gpu, flash_attn: config.use_gpu && config.flash_attn }
}

/// Milliseconds in `samples` samples at `sample_rate` samples per second, rounded down and
/// held at `u32::MAX`; zero for a zero rate.
pub open spec fn ms_for(samples: int, sample_rate: int) -> int {
    if sample_rate == 0 {
        0
    } else if samples * 1000 / sample_rate > u32::MAX {
        u32::MAX as int
    } else {
        samples * 1000 / sample_rate
    }
}

/// The time in milliseconds at which sample number `samples` starts.
pub fn samples_to_ms(samples: usize, sample_rate: u32) -> (ms: u32)
    ensures
        ms == ms_for(samples as int, sample_rate as int),
{
    if sample_rate == 0 {
        return 0;
    }
    let n = samples as u64;
    let rate = sample_rate as u64;
    if n > u64::MAX / 1000 {
        assert((n as int) * 1000 / (rate as int) > u32::MAX) by (nonlinear_arith)
            requires
                n > u64::MAX / 1000,
                1 <= rate <= u32::MAX,
        ;
        return u32::MAX;
    }
    let scaled = n * 1000;
    let q = scaled / rate;
    if q > u32::MAX as u64 {
        u32::MAX
    } else {
        q as u32
    }
}

/// Milliseconds in `cs` centiseconds, held at the ends of `i64`.
pub open spec fn cs_to_ms(cs: i64) -> i64 {
    if cs * 10 > i64::MAX {
        i64::MAX
    } else if cs * 10 < i64::MIN {
        i64::MIN
    } else {
        (cs * 10) as i64
    }
}

/// A time in centiseconds, in milliseconds.
pub fn centiseconds_to_ms(cs: i64) -> (ms: i64)
    ensures
        ms == cs_to_ms(cs),
{
    if cs > i64::MAX / 10 {
        i64::MAX
    } else if cs < i64::MIN / 10 {
        i64::MIN
    } else {
        cs * 10
    }
}

/// Samples in one chunk of audio: thirty seconds' worth, held at `usize::MAX`.
pub open spec fn chunk_len(sample_rate: int) -> int {
    if 30 * sample_rate > usize::MAX {
        usize::MAX as int
    } else {
        30 * sample_rate
    }
}

/// Whether `spans` cuts `len` samples into chunks of `chunk` samples, each after the first
/// starting `overlap` samples before the end of the one before it, the last one ending
/// at `len`.
pub open spec fn is_chunking(spans: Seq<(usize, usize)>, len: int, chunk: int, overlap: int) -> bool {
    &&& spans.len() > 0
    &&& spans[0].0 == 0
    &&& spans.last().1 == len
    &&& forall|k: int|
        #![trigger spans[k]]
        0 <= k < spans.len() ==> spans[k].0 < spans[k].1 && spans[k].1 == (if spans[k].0 + chunk
            < len {
            spans[k].0 + chunk
        } else {
            len
        })
    &&& forall|k: int|
        #![trigger spans[k]]
        0 <= k < spans.len() - 1 ==> spans[k].1 < len && spans[k + 1].0 == spans[k].1 - overlap
}

/// Samples in one chunk at `sample_rate`.
fn chunk_samples(sample_rate: u32) -> (c: usize)
    ensures
        c == chunk_len(sample_rate as int),
{
    let c: u64 = 30 * (sample_rate as u64);
    if c > usize::MAX as u64 {
        usize::MAX
    } else {
        c as usize
    }
}

/// The spans `[start, end)` in which `len` samples at `sample_rate` are recognised: chunks of
/// thirty seconds, each after the first starting one second before the end of the one
/// before it.
pub fn chunk_spans(len: usize, sample_rate: u32) -> (spans: Vec<(usize, usize)>)
    requires
        len > 0,
        sample_rate > 0,
    ensures
        is_chunking(spans@, len as int, chunk_len(sample_rate as int), sample_rate as int),
{
    let chunk = chunk_samples(sample_rate);
    let overlap = sample_rate as usize;
    let mut spans: Vec<(usize, usize)> = Vec::new();
    let mut offset: usize = 0;
    loop
        invariant_except_break
            offset < len,
            spans.len() == 0 ==> offset == 0,
            spans.len() > 0 ==> spans@.last().1 < len && offset == spans@.last().1 - overlap,
        invariant
            chunk == chunk_len(sample_rate as int),
            overlap == sample_rate,
            0 < len,
            0 < sample_rate,
            forall|k: int|
                #![trigger spans@[k]]
                0 <= k < spans.len() ==> spans@[k].0 < spans@[k].1 && spans@[k].1 == (if spans@[k].0
                    + chunk < len {
                    spans@[k].0 + chunk
                } else {
                    len as int
                }),
            forall|k: int|
                #![trigger spans@[k]]
                0 <= k < spans.len() - 1 ==> spans@[k].1 < len && spans@[k + 1].0 == spans@[k].1
                    - overlap,
            spans.len() > 0 ==> spans@[0].0 == 0,
        ensures
            is_chunking(spans@, len as int, chunk as int, overlap as int),
        decreases len - offset,
    {
        let end = if len - offset <= chunk {
            len
        } else {
            offset + chunk
        };
        let ghost before = spans@;
        spans.push((offset, end));
        assert(spans@[spans.len() - 1] == (offset, end));
        assert forall|k: int| 0 <= k < spans.len() - 1 implies #[trigger] spans@[k] == before[k] by {}
        if end == len {
            break;
        }
        assert(chunk > overlap);
        offset = end - overlap;
    }
    spans
}

/// What to do with `len` samples at `sample_rate`, `quiet` telling whether their loudness is
/// below the threshold of speech.
pub open spec fn plan_for(len: int, sample_rate: int, quiet: bool) -> int {
    if len == 0 || sample_rate == 0 || 10 * len < 3 * sample_rate || quiet {
        0
    } else if len <= chunk_len(sample_rate) {
        1
    } else {
        2
    }
}

/// Decides how `len` samples at `sample_rate` are recognised: not at all when there are no
/// samples, no rate, less than three tenths of a second of audio or only quiet audio; in one
/// run when they fit in one chunk; chunk by chunk otherwise.
pub fn plan_transcription(len: usize, sample_rate: u32, quiet: bool) -> (plan: TranscriptionPlan)
    ensures
        quiet ==> plan is Silent,
        len == 0 || sample_rate == 0 || 10 * len < 3 * sample_rate ==> plan is Silent,
        !quiet && len > 0 && sample_rate > 0 && 10 * len >= 3 * sample_rate && len <= 30
            * sample_rate ==> plan is Whole,
        !quiet && len > 0 && sample_rate > 0 && 10 * len >= 3 * sample_rate && len > 30
            * sample_rate ==> plan is Chunked,
        plan_for(len as int, sample_rate as int, quiet) == 0 <==> plan is Silent,
        plan_for(len as int, sample_rate as int, quiet) == 1 <==> plan is Whole,
        plan_for(len as int, sample_rate as int, quiet) == 2 <==> plan is Chunked,
        plan matches TranscriptionPlan::Chunked(spans) ==> is_chunking(
            spans@,
            len as int,
            chunk_len(sample_rate as int),
            sample_rate as int,
        ),
{
    if len == 0 || sample_rate == 0 {
        return TranscriptionPlan::Silent;
    }
    if (len as u128) * 10 < (sample_rate as u128) * 3 || quiet {
        return TranscriptionPlan::Silent;
    }
    if len <= chunk_samples(sample_rate) {
        TranscriptionPlan::Whole
    } else {
        TranscriptionPlan::Chunked(chunk_spans(len, sample_rate))
    }
}

/// Every sample of the audio lies in some span of a chunking.
pub proof fn lemma_chunking_covers(
    spans: Seq<(usize, usize)>,
    len: int,
    chunk: int,
    overlap: int,
    i: int,
)
    requires
        is_chunking(spans, len, chunk, overlap),
        overlap >= 0,
        0 <= i < len,
    ensures
        exists|k: int| #![trigger spans[k]] 0 <= k < spans.len() && spans[k].0 <= i < spans[k].1,
{
    lemma_prefix_covers(spans, len, chunk, overlap, spans.len() - 1, i);
}

/// The first `k + 1` spans of a chunking cover every sample before the end of span `k`.
proof fn lemma_prefix_covers(
    spans: Seq<(usize, usize)>,
    len: int,
    chunk: int,
    overlap: int,
    k: int,
    i: int,
)
    requires
        is_chunking(spans, len, chunk, overlap),
        overlap >= 0,
        0 <= k < spans.len(),
        0 <= i < spans[k].1,
    ensures
        exists|j: int| #![trigger spans[j]] 0 <= j <= k && spans[j].0 <= i < spans[j].1,
    decreases k,
{
    if i >= spans[k].0 {
        assert(spans[k].0 <= i < spans[k].1);
    } else {
        assert(k > 0);
        assert(spans[k - 1].1 < len);
        assert(spans[k].0 == spans[k - 1].1 - overlap);
        lemma_prefix_covers(spans, len, chunk, overlap, k - 1, i);
        let j = choose|j: int| #![trigger spans[j]] 0 <= j <= k - 1 && spans[j].0 <= i < spans[j].1;
        assert(0 <= j <= k && spans[j].0 <= i < spans[j].1);
    }
}

/// Whether a recognised segment carries any text.
pub open spec fn kept(r: RawSegment) -> bool {
    trimmed(r.text@).len() > 0
}

/// The segment that a kept raw segment becomes: its trimmed text, its times in milliseconds.
pub open spec fn segment_of(r: RawSegment) -> SegmentModel {
    SegmentModel {
        text: trimmed(r.text@),
        start_ms: cs_to_ms(r.start_cs),
        end_ms: cs_to_ms(r.end_cs),
    }
}

/// The raw texts of the kept segments, one after the other.
pub open spec fn kept_text(raw: Seq<RawSegment>) -> Seq<char>
    decreases raw.len(),
{
    if raw.len() == 0 {
        Seq::empty()
    } else if kept(raw.last()) {
        kept_text(raw.drop_last()) + raw.last().text@
    } else {
        kept_text(raw.drop_last())
    }
}

/// The segments that the kept raw segments become, in order.
pub open spec fn kept_segments(raw: Seq<RawSegment>) -> Seq<SegmentModel>
    decreases raw.len(),
{
    if raw.len() == 0 {
        Seq::empty()
    } else if kept(raw.last()) {
        kept_segments(raw.drop_last()).push(segment_of(raw.last()))
    } else {
        kept_segments(raw.drop_last())
    }
}

/// The transcript of one chunk from the segments the recogniser reported for it: segments
/// with only white space are dropped, the others keep their trimmed text, and the chunk's
/// text is their raw texts one after the other, trimmed.
pub fn assemble_chunk(language: Option<String>, raw: Vec<RawSegment>) -> (t: Transcript)
    ensures
        t.text@ == trimmed(kept_text(raw@)),
        t.language == language,
        segment_models(t.segments@) == kept_segments(raw@),
{
    let mut text = String::new();
    let mut segments: Vec<TranscriptSegment> = Vec::new();
    let ghost all = raw@;
    for r in it: raw.into_iter()
        invariant
            it.seq() == all,
            text@ == kept_text(all.take(it.index() as int)),
            segment_models(segments@) == kept_segments(all.take(it.index() as int)),
    {
        let ghost i = it.index();
        assert(all.take(i + 1).drop_last() =~= all.take(i as int));
        assert(all.take(i + 1).last() == r);
        let piece = trim(r.text.as_str());
        if !piece.as_str().is_empty() {
            text.append(r.text.as_str());
            let ghost before = segments@;
            segments.push(
                TranscriptSegment {
                    text: piece,
                    start_ms: centiseconds_to_ms(r.start_cs),
                    end_ms: centiseconds_to_ms(r.end_cs),
                },
            );
            assert(segment_models(segments@) =~= segment_models(before).push(segment_of(r)));
        }
    }
    assert(all.take(all.len() as int) =~= all);
    Transcript { text: trim(text.as_str()), language, segments }
}

/// The language of a chunk's transcript: the detected one under automatic detection, the
/// configured one otherwise.
pub fn chunk_language(configured: &str, detected: Option<String>) -> (l: Option<String>)
    ensures
        opt_text(l) == (if configured@ == "auto"@ {
            opt_text(detected)
        } else {
            Some(configured@)
        }),
{
    if same_text(configured, "auto") {
        detected
    } else {
        Some(configured.to_owned())
    }
}

/// The models of a sequence of transcripts.
pub open spec fn transcript_models(ts: Seq<Transcript>) -> Seq<TranscriptModel> {
    ts.map_values(|t: Transcript| t@)
}

/// The millisecond at which each span starts.
pub open spec fn span_offsets(spans: Seq<(usize, usize)>, sample_rate: u32) -> Seq<u32> {
    spans.map_values(|s: (usize, usize)| ms_for(s.0 as int, sample_rate as int) as u32)
}

/// `t` followed by each chunk in turn, chunk `i` starting `offsets[i]` milliseconds into the
/// audio.
pub open spec fn joined_all(t: TranscriptModel, chunks: Seq<TranscriptModel>, offsets: Seq<u32>) -> TranscriptModel
    decreases chunks.len(),
{
    if chunks.len() == 0 {
        t
    } else {
        appended(
            joined_all(t, chunks.drop_last(), offsets),
            chunks.last(),
            offsets[chunks.len() - 1],
        )
    }
}

/// The empty transcript with a given language.
pub open spec fn empty_model(language: Option<String>) -> TranscriptModel {
    TranscriptModel { text: Seq::empty(), language: opt_text(language), segments: Seq::empty() }
}

/// The transcript of chunked audio: an empty transcript with the language hint, followed by
/// the transcript of each span in turn, moved by the time at which its span starts.
pub fn join_chunks(
    hint: Option<String>,
    spans: &Vec<(usize, usize)>,
    sample_rate: u32,
    chunks: Vec<Transcript>,
) -> (t: Transcript)
    requires
        spans.len() == chunks.len(),
    ensures
        t@ == joined_all(
            empty_model(hint),
            transcript_models(chunks@),
            span_offsets(spans@, sample_rate),
        ),
{
    let ghost base = empty_model(hint);
    let ghost all = chunks@;
    let ghost offsets = span_offsets(spans@, sample_rate);
    let mut t = Transcript::empty(hint);
    assert(t@ == base) by {
        assert(t@.segments =~= Seq::<SegmentModel>::empty());
    }
    assert(transcript_models(all.take(0)) =~= Seq::<TranscriptModel>::empty());
    let mut k: usize = 0;
    for chunk in it: chunks.into_iter()
        invariant
            it.seq() == all,
            k == it.index(),
            spans.len() == all.len(),
            offsets == span_offsets(spans@, sample_rate),
            t@ == joined_all(base, transcript_models(all.take(it.index() as int)), offsets),
    {
        let ghost i = it.index();
        let offset = samples_to_ms(spans[k].0, sample_rate);
        assert(offset == offsets[i as int]);
        let ghost c = chunk@;
        t.append_chunk(chunk, offset);
        assert(transcript_models(all.take(i + 1)).drop_last() =~= transcript_models(
            all.take(i as int),
        ));
        assert(transcript_models(all.take(i + 1)).last() == c);
        k = k + 1;
    }
    assert(all.take(all.len() as int) =~= all);
    t
}

/// Joining a chunk puts each of the chunk's segments, in the chunk's order, after the earlier
/// segments, its times moved later by the chunk's offset (held at `i64::MAX`), its text kept.
pub proof fn lemma_chunk_segments_in_order(t: TranscriptModel, c: TranscriptModel, offset_ms: u32)
    ensures
        appended(t, c, offset_ms).segments.len() == t.segments.len() + c.segments.len(),
        forall|k: int|
            0 <= k < t.segments.len() ==> #[trigger] appended(t, c, offset_ms).segments[k]
                == t.segments[k],
        forall|k: int|
            #![trigger c.segments[k]]
            0 <= k < c.segments.len() ==> appended(t, c, offset_ms).segments[t.segments.len() + k]
                == (SegmentModel {
                text: c.segments[k].text,
                start_ms: if c.segments[k].start_ms + offset_ms > i64::MAX {
                    i64::MAX
                } else {
                    (c.segments[k].start_ms + offset_ms) as i64
                },
                end_ms: if c.segments[k].end_ms + offset_ms > i64::MAX {
                    i64::MAX
                } else {
                    (c.segments[k].end_ms + offset_ms) as i64
                },
            }),
{
}

/// Quiet audio is never recognised, however long it is; audio that is not quiet, has a rate
/// and lasts at least three tenths of a second is recognised in one run when it lasts at most
/// thirty seconds and in chunks when it lasts longer.
pub proof fn lemma_plan_by_loudness_and_length(len: int, sample_rate: int)
    requires
        0 <= len <= usize::MAX,
        0 <= sample_rate,
    ensures
        plan_for(len, sample_rate, true) == 0,
        (len > 0 && sample_rate > 0 && 10 * len >= 3 * sample_rate && len <= 30 * sample_rate)
            ==> plan_for(len, sample_rate, false) == 1,
        (len > 0 && sample_rate > 0 && 10 * len >= 3 * sample_rate && len > 30 * sample_rate)
            ==> plan_for(
            len,
            sample_rate,
            false,
        ) == 2,
        (len == 0 || sample_rate == 0 || 10 * len < 3 * sample_rate) ==> plan_for(
            len,
            sample_rate,
            false,
        ) == 0,
{
}

/// A kept segment adds its raw text, exactly as recognised and with nothing between, to the
/// chunk's text; a segment of white space adds nothing.
pub proof fn lemma_kept_text_push(raw: Seq<RawSegment>, r: RawSegment)
    ensures
        trimmed(r.text@).len() > 0 ==> kept_text(raw.push(r)) == kept_text(raw) + r.text@,
        trimmed(r.text@).len() == 0 ==> kept_text(raw.push(r)) == kept_text(raw),
{
    assert(raw.push(r).drop_last() =~= raw);
}

/// The text of a run of segments is the text of its first part followed by the text of the
/// rest, with nothing put between them.
pub proof fn lemma_kept_text_concat(a: Seq<RawSegment>, b: Seq<RawSegment>)
    ensures
        kept_text(a + b) == kept_text(a) + kept_text(b),
    decreases b.len(),
{
    if b.len() == 0 {
        assert(a + b =~= a);
        assert(kept_text(a) + kept_text(b) =~= kept_text(a));
    } else {
        lemma_kept_text_concat(a, b.drop_last());
        assert((a + b).drop_last() =~= a + b.drop_last());
        assert((a + b).last() == b.last());
        if kept(b.last()) {
            assert(kept_text(a + b) =~= kept_text(a) + kept_text(b));
        }
    }
}

/// A single kept segment gives its raw text, untrimmed, as the chunk's text before the final
/// trim; a kept segment turns into its trimmed text with its times in milliseconds.
pub proof fn lemma_kept_single(r: RawSegment)
    requires
        trimmed(r.text@).len() > 0,
    ensures
        kept_text(seq![r]) == r.text@,
        kept_segments(seq![r]) == seq![
            SegmentModel {
                text: trimmed(r.text@),
                start_ms: if r.start_cs * 10 > i64::MAX {
                    i64::MAX
                } else if r.start_cs * 10 < i64::MIN {
                    i64::MIN
                } else {
                    (r.start_cs * 10) as i64
                },
                end_ms: if r.end_cs * 10 > i64::MAX {
                    i64::MAX
                } else if r.end_cs * 10 < i64::MIN {
                    i64::MIN
                } else {
                    (r.end_cs * 10) as i64
                },
            },
        ],
{
    assert(seq![r].drop_last() =~= Seq::<RawSegment>::empty());
    assert(seq![r].last() == r);
    assert(kept(r));
    assert(kept_text(Seq::<RawSegment>::empty()) == Seq::<char>::empty());
    assert(kept_segments(Seq::<RawSegment>::empty()) == Seq::<SegmentModel>::empty());
    assert(Seq::<char>::empty() + r.text@ =~= r.text@);
    assert(Seq::<SegmentModel>::empty().push(segment_of(r)) =~= seq![segment_of(r)]);
}

/// Once a transcript knows its language, joining further chunks never changes it.
pub proof fn lemma_language_stays(t: TranscriptModel, c: TranscriptModel, offset_ms: u32)
    requires
        t.language is Some,
    ensures
        appended(t, c, offset_ms).language == t.language,
{
}

/// Joining a chunk keeps every earlier segment where it was, and adds one segment for each
/// segment of the chunk.
pub proof fn lemma_segments_kept(t: TranscriptModel, c: TranscriptModel, offset_ms: u32)
    ensures
        appended(t, c, offset_ms).segments.len() == t.segments.len() + c.segments.len(),
        appended(t, c, offset_ms).segments.subrange(0, t.segments.len() as int) == t.segments,
{
    assert(appended(t, c, offset_ms).segments.subrange(0, t.segments.len() as int)
        =~= t.segments);
}

/// A transcript's text stays free of white space at its ends as chunks are joined to it.
pub proof fn lemma_joined_text_trimmed(acc: Seq<char>, piece: Seq<char>)
    requires
        trimmed(acc) == acc,
    ensures
        trimmed(joined_text(acc, piece)) == joined_text(acc, piece),
{
    let p = trimmed(piece);
    lemma_trimmed_ends(piece);
    lemma_trimmed_ends(acc);
    if p.len() == 0 {
    } else if acc.len() == 0 {
        lemma_trim_idempotent(piece);
    } else {
        let j = acc + seq![' '] + p;
        assert(j[0] == acc[0]);
        assert(j.last() == p.last());
        lemma_trim_no_ends(j);
    }
}

/// The text of a chunk's transcript has no white space at its ends.
pub proof fn lemma_chunk_text_trimmed(raw: Seq<RawSegment>)
    ensures
        trimmed(trimmed(kept_text(raw))) == trimmed(kept_text(raw)),
{
    lemma_trim_idempotent(kept_text(raw));
}

/// Later samples never start at an earlier millisecond.
pub proof fn lemma_ms_monotonic(s1: int, s2: int, rate: int)
    requires
        0 <= s1 <= s2,
        0 <= rate,
    ensures
        ms_for(s1, rate) <= ms_for(s2, rate),
{
    if rate > 0 {
        assert(s1 * 1000 / rate <= s2 * 1000 / rate) by (nonlinear_arith)
            requires
                0 <= s1 <= s2,
                0 < rate,
        ;
    }
}

} // verus!
