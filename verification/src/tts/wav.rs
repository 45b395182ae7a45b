//! The WAV file a synthesis is delivered in: mono, 16-bit PCM.
use vstd::prelude::*;

verus! {

/// The sample rate of synthesised speech.
pub const SPEECH_SAMPLE_RATE: u32 = 24000;

/// The largest number of samples whose sizes the WAV header can hold.
pub const MAX_WAV_SAMPLES: usize = 2147483629;

/// `x` as two bytes, least significant first.
pub open spec fn le16(x: int) -> Seq<u8> {
    seq![(x % 256) as u8, ((x / 256) % 256) as u8]
}

/// `x` as four bytes, least significant first.
pub open spec fn le32(x: int) -> Seq<u8> {
    seq![
        (x % 256) as u8,
        ((x / 256) % 256) as u8,
        ((x / 65536) % 256) as u8,
        ((x / 16777216) % 256) as u8,
    ]
}

/// The two bytes of a sample in two's complement, least significant first.
pub open spec fn sample_bytes(s: i16) -> Seq<u8> {
    le16(if s < 0 {
        s + 65536
    } else {
        s as int
    })
}

/// The samples one after the other, two bytes each.
pub open spec fn pcm16(samples: Seq<i16>) -> Seq<u8> {
    Seq::new(2 * samples.len(), |i: int| sample_bytes(samples[i / 2])[i % 2])
}

/// The 44-byte header of a mono 16-bit PCM WAV file at `rate` samples per second with
/// `data_len` bytes of samples: the RIFF chunk, the 16-byte `fmt ` chunk and the head of the
/// `data` chunk.
pub open spec fn wav_header(rate: int, data_len: int) -> Seq<u8> {
    seq![82u8, 73u8, 70u8, 70u8] + le32(36 + data_len) + seq![87u8, 65u8, 86u8, 69u8] + seq![
        102u8,
        109u8,
        116u8,
        32u8,
    ] + le32(16) + le16(1) + le16(1) + le32(rate) + le32(2 * rate) + le16(2) + le16(16) + seq![
        100u8,
        97u8,
        116u8,
        97u8,
    ] + le32(data_len)
}

/// The mono 16-bit PCM WAV file that holds `samples` at `rate` samples per second.
pub open spec fn wav_file(rate: int, samples: Seq<i16>) -> Seq<u8> {
    wav_header(rate, 2 * samples.len() as int) + pcm16(samples)
}

/// Writes `samples` with `hound::WavWriter` into memory: `WavWriter::new` on a cursor over a
/// vector, `write_sample` for each sample, `finalize`. Claimed here, as hound's source shows
/// it for one channel of 16-bit integers written to memory: the writer does not fail, and the
/// bytes are the 44-byte PCM header (RIFF and data sizes filled in by `finalize`) followed by
/// each sample in two bytes, least significant first. `requires` keeps the sizes that hound
/// adds up in `u32` from overflowing and the rate from being zero.
#[verifier::external_body]
fn hound_write_pcm16(
    samples: &[i16],
    channels: u16,
    sample_rate: u32,
    bits_per_sample: u16,
) -> (r: Result<Vec<u8>, String>)
    requires
        channels == 1,
        bits_per_sample == 16,
        0 < sample_rate,
        2 * sample_rate <= u32::MAX,
        2 * samples@.len() + 36 <= u32::MAX,
    ensures
        r is Ok,
        r matches Ok(bytes) ==> bytes@ == wav_file(sample_rate as int, samples@),
{
    let spec = hound::WavSpec { channels, sample_rate, bits_per_sample, sample_format: hound::SampleFormat::Int };
    let mut cursor = std::io::Cursor::new(Vec::new());
    let mut writer = hound::WavWriter::new(&mut cursor, spec).map_err(|e| e.to_string())?;
    for &sample in samples {
        writer.write_sample(sample).map_err(|e| e.to_string())?;
    }
    writer.finalize().map_err(|e| e.to_string())?;
    Ok(cursor.into_inner())
}

/// The WAV file of synthesised speech: mono 16-bit samples at the speech sample rate.
pub fn encode_wav(samples: &Vec<i16>) -> (bytes: Vec<u8>)
    requires
        samples.len() <= MAX_WAV_SAMPLES,
    ensures
        bytes@ == wav_file(SPEECH_SAMPLE_RATE as int, samples@),
{
    match hound_write_pcm16(samples.as_slice(), 1, SPEECH_SAMPLE_RATE, 16) {
        Ok(bytes) => bytes,
        Err(_) => Vec::new(),
    }
}

/// A WAV file holds 44 bytes of header and two bytes for each sample; its header gives the
/// size of the samples and, after the first eight bytes, of the rest of the file.
pub proof fn lemma_wav_sizes(rate: int, samples: Seq<i16>)
    ensures
        wav_file(rate, samples).len() == 44 + 2 * samples.len(),
        wav_file(rate, samples).subrange(40, 44) == le32(2 * samples.len() as int),
        wav_file(rate, samples).subrange(4, 8) == le32(
            wav_file(rate, samples).len() - 8,
        ),
        wav_file(rate, samples).subrange(44, 44 + 2 * samples.len() as int) == pcm16(samples),
{
    let f = wav_file(rate, samples);
    assert(f.subrange(40, 44) =~= le32(2 * samples.len() as int));
    assert(f.subrange(4, 8) =~= le32(36 + 2 * samples.len() as int));
    assert(f.subrange(44, 44 + 2 * samples.len() as int) =~= pcm16(samples));
}

} // verus!
