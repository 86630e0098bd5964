//! The recording as an uncompressed audio container.
//!
//! The container is written by the `hound` crate: sixteen-bit integer
//! samples behind a WAVE header. What goes into it is decided here: each
//! sample is quantized, and the recording is labelled mono at 44.1 kHz.

use crate::audio::quantize::{quantize_samples, quantized_samples};
use crate::error::SessionError;
use vstd::prelude::*;

verus! {

/// The error type of `hound`, carried as an opaque value.
#[verifier::external_type_specification]
#[verifier::external_body]
pub struct ExWavError(hound::Error);

/// Sample rate that a recording is labelled with.
pub const WAV_SAMPLE_RATE: u32 = 44100;

/// Channel count that a recording is labelled with.
pub const WAV_CHANNELS: u16 = 1;

/// Most samples that a container can hold: its header counts the bytes of
/// the samples, and thirty-six more, in thirty-two bits.
pub const MAX_WAV_SAMPLES: usize = 0x7fff_ffed;

/// The bytes of the container that `hound` writes for `samples`, as
/// sixteen-bit integers labelled with `channels` and `sample_rate`.
pub uninterp spec fn wav_container(channels: u16, sample_rate: u32, samples: Seq<i16>) -> Seq<u8>;

/// Writes `samples` into a container in memory: `hound::WavWriter::new` on a
/// cursor over an empty vector, with sixteen bits per integer sample,
/// `write_sample` for each sample in order, then `finalize`.
///
/// The bytes are a function of the three arguments, named [`wav_container`].
/// Writing to memory does not fail and sixteen bits are supported, so the
/// one error left is the one that `finalize` reports when the samples are
/// not a whole number of frames.
///
/// The precondition leaves out what the writer's arithmetic cannot take. It
/// divides by the sample rate and by the channel count. It multiplies the
/// rate by the bytes per frame in thirty-two bits. For one or two channels
/// it writes the plain header, and then adds thirty-six to the bytes of the
/// samples, again in thirty-two bits; more channels get a longer header,
/// which is not asked for here.
#[verifier::external_body]
pub(crate) fn wav_encode(samples: &[i16], channels: u16, sample_rate: u32) -> (encoded: Result<
    Vec<u8>,
    hound::Error,
>)
    requires
        1 <= channels <= 2,
        sample_rate > 0,
        sample_rate * 2 * channels <= u32::MAX,
        2 * samples@.len() + 36 <= u32::MAX,
    ensures
        encoded is Ok <==> samples@.len() % (channels as nat) == 0,
        encoded matches Ok(bytes) ==> bytes@ == wav_container(channels, sample_rate, samples@),
{
    let spec = hound::WavSpec {
        channels,
        sample_rate,
        bits_per_sample: 16,
        sample_format: hound::SampleFormat::Int,
    };
    let mut sink = std::io::Cursor::new(Vec::new());
    let mut writer = hound::WavWriter::new(&mut sink, spec)?;
    for sample in samples {
        writer.write_sample(*sample)?;
    }
    writer.finalize()?;
    Ok(sink.into_inner())
}

/// The container, or the encoding error in place of what the writer
/// reported.
pub fn container_or_error(encoded: Result<Vec<u8>, hound::Error>) -> (container: Result<
    Vec<u8>,
    SessionError,
>)
    ensures
        container == match encoded {
            Ok(bytes) => Ok::<Vec<u8>, SessionError>(bytes),
            Err(_) => Err(SessionError::Encoding),
        },
{
    match encoded {
        Ok(bytes) => Ok(bytes),
        Err(_) => Err(SessionError::Encoding),
    }
}

/// The container of a recording: its samples quantized to sixteen bits,
/// labelled mono at 44.1 kHz.
pub open spec fn recording_container(samples: Seq<u32>) -> Seq<u8> {
    wav_container(WAV_CHANNELS, WAV_SAMPLE_RATE, quantized_samples(samples))
}

/// Encodes a recording as a container. A recording of more samples than a
/// container can hold is refused with the encoding error; any other is
/// encoded.
pub fn encode_recording(samples: &[u32]) -> (container: Result<Vec<u8>, SessionError>)
    ensures
        samples@.len() > MAX_WAV_SAMPLES ==> container == Err::<Vec<u8>, SessionError>(
            SessionError::Encoding,
        ),
        samples@.len() <= MAX_WAV_SAMPLES ==> (container matches Ok(bytes) && bytes@
            == recording_container(samples@)),
{
    if samples.len() > MAX_WAV_SAMPLES {
        return Err(SessionError::Encoding);
    }
    let values: Vec<i16> = quantize_samples(samples);
    container_or_error(wav_encode(values.as_slice(), WAV_CHANNELS, WAV_SAMPLE_RATE))
}

} // verus!
