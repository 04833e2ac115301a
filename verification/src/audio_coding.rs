//! Encoding of raw audio as FLAC.
//!
//! Live audio arrives as interleaved stereo samples of 16 bits. The `flacenc`
//! crate does the encoding; here it is decided which input is handed to it
//! and what becomes of its answers.

use flacenc::bitsink::ByteSink;
use flacenc::component::BitRepr;
use flacenc::component::Stream as FlacStream;
use flacenc::config::Encoder;
use flacenc::error::EncodeError;
use flacenc::error::Verified;
use flacenc::error::Verify;
use flacenc::error::VerifyError;
use flacenc::source::MemSource;
use vstd::arithmetic::div_mod::lemma_div_is_ordered_by_denominator;
use vstd::prelude::*;

verus! {

/// The encoder's settings, as `flacenc` holds them.
#[verifier::external_type_specification]
#[verifier::external_body]
pub struct ExEncoder(Encoder);

/// A value that `flacenc` has checked for consistency.
#[verifier::external_type_specification]
#[verifier::external_body]
#[verifier::reject_recursive_types(T)]
pub struct ExVerified<T>(Verified<T>);

/// Why `flacenc` found settings inconsistent.
#[verifier::external_type_specification]
#[verifier::external_body]
pub struct ExVerifyError(VerifyError);

/// Why `flacenc` could not encode.
#[verifier::external_type_specification]
#[verifier::external_body]
pub struct ExEncodeError(EncodeError);

/// An encoded stream, as `flacenc` holds it before it is written out.
#[verifier::external_type_specification]
#[verifier::external_body]
pub struct ExFlacStream(FlacStream);

/// The number of channels of the audio: stereo.
pub const CHANNELS: usize = 2;

/// The number of bits of one sample.
pub const BITS_PER_SAMPLE: usize = 16;

/// The highest number of samples per second and channel that the encoder
/// takes.
pub const MAX_SAMPLE_RATE: u32 = 96_000;

/// The length in bytes of the head of a FLAC stream: the marker, the header
/// of the first metadata block and the stream information in it.
pub const STREAM_HEAD_BYTES: usize = 42;

/// The number of totals of samples that the stream information can tell
/// apart: it has 36 bits for the total.
pub const TOTAL_SAMPLES_MODULUS: u64 = 0x10_0000_0000;

/// The smallest sample of 16 bits.
pub const MIN_SAMPLE: i32 = -32768;

/// The largest sample of 16 bits.
pub const MAX_SAMPLE: i32 = 32767;

/// The number of frames that a stream can number.
pub const MAX_FRAMES: usize = 0x8000_0000;

/// The smallest block that the encoder works with, in samples per channel.
pub const MIN_BLOCK_SIZE: usize = 32;

/// The largest block that the encoder works with, in samples per channel.
pub const MAX_BLOCK_SIZE: usize = 32767;

/// Every sample can be written in 16 bits.
pub open spec fn samples_fit(samples: Seq<i32>) -> bool {
    forall|i: int| 0 <= i < samples.len() ==> MIN_SAMPLE <= #[trigger] samples[i] <= MAX_SAMPLE
}

/// The frames that the samples fill, at `block_size` samples per channel and
/// frame, can all be numbered.
pub open spec fn frames_fit(sample_count: nat, block_size: usize) -> bool {
    &&& MIN_BLOCK_SIZE <= block_size <= MAX_BLOCK_SIZE
    &&& sample_count / CHANNELS as nat / block_size as nat + 1 < MAX_FRAMES
}

/// The samples are too many for their frames to be numbered, whatever the
/// size of the blocks: they do not fit even with the largest block.
pub open spec fn too_many_samples(sample_count: nat) -> bool {
    !frames_fit(sample_count, MAX_BLOCK_SIZE)
}

/// Samples that are too many with the largest block are too many with every
/// block: the smaller the blocks, the more frames they fill.
pub proof fn lemma_too_many_with_every_block(sample_count: nat, block_size: usize)
    requires
        too_many_samples(sample_count),
    ensures
        !frames_fit(sample_count, block_size),
{
    if MIN_BLOCK_SIZE <= block_size <= MAX_BLOCK_SIZE {
        lemma_div_is_ordered_by_denominator(
            (sample_count / CHANNELS as nat) as int,
            block_size as int,
            MAX_BLOCK_SIZE as int,
        );
    }
}

/// The first bytes of every FLAC stream: the marker `fLaC`.
pub open spec fn flac_marker() -> Seq<u8> {
    seq![0x66u8, 0x4cu8, 0x61u8, 0x43u8]
}

/// Whether the bytes begin as a FLAC stream does.
pub open spec fn begins_as_flac(bytes: Seq<u8>) -> bool {
    bytes.len() >= 4 && bytes.subrange(0, 4) == flac_marker()
}

/// The sample rate that the stream information in the head of a stream
/// records: 20 bits from byte 18 on.
pub open spec fn recorded_sample_rate(bytes: Seq<u8>) -> int {
    bytes[18] as int * 4096 + bytes[19] as int * 16 + bytes[20] as int / 16
}

/// The number of channels that the stream information records: 3 bits that
/// hold one less than the number.
pub open spec fn recorded_channels(bytes: Seq<u8>) -> int {
    bytes[20] as int / 2 % 8 + 1
}

/// The bit depth that the stream information records: 5 bits that hold one
/// less than the depth.
pub open spec fn recorded_bits_per_sample(bytes: Seq<u8>) -> int {
    bytes[20] as int % 2 * 16 + bytes[21] as int / 16 + 1
}

/// The total of samples per channel that the stream information records: 36
/// bits that end with byte 25.
pub open spec fn recorded_total_samples(bytes: Seq<u8>) -> int {
    bytes[21] as int % 16 * 0x1_0000_0000 + bytes[22] as int * 0x100_0000 + bytes[23] as int
        * 0x1_0000 + bytes[24] as int * 0x100 + bytes[25] as int
}

/// The head of the stream records the format in use, the given sample rate,
/// and as its total the number of samples per channel among `sample_count`
/// interleaved ones, as far as 36 bits hold it.
pub open spec fn records_format(bytes: Seq<u8>, sample_rate: usize, sample_count: nat) -> bool {
    &&& bytes.len() >= STREAM_HEAD_BYTES
    &&& recorded_sample_rate(bytes) == sample_rate
    &&& recorded_channels(bytes) == CHANNELS
    &&& recorded_bits_per_sample(bytes) == BITS_PER_SAMPLE
    &&& recorded_total_samples(bytes) == sample_count / CHANNELS as nat
        % TOTAL_SAMPLES_MODULUS as nat
}

/// What writing a stream out gives: its bytes, or `None` where a value in it
/// does not fit the format.
pub uninterp spec fn stream_written(stream: FlacStream) -> Option<Seq<u8>>;

/// Trusted: `Encoder::default`, the settings that `flacenc` starts from.
/// Nothing is claimed of them.
#[verifier::external_body]
fn default_config() -> Encoder {
    Encoder::default()
}

/// Trusted: `Verify::into_verified` on the encoder's settings. It hands the
/// settings back as checked, or with the reason why they are inconsistent.
/// Nothing is claimed of which.
#[verifier::external_body]
fn verify_config(config: Encoder) -> Result<Verified<Encoder>, (Encoder, VerifyError)> {
    config.into_verified()
}

/// Trusted: the field `block_size` of checked settings. Nothing is claimed
/// of it.
#[verifier::external_body]
fn config_block_size(config: &Verified<Encoder>) -> usize {
    config.block_size
}

/// Trusted: `flacenc::encode_with_fixed_block_size` on a `MemSource` made of
/// the samples. It answers with the encoded stream or with an error; which,
/// depends also on the machine, for the encoder asks it for threads and reads
/// their number from the variable `FLACENC_WORKERS` where that is set (set to
/// zero, it leaves the encoder waiting without end). So nothing is claimed of
/// whether a stream is made, nor of the frames in it. A stream that is made
/// holds in its stream information the rate, the channels and the bit depth
/// of the source and, as its total, the source's number of samples per
/// channel; written out, these stand in the head. The encoder panics on a
/// sample that does not fit the bit depth and on a frame number of 31 bits or
/// more; `requires` leaves those inputs out, and holds channels and bit depth
/// to the one format in use and the rate to what the encoder takes.
#[verifier::external_body]
fn encode_interleaved(
    config: &Verified<Encoder>,
    samples: &[i32],
    channels: usize,
    bits_per_sample: usize,
    sample_rate: usize,
    block_size: usize,
) -> (answer: Result<FlacStream, EncodeError>)
    requires
        channels == CHANNELS,
        bits_per_sample == BITS_PER_SAMPLE,
        sample_rate <= MAX_SAMPLE_RATE,
        samples_fit(samples@),
        frames_fit(samples@.len(), block_size),
    ensures
        answer matches Ok(stream) ==> (stream_written(stream) matches Some(bytes)
            ==> records_format(bytes, sample_rate, samples@.len())),
{
    let source = MemSource::from_samples(samples, channels, bits_per_sample, sample_rate);
    flacenc::encode_with_fixed_block_size(config, source, block_size)
}

/// Trusted: `BitRepr::write` of a stream into a fresh `ByteSink`, and the
/// sink's bytes. What is written depends on the stream alone, and the
/// contract names it; `None` stands for a failed write. A stream is written
/// with the marker `fLaC` first.
#[verifier::external_body]
fn stream_bytes(flac_data: &FlacStream) -> (written: Option<Vec<u8>>)
    ensures
        written matches Some(bytes) ==> begins_as_flac(bytes@),
        written matches Some(bytes) ==> stream_written(*flac_data) == Some(bytes@),
        written is None ==> stream_written(*flac_data) is None,
{
    let mut sink = ByteSink::new();
    match flac_data.write(&mut sink) {
        Ok(()) => Some(sink.as_slice().to_vec()),
        Err(_) => None,
    }
}

/// Says whether every sample can be written in 16 bits.
pub fn check_samples(pcm_data: &[i32]) -> (fit: bool)
    ensures
        fit == samples_fit(pcm_data@),
{
    let mut at: usize = 0;
    while at < pcm_data.len()
        invariant
            at <= pcm_data.len(),
            samples_fit(pcm_data@.subrange(0, at as int)),
        decreases pcm_data.len() - at,
    {
        let sample = pcm_data[at];
        if sample < MIN_SAMPLE || sample > MAX_SAMPLE {
            return false;
        }
        assert(samples_fit(pcm_data@.subrange(0, at + 1))) by {
            assert forall|i: int| 0 <= i < at + 1 implies MIN_SAMPLE <= #[trigger] pcm_data@.subrange(
                0,
                at + 1,
            )[i] <= MAX_SAMPLE by {
                if i < at {
                    assert(pcm_data@.subrange(0, at as int)[i] == pcm_data@[i]);
                }
            }
        }
        at += 1;
    }
    assert(pcm_data@.subrange(0, at as int) =~= pcm_data@);
    true
}

/// Says whether the frames that `sample_count` samples fill can all be
/// numbered.
pub fn check_frames(sample_count: usize, block_size: usize) -> (fit: bool)
    ensures
        fit == frames_fit(sample_count as nat, block_size),
{
    if block_size < MIN_BLOCK_SIZE || block_size > MAX_BLOCK_SIZE {
        return false;
    }
    sample_count / CHANNELS / block_size < MAX_FRAMES - 1
}

/// What becomes of the encoder's answer: the bytes that the stream gives when
/// it is written out, or nothing if the encoder failed or the stream could
/// not be written.
pub fn encoded_bytes(answer: Result<FlacStream, EncodeError>) -> (encoded: Option<Vec<u8>>)
    ensures
        answer is Err ==> encoded is None,
        answer matches Ok(stream) ==> (match encoded {
            Some(bytes) => stream_written(stream) == Some(bytes@),
            None => stream_written(stream) is None,
        }),
        encoded matches Some(bytes) ==> begins_as_flac(bytes@),
{
    match answer {
        Ok(flac_data) => stream_bytes(&flac_data),
        Err(_) => None,
    }
}

/// Encodes interleaved stereo samples of 16 bits, taken at `sample_rate`
/// samples per second, as a FLAC stream.
///
/// Samples that do not fit in 16 bits, or that are too many for their frames
/// to be numbered, are not encoded, nor is a rate above the highest that the
/// encoder takes. Otherwise the answer is the encoder's: the bytes of the
/// stream, whose head records the rate and the number of samples handed in,
/// or nothing if the encoder found its settings inconsistent or failed.
///
/// The encoder works with threads and reads their number from the variable
/// `FLACENC_WORKERS` where that is set. With that variable set to zero the
/// call waits without end.
pub fn encode_pcm_to_flac(pcm_data: &[i32], sample_rate: u32) -> (encoded: Option<Vec<u8>>)
    ensures
        !samples_fit(pcm_data@) ==> encoded is None,
        too_many_samples(pcm_data@.len()) ==> encoded is None,
        sample_rate > MAX_SAMPLE_RATE ==> encoded is None,
        encoded matches Some(bytes) ==> begins_as_flac(bytes@),
        encoded matches Some(bytes) ==> records_format(
            bytes@,
            sample_rate as usize,
            pcm_data@.len(),
        ),
{
    if !check_samples(pcm_data) || sample_rate > MAX_SAMPLE_RATE {
        return None;
    }
    match verify_config(default_config()) {
        Ok(config_verified) => {
            let block_size = config_block_size(&config_verified);
            if !check_frames(pcm_data.len(), block_size) {
                return None;
            }
            proof {
                if too_many_samples(pcm_data@.len()) {
                    lemma_too_many_with_every_block(pcm_data@.len(), block_size);
                }
            }
            encoded_bytes(
                encode_interleaved(
                    &config_verified,
                    pcm_data,
                    CHANNELS,
                    BITS_PER_SAMPLE,
                    sample_rate as usize,
                    block_size,
                ),
            )
        },
        Err(_) => None,
    }
}

} // verus!
