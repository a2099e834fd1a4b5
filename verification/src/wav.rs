//! Codec for the audio container that recordings are persisted in: mono,
//! 16 kHz, 16-bit signed little-endian integer PCM, with the standard
//! 44-byte RIFF/WAVE header.
//!
//! The byte layout is given by spec functions ([`wav_bytes`], [`wav_header`],
//! [`data_bytes`]); the encoder produces exactly that layout and the decoder
//! accepts exactly it, so that a round trip reconstructs every sample.

use vstd::prelude::*;

use vstd::arithmetic::div_mod::lemma_fundamental_div_mod;

use crate::errors::RecorderError;

verus! {

/// Fixed capture format: samples per second.
pub const SAMPLE_RATE: u32 = 16000;

/// Fixed capture format: number of channels.
pub const CHANNELS: u16 = 1;

/// Fixed capture format: bits per sample.
pub const BITS_PER_SAMPLE: u16 = 16;

/// Bytes of audio data per second: `SAMPLE_RATE * CHANNELS * 2`.
pub const BYTE_RATE: u32 = 32000;

/// Bytes per sample frame: `CHANNELS * 2`.
pub const BLOCK_ALIGN: u16 = 2;

/// Length of the container header in bytes.
pub const HEADER_LEN: usize = 44;

/// The most samples one container can hold: the RIFF chunk size field is a
/// 32-bit count of `36 + 2 * samples` bytes.
pub const MAX_WAV_SAMPLES: usize = 2147483629;

/// The two little-endian bytes of a value in `[0, 65536)`.
pub open spec fn le16(x: int) -> Seq<u8> {
    seq![(x % 256) as u8, ((x / 256) % 256) as u8]
}

/// The four little-endian bytes of a value in `[0, 2^32)`.
pub open spec fn le32(x: int) -> Seq<u8> {
    seq![
        (x % 256) as u8,
        ((x / 256) % 256) as u8,
        ((x / 65536) % 256) as u8,
        ((x / 16777216) % 256) as u8,
    ]
}

/// A sample's value as the unsigned 16-bit word that carries it (two's
/// complement).
pub open spec fn sample_unsigned(s: i16) -> int {
    if s >= 0 {
        s as int
    } else {
        s as int + 65536
    }
}

/// The two bytes a sample occupies in the data chunk.
pub open spec fn sample_bytes(s: i16) -> Seq<u8> {
    le16(sample_unsigned(s))
}

/// The sample carried by two data-chunk bytes.
pub open spec fn sample_of_bytes(lo: u8, hi: u8) -> i16 {
    let v = lo as int + 256 * (hi as int);
    if v < 32768 {
        v as i16
    } else {
        (v - 65536) as i16
    }
}

/// The data chunk: every sample's two bytes, in delivery order.
pub open spec fn data_bytes(samples: Seq<i16>) -> Seq<u8>
    decreases samples.len(),
{
    if samples.len() == 0 {
        Seq::empty()
    } else {
        data_bytes(samples.drop_last()) + sample_bytes(samples.last())
    }
}

/// The 44-byte header announcing `num_samples` samples of the fixed format.
pub open spec fn wav_header(num_samples: int) -> Seq<u8> {
    seq![0x52u8, 0x49u8, 0x46u8, 0x46u8]  // "RIFF"
     + le32(36 + 2 * num_samples) + seq![0x57u8, 0x41u8, 0x56u8, 0x45u8]  // "WAVE"
     + seq![0x66u8, 0x6du8, 0x74u8, 0x20u8]  // "fmt "
     + le32(16) + le16(1)  // integer PCM
     + le16(CHANNELS as int) + le32(SAMPLE_RATE as int) + le32(BYTE_RATE as int) + le16(
        BLOCK_ALIGN as int,
    ) + le16(BITS_PER_SAMPLE as int) + seq![0x64u8, 0x61u8, 0x74u8, 0x61u8]  // "data"
     + le32(2 * num_samples)
}

/// The whole container for a sample sequence.
pub open spec fn wav_bytes(samples: Seq<i16>) -> Seq<u8> {
    wav_header(samples.len() as int) + data_bytes(samples)
}

/// A byte sequence the decoder accepts: a header of the fixed format whose
/// announced length matches the data that follows it.
pub open spec fn valid_wav(b: Seq<u8>) -> bool {
    &&& b.len() >= HEADER_LEN
    &&& (b.len() - HEADER_LEN) % 2 == 0
    &&& (b.len() - HEADER_LEN) / 2 <= MAX_WAV_SAMPLES
    &&& b.subrange(0, HEADER_LEN as int) == wav_header((b.len() - HEADER_LEN) / 2)
}

/// The samples a valid container holds.
pub open spec fn decoded_samples(b: Seq<u8>) -> Seq<i16> {
    Seq::new(
        (((b.len() - HEADER_LEN) / 2) as nat),
        |i: int| sample_of_bytes(b[HEADER_LEN + 2 * i], b[HEADER_LEN + 2 * i + 1]),
    )
}

/// The data chunk is two bytes per sample.
pub proof fn lemma_data_bytes_len(samples: Seq<i16>)
    ensures
        data_bytes(samples).len() == 2 * samples.len(),
    decreases samples.len(),
{
    if samples.len() > 0 {
        lemma_data_bytes_len(samples.drop_last());
    }
}

/// Each sample's bytes sit at offsets `2i` and `2i + 1` of the data chunk.
pub proof fn lemma_data_bytes_index(samples: Seq<i16>, i: int)
    requires
        0 <= i < samples.len(),
    ensures
        data_bytes(samples)[2 * i] == sample_bytes(samples[i])[0],
        data_bytes(samples)[2 * i + 1] == sample_bytes(samples[i])[1],
    decreases samples.len(),
{
    lemma_data_bytes_len(samples.drop_last());
    if i < samples.len() - 1 {
        lemma_data_bytes_index(samples.drop_last(), i);
    }
}

/// Encoding a sample to its two bytes and reading them back yields the
/// sample.
pub proof fn lemma_sample_round_trip(s: i16)
    ensures
        sample_of_bytes(sample_bytes(s)[0], sample_bytes(s)[1]) == s,
{
    let u = sample_unsigned(s);
    assert(0 <= u < 65536);
    lemma_fundamental_div_mod(u, 256);
    assert(u % 256 + 256 * ((u / 256) % 256) == u);
}

fn push_le16(out: &mut Vec<u8>, x: u16)
    ensures
        final(out)@ == old(out)@ + le16(x as int),
{
    out.push((x % 256) as u8);
    out.push((x / 256) as u8);
    proof {
        assert(out@ =~= old(out)@ + le16(x as int));
    }
}

fn push_le32(out: &mut Vec<u8>, x: u32)
    ensures
        final(out)@ == old(out)@ + le32(x as int),
{
    out.push((x % 256) as u8);
    out.push(((x / 256) % 256) as u8);
    out.push(((x / 65536) % 256) as u8);
    out.push((x / 16777216) as u8);
    proof {
        assert(out@ =~= old(out)@ + le32(x as int));
    }
}

fn push_sample(out: &mut Vec<u8>, s: i16)
    ensures
        final(out)@ == old(out)@ + sample_bytes(s),
{
    let u: u16 = if s >= 0 {
        s as u16
    } else {
        ((s as i32) + 65536) as u16
    };
    proof {
        assert(u as int == sample_unsigned(s));
    }
    push_le16(out, u);
}

fn push_header(out: &mut Vec<u8>, num_samples: usize)
    requires
        num_samples <= MAX_WAV_SAMPLES,
    ensures
        final(out)@ == old(out)@ + wav_header(num_samples as int),
{
    let data_len: u32 = ((num_samples as u64) * 2) as u32;
    out.push(0x52u8);
    out.push(0x49u8);
    out.push(0x46u8);
    out.push(0x46u8);
    push_le32(out, 36 + data_len);
    out.push(0x57u8);
    out.push(0x41u8);
    out.push(0x56u8);
    out.push(0x45u8);
    out.push(0x66u8);
    out.push(0x6du8);
    out.push(0x74u8);
    out.push(0x20u8);
    push_le32(out, 16);
    push_le16(out, 1);
    push_le16(out, CHANNELS);
    push_le32(out, SAMPLE_RATE);
    push_le32(out, BYTE_RATE);
    push_le16(out, BLOCK_ALIGN);
    push_le16(out, BITS_PER_SAMPLE);
    out.push(0x64u8);
    out.push(0x61u8);
    out.push(0x74u8);
    out.push(0x61u8);
    push_le32(out, data_len);
    proof {
        assert(out@ =~= old(out)@ + wav_header(num_samples as int));
    }
}

/// Encode a sample buffer as one complete container: the fixed-format header
/// followed by every sample in order, two little-endian bytes each.
pub fn encode_wav(samples: &Vec<i16>) -> (r: Vec<u8>)
    requires
        samples@.len() <= MAX_WAV_SAMPLES,
    ensures
        r@ == wav_bytes(samples@),
{
    let mut out: Vec<u8> = Vec::new();
    push_header(&mut out, samples.len());
    let n: usize = samples.len();
    let mut i: usize = 0;
    while i < n
        invariant
            n == samples@.len() <= MAX_WAV_SAMPLES,
            i <= n,
            out@ == wav_header(samples@.len() as int) + data_bytes(samples@.take(i as int)),
        decreases n - i,
    {
        push_sample(&mut out, samples[i]);
        proof {
            assert(samples@.take(i as int + 1).drop_last() =~= samples@.take(i as int));
            assert(samples@.take(i as int + 1).last() == samples@[i as int]);
            assert(out@ =~= wav_header(samples@.len() as int) + data_bytes(
                samples@.take(i as int + 1),
            ));
        }
        i += 1;
    }
    proof {
        assert(samples@.take(n as int) =~= samples@);
    }
    out
}

/// Decode a container.  Accepts exactly the byte sequences that
/// [`valid_wav`] describes — a fixed-format header whose announced length
/// matches the data — and reconstructs every sample; anything else fails
/// with `UnreadableAudio`.
pub fn decode_wav(bytes: &Vec<u8>) -> (r: Result<Vec<i16>, RecorderError>)
    ensures
        valid_wav(bytes@) ==> (r matches Ok(s) && s@ == decoded_samples(bytes@)),
        !valid_wav(bytes@) ==> r == Err::<Vec<i16>, RecorderError>(RecorderError::UnreadableAudio),
{
    let len: usize = bytes.len();
    if len < HEADER_LEN {
        return Err(RecorderError::UnreadableAudio);
    }
    if (len - HEADER_LEN) % 2 != 0 {
        return Err(RecorderError::UnreadableAudio);
    }
    let n: usize = (len - HEADER_LEN) / 2;
    if n > MAX_WAV_SAMPLES {
        return Err(RecorderError::UnreadableAudio);
    }
    let mut expected: Vec<u8> = Vec::new();
    push_header(&mut expected, n);
    let mut i: usize = 0;
    while i < HEADER_LEN
        invariant
            len == bytes@.len(),
            HEADER_LEN <= len,
            n == (len - HEADER_LEN) / 2 <= MAX_WAV_SAMPLES,
            (len - HEADER_LEN) % 2 == 0,
            i <= HEADER_LEN,
            expected@ == wav_header(n as int),
            forall|j: int| 0 <= j < i ==> bytes@[j] == wav_header(n as int)[j],
        decreases HEADER_LEN - i,
    {
        let b: u8 = bytes[i];
        let e: u8 = expected[i];
        if b != e {
            proof {
                assert(bytes@.subrange(0, HEADER_LEN as int)[i as int] == bytes@[i as int]);
            }
            return Err(RecorderError::UnreadableAudio);
        }
        i += 1;
    }
    proof {
        assert(bytes@.subrange(0, HEADER_LEN as int) =~= wav_header(n as int));
        assert(valid_wav(bytes@));
    }
    let mut samples: Vec<i16> = Vec::new();
    let mut k: usize = 0;
    while k < n
        invariant
            len == bytes@.len(),
            HEADER_LEN <= len,
            n == (len - HEADER_LEN) / 2 <= MAX_WAV_SAMPLES,
            (len - HEADER_LEN) % 2 == 0,
            k <= n,
            samples@.len() == k,
            forall|j: int|
                0 <= j < k ==> samples@[j] == sample_of_bytes(
                    bytes@[HEADER_LEN + 2 * j],
                    bytes@[HEADER_LEN + 2 * j + 1],
                ),
        decreases n - k,
    {
        let lo: u8 = bytes[HEADER_LEN + 2 * k];
        let hi: u8 = bytes[HEADER_LEN + 2 * k + 1];
        let v: u32 = lo as u32 + 256 * (hi as u32);
        let s: i16 = if v < 32768 {
            v as i16
        } else {
            ((v as i32) - 65536) as i16
        };
        proof {
            assert(s == sample_of_bytes(lo, hi));
        }
        samples.push(s);
        k += 1;
    }
    proof {
        assert(samples@ =~= decoded_samples(bytes@));
    }
    Ok(samples)
}

/// Round trip: encoding any sample buffer yields a container the decoder
/// accepts, and decoding it reconstructs the buffer exactly.
pub proof fn lemma_wav_round_trip(samples: Seq<i16>)
    requires
        samples.len() <= MAX_WAV_SAMPLES,
    ensures
        valid_wav(wav_bytes(samples)),
        decoded_samples(wav_bytes(samples)) == samples,
{
    let b = wav_bytes(samples);
    lemma_data_bytes_len(samples);
    assert(b.len() == 44 + 2 * samples.len());
    assert(b.subrange(0, 44) =~= wav_header(samples.len() as int));
    assert forall|i: int| 0 <= i < samples.len() implies decoded_samples(b)[i] == samples[i] by {
        lemma_data_bytes_index(samples, i);
        assert(b[44 + 2 * i] == data_bytes(samples)[2 * i]);
        assert(b[44 + 2 * i + 1] == data_bytes(samples)[2 * i + 1]);
        lemma_sample_round_trip(samples[i]);
    }
    assert(decoded_samples(b) =~= samples);
}

} // verus!
