pub mod convert;

use crate::errors::ConvertError;
use base64::Engine;
use vstd::prelude::*;

verus! {

/// Codec conversions on the audio path: base64 transport decoding, µ-law
/// expansion, naive 8 kHz to 16 kHz upsampling, and WAV container encoding.
pub struct Convert;

/// The µ-law expansion the transport uses, written out arithmetically:
/// complement the byte, split it into sign, exponent and mantissa, and scale
/// the biased mantissa by two to the exponent.
pub open spec fn spec_ulaw_to_i16(value: u8) -> i16 {
    let u = 255 - value as int;
    let exponent = (u / 16) % 8;
    let mantissa = u % 16;
    let magnitude = (mantissa * 8 + 132) * spec_pow2_small(exponent);
    if u >= 128 {
        (-magnitude) as i16
    } else {
        magnitude as i16
    }
}

/// Two to the power `e`, for the eight µ-law exponent values.
pub open spec fn spec_pow2_small(e: int) -> int {
    if e == 0 { 1 }
    else if e == 1 { 2 }
    else if e == 2 { 4 }
    else if e == 3 { 8 }
    else if e == 4 { 16 }
    else if e == 5 { 32 }
    else if e == 6 { 64 }
    else { 128 }
}

/// Truncating average of two samples, as `(a + b) / 2` computes it in a
/// wider signed type (rounding toward zero).
pub open spec fn spec_avg_i16(a: i16, b: i16) -> i16 {
    let sum = a + b;
    if sum >= 0 {
        (sum / 2) as i16
    } else {
        (-((-sum) / 2)) as i16
    }
}

/// The sample read little-endian from two bytes.
pub open spec fn spec_i16_from_le(lo: u8, hi: u8) -> i16 {
    let v = lo + hi * 256;
    if v < 32768 {
        v as i16
    } else {
        (v - 65536) as i16
    }
}

/// The PCM16 samples carried by an even-length little-endian byte stream.
pub open spec fn spec_pcm16_from_le(bytes: Seq<u8>) -> Seq<i16> {
    Seq::new((bytes.len() / 2) as nat, |i: int| spec_i16_from_le(bytes[2 * i], bytes[2 * i + 1]))
}

/// What the standard base64 engine decodes a valid input to.
pub uninterp spec fn base64_decoded_of(s: Seq<char>) -> Seq<u8>;

/// Whether the standard base64 engine accepts an input.
pub uninterp spec fn base64_ok_of(s: Seq<char>) -> bool;

/// What hound's WAV writer produces for 16-bit integer samples under the
/// given format fields.
pub uninterp spec fn wav_bytes_of(
    channels: u16,
    sample_rate: u32,
    bits_per_sample: u16,
    samples: Seq<i16>,
) -> Seq<u8>;

/// Format fields of a WAV container holding integer samples.
#[derive(Debug, Clone, Copy, PartialEq, Eq, Structural)]
pub struct WavSpec {
    pub channels: u16,
    pub sample_rate: u32,
    pub bits_per_sample: u16,
}

impl Convert {
    /// Relies on base64's `general_purpose::STANDARD` engine: whether an
    /// input is accepted, and what it decodes to, are pure functions of
    /// that input; every rejection is an `Err`, never a panic.
    #[verifier::external_body]
    pub(crate) fn decode_base64_standard(input: &str) -> (r: Result<Vec<u8>, ConvertError>)
        ensures
            r is Ok <==> base64_ok_of(input@),
            r matches Ok(bytes) ==> bytes@ == base64_decoded_of(input@),
            r matches Err(e) ==> e is InvalidBase64,
    {
        match base64::engine::general_purpose::STANDARD.decode(input) {
            Ok(bytes) => Ok(bytes),
            Err(_) => Err(ConvertError::InvalidBase64),
        }
    }

    /// Reads an even-length little-endian byte stream as PCM16 samples;
    /// rejects an odd-length stream.
    pub fn samples_from_le_bytes(bytes: &Vec<u8>) -> (r: Result<Vec<i16>, ConvertError>)
        ensures
            bytes@.len() % 2 == 0 <==> r is Ok,
            r matches Ok(samples) ==> samples@ == spec_pcm16_from_le(bytes@),
            r matches Err(e) ==> e is InvalidPcmLength,
    {
        if bytes.len() % 2 != 0 {
            return Err(ConvertError::InvalidPcmLength);
        }

        let n = bytes.len() / 2;
        let mut samples: Vec<i16> = Vec::with_capacity(n);
        let mut i: usize = 0;
        let mut b: usize = 0;
        while i < n
            invariant
                bytes@.len() <= usize::MAX,
                n == bytes@.len() / 2,
                bytes@.len() % 2 == 0,
                i <= n,
                b == 2 * i,
                samples@.len() == i,
                forall|j: int| 0 <= j < i ==> samples@[j] == spec_i16_from_le(bytes@[2 * j], bytes@[2 * j + 1]),
            decreases n - i,
        {
            proof {
                assert(bytes@.len() == 2 * n);
            }
            let lo = bytes[b];
            let hi = bytes[b + 1];
            let v: u32 = lo as u32 + (hi as u32) * 256;
            let s: i32 = if v < 32768 { v as i32 } else { v as i32 - 65536 };
            samples.push(s as i16);
            i += 1;
            b += 2;
        }

        proof {
            assert(samples@ =~= spec_pcm16_from_le(bytes@));
        }
        Ok(samples)
    }

    /// Decodes base64 text carrying little-endian PCM16 samples. Succeeds
    /// exactly on accepted base64 whose decoded byte stream has even
    /// length.
    pub fn base64_to_i16(input: &str) -> (r: Result<Vec<i16>, ConvertError>)
        ensures
            r is Ok <==> (base64_ok_of(input@) && base64_decoded_of(input@).len() % 2 == 0),
            r matches Ok(samples) ==> samples@ == spec_pcm16_from_le(base64_decoded_of(input@)),
            !base64_ok_of(input@) ==> r == Err::<Vec<i16>, ConvertError>(
                ConvertError::InvalidBase64,
            ),
            base64_ok_of(input@) && base64_decoded_of(input@).len() % 2 != 0 ==> r == Err::<
                Vec<i16>,
                ConvertError,
            >(ConvertError::InvalidPcmLength),
    {
        let bytes = match Self::decode_base64_standard(input) {
            Ok(bytes) => bytes,
            Err(_) => {
                return Err(ConvertError::InvalidBase64);
            },
        };
        Self::samples_from_le_bytes(&bytes)
    }

    /// Expands each µ-law byte of the transport stream to a linear sample.
    pub fn ulaw_to_i16(value: u8) -> (r: i16)
        ensures
            r == spec_ulaw_to_i16(value),
    {
        let u: u8 = 255 - value;
        let exponent: u8 = (u / 16) % 8;
        let mantissa: u8 = u % 16;
        let scale: u32 = match exponent {
            0 => 1,
            1 => 2,
            2 => 4,
            3 => 8,
            4 => 16,
            5 => 32,
            6 => 64,
            _ => 128,
        };
        let magnitude: u32 = ((mantissa as u32) * 8 + 132) * scale;
        let s: i32 = if u >= 128 { -(magnitude as i32) } else { magnitude as i32 };
        s as i16
    }

    /// µ-law expansion of a whole byte stream.
    pub fn decode_ulaw_bytes(data: &[u8]) -> (r: Vec<i16>)
        ensures
            r@.len() == data@.len(),
            forall|i: int| 0 <= i < data@.len() ==> r@[i] == spec_ulaw_to_i16(data@[i]),
    {
        let mut out: Vec<i16> = Vec::with_capacity(data.len());
        let mut i: usize = 0;
        while i < data.len()
            invariant
                i <= data@.len(),
                out@.len() == i,
                forall|j: int| 0 <= j < i ==> out@[j] == spec_ulaw_to_i16(data@[j]),
            decreases data@.len() - i,
        {
            out.push(Self::ulaw_to_i16(data[i]));
            i += 1;
        }
        out
    }

    /// Doubles the sample rate by inserting, after every sample but the
    /// last, its truncating average with the next one.
    pub fn int16_8k_to_16k(input: &[i16]) -> (r: Vec<i16>)
        requires
            2 * input@.len() <= usize::MAX,
        ensures
            r@.len() == (if input@.len() == 0 { 0int } else { 2 * input@.len() - 1 }),
            forall|i: int| 0 <= i < input@.len() ==> r@[2 * i] == #[trigger] input@[i],
            forall|i: int| 0 <= i < input@.len() - 1 ==> r@[2 * i + 1] == spec_avg_i16(#[trigger] input@[i], input@[i + 1]),
    {
        let mut res: Vec<i16> = Vec::with_capacity(2 * input.len());
        let mut idx: usize = 0;
        while idx < input.len()
            invariant
                2 * input@.len() <= usize::MAX,
                idx <= input@.len(),
                res@.len() == (if idx == 0 { 0int } else { 2 * idx - 1 + (if idx < input@.len() { 1int } else { 0int }) }),
                forall|j: int| 0 <= j < idx ==> res@[2 * j] == #[trigger] input@[j],
                forall|j: int| 0 <= j < idx && j < input@.len() - 1 ==> res@[2 * j + 1] == spec_avg_i16(#[trigger] input@[j], input@[j + 1]),
            decreases input@.len() - idx,
        {
            let itm = input[idx];
            res.push(itm);

            if idx + 1 < input.len() {
                let next = input[idx + 1];
                let sum: i32 = itm as i32 + next as i32;
                let half: i32 = if sum >= 0 {
                    ((sum as u32) / 2) as i32
                } else {
                    -((((-sum) as u32) / 2) as i32)
                };
                res.push(half as i16);
            }

            idx += 1;
        }
        res
    }

    /// Surrounds the samples with `left_seconds` and `right_seconds` of
    /// silence at the 8 kHz transport rate.
    pub fn add_padding(bytes: &Vec<i16>, left_seconds: u64, right_seconds: u64) -> (r: Vec<i16>)
        requires
            left_seconds * 8000 + right_seconds * 8000 + bytes@.len() <= usize::MAX,
        ensures
            r@.len() == left_seconds * 8000 + bytes@.len() + right_seconds * 8000,
            forall|i: int| 0 <= i < left_seconds * 8000 ==> #[trigger] r@[i] == 0i16,
            forall|i: int| 0 <= i < bytes@.len() ==> r@[left_seconds * 8000 + i] == #[trigger] bytes@[i],
            forall|i: int| 0 <= i < right_seconds * 8000 ==> #[trigger] r@[left_seconds * 8000 + bytes@.len() + i] == 0i16,
    {
        let left_len: usize = (left_seconds * 8000) as usize;
        let right_len: usize = (right_seconds * 8000) as usize;

        let mut result: Vec<i16> = Vec::with_capacity(left_len + bytes.len() + right_len);
        let mut i: usize = 0;
        while i < left_len
            invariant
                i <= left_len,
                result@.len() == i,
                forall|j: int| 0 <= j < i ==> #[trigger] result@[j] == 0i16,
            decreases left_len - i,
        {
            result.push(0i16);
            i += 1;
        }
        result.extend_from_slice(bytes.as_slice());
        let mut k: usize = 0;
        while k < right_len
            invariant
                k <= right_len,
                result@.len() == left_len + bytes@.len() + k,
                forall|j: int| 0 <= j < left_len ==> #[trigger] result@[j] == 0i16,
                forall|j: int| 0 <= j < bytes@.len() ==> result@[left_len + j] == #[trigger] bytes@[j],
                forall|j: int| 0 <= j < k ==> #[trigger] result@[left_len + bytes@.len() + j] == 0i16,
            decreases right_len - k,
        {
            result.push(0i16);
            k += 1;
        }
        result
    }

    /// Encodes the samples as a WAV container with the given format.
    ///
    /// Relies on hound's `WavWriter` over an in-memory cursor: the container
    /// bytes are a pure function of the format fields and the samples, and
    /// writes to an in-memory buffer do not fail. The preconditions exclude
    /// the inputs on which hound's header arithmetic panics: a zero sample
    /// rate or channel count divides by zero, a zero or near-`u16::MAX`
    /// bit width breaks the byte-width computation, and an oversized
    /// rate/width/channel product or sample count overflows the `u32`
    /// header fields.
    #[verifier::external_body]
    pub fn i16_to_i8(bytes: &Vec<i16>, fmt: WavSpec) -> (r: Result<Vec<u8>, ConvertError>)
        requires
            fmt.channels >= 1,
            fmt.sample_rate >= 1,
            1 <= fmt.bits_per_sample <= 0xFFF8,
            fmt.sample_rate * ((fmt.bits_per_sample + 7) / 8) * fmt.channels <= u32::MAX,
            bytes@.len() * ((fmt.bits_per_sample + 7) / 8) <= 0xFFFF_FF00,
        ensures
            r matches Ok(out) ==> out@ == wav_bytes_of(
                fmt.channels,
                fmt.sample_rate,
                fmt.bits_per_sample,
                bytes@,
            ),
    {
        let hspec = hound::WavSpec {
            channels: fmt.channels,
            sample_rate: fmt.sample_rate,
            bits_per_sample: fmt.bits_per_sample,
            sample_format: hound::SampleFormat::Int };
        let mut cursor = std::io::Cursor::new(Vec::new());
        let mut writer = match hound::WavWriter::new(&mut cursor, hspec) {
            Ok(writer) => writer,
            Err(_) => return Err(ConvertError::WavEncoding),
        };
        for sample in bytes.iter() {
            let _ = writer.write_sample(*sample);
        }
        let _ = writer.finalize();
        Ok(cursor.into_inner())
    }
}

/// Sum of squared amplitudes of a frame; the energy measure the voice
/// activity detector compares against its threshold.
pub open spec fn spec_sum_squares(s: Seq<i16>) -> int
    decreases s.len(),
{
    if s.len() == 0 {
        0
    } else {
        spec_sum_squares(s.drop_last()) + s.last() * s.last()
    }
}

pub struct Utils;

impl Utils {
    /// Sum of squared amplitudes of a frame.
    pub fn sum_square_energy(samples: &[i16]) -> (r: u64)
        requires
            samples@.len() <= 0x1_0000_0000,
        ensures
            r == spec_sum_squares(samples@),
    {
        let mut sum: u64 = 0;
        let mut i: usize = 0;
        while i < samples.len()
            invariant
                samples@.len() <= 0x1_0000_0000,
                i <= samples@.len(),
                sum == spec_sum_squares(samples@.take(i as int)),
                sum <= i * 0x4000_0000,
            decreases samples@.len() - i,
        {
            let s = samples[i];
            proof {
                assert(0 <= s as int * s as int <= 0x4000_0000) by (nonlinear_arith);
                assert(sum + s as int * s as int <= (i + 1) * 0x4000_0000);
                assert((i + 1) * 0x4000_0000 <= 0x1_0000_0001 * 0x4000_0000) by (nonlinear_arith)
                    requires i + 1 <= 0x1_0000_0001;
                assert(samples@.take(i + 1).drop_last() =~= samples@.take(i as int));
                assert(samples@.take(i + 1).last() == samples@[i as int]);
            }
            let sq: i64 = s as i64 * s as i64;
            sum = sum + (sq as u64);
            i += 1;
        }
        proof {
            assert(samples@.take(samples@.len() as int) =~= samples@);
        }
        sum
    }
}

} // verus!
