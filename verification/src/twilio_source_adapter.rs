use crate::errors::ConvertError;
use crate::utils::{base64_decoded_of, base64_ok_of, spec_avg_i16, spec_ulaw_to_i16, Convert};
use vstd::prelude::*;

verus! {

/// The telephony transport adapter: its media frames carry base64-coded
/// µ-law bytes at 8 kHz. The socket handling and message parsing live
/// with the host program; the payload decoding is here.
#[derive(Debug, Clone)]
pub struct TwilioAdapter;

/// One parsed media message of the telephony stream.
#[derive(Debug, Clone)]
pub struct MediaEnvelope {
    pub event: String,
    pub sequence_number: String,
    pub media: Media,
    pub stream_sid: String,
}

/// The media body of a telephony message.
#[derive(Debug, Clone)]
pub struct Media {
    pub track: String,
    pub chunk: String,
    pub timestamp: String,
    pub payload: String,
}

/// The µ-law expansion of a decoded byte stream.
pub open spec fn spec_ulaw_stream(bytes: Seq<u8>) -> Seq<i16> {
    Seq::new(bytes.len(), |i: int| spec_ulaw_to_i16(bytes[i]))
}

impl TwilioAdapter {
    pub fn new() -> (r: Self)
        ensures
            r == TwilioAdapter,
    {
        Self {  }
    }

    /// Decodes one media payload into 16 kHz linear PCM: base64 text to
    /// µ-law bytes, each byte expanded to a linear sample, then upsampled
    /// by interpolation. Succeeds exactly on accepted base64 whose
    /// upsampled length fits this machine.
    pub fn decode_media_payload(payload: &str) -> (r: Result<Vec<i16>, ConvertError>)
        ensures
            r is Ok <==> (base64_ok_of(payload@) && 2 * base64_decoded_of(payload@).len()
                <= usize::MAX),
            !base64_ok_of(payload@) ==> r == Err::<Vec<i16>, ConvertError>(
                ConvertError::InvalidBase64,
            ),
            base64_ok_of(payload@) && 2 * base64_decoded_of(payload@).len() > usize::MAX ==> r
                == Err::<Vec<i16>, ConvertError>(ConvertError::StreamTooLarge),
            r matches Ok(pcm) ==> ({
                let low = spec_ulaw_stream(base64_decoded_of(payload@));
                &&& pcm@.len() == (if low.len() == 0 {
                    0int
                } else {
                    2 * low.len() - 1
                })
                &&& forall|i: int| 0 <= i < low.len() ==> pcm@[2 * i] == #[trigger] low[i]
                &&& forall|i: int| 0 <= i < low.len() - 1 ==> pcm@[2 * i + 1] == spec_avg_i16(
                    #[trigger] low[i],
                    low[i + 1],
                )
            }),
    {
        let raw_bytes = match Convert::decode_base64_standard(payload) {
            Ok(bytes) => bytes,
            Err(_) => {
                return Err(ConvertError::InvalidBase64);
            },
        };
        if raw_bytes.len() > usize::MAX / 2 {
            return Err(ConvertError::StreamTooLarge);
        }
        let int16_8k = Convert::decode_ulaw_bytes(raw_bytes.as_slice());
        let pcm = Convert::int16_8k_to_16k(int16_8k.as_slice());
        proof {
            assert(int16_8k@ =~= spec_ulaw_stream(base64_decoded_of(payload@)));
        }
        Ok(pcm)
    }
}

} // verus!
