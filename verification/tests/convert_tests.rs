use voicehandler::errors::ConvertError;
use voicehandler::utils::convert::Convert as MsConvert;
use voicehandler::utils::{Convert, Utils, WavSpec};

#[test]
fn ms_conversions_exact() {
    assert_eq!(MsConvert::ms_to_int16(32), 1024);
    assert_eq!(MsConvert::ms_to_int16(2000), 64000);
    assert_eq!(MsConvert::ms_to_int16(200), 6400);
    assert_eq!(MsConvert::int16_to_ms(32000), 1000);
    assert_eq!(MsConvert::ms_to_float32(1000), 64000);
    assert_eq!(MsConvert::float32_to_ms(128000), 2000);
}

#[test]
fn ulaw_single_values() {
    assert_eq!(Convert::ulaw_to_i16(0xFF), 132);
    assert_eq!(Convert::ulaw_to_i16(0x7F), -132);
    assert_eq!(Convert::ulaw_to_i16(0x80), 32256);
    assert_eq!(Convert::ulaw_to_i16(0x00), -32256);
}

#[test]
fn ulaw_stream() {
    assert_eq!(Convert::decode_ulaw_bytes(&[0xFF, 0x00]), vec![132, -32256]);
    assert_eq!(Convert::decode_ulaw_bytes(&[]), Vec::<i16>::new());
}

#[test]
fn upsample_interpolates() {
    assert_eq!(Convert::int16_8k_to_16k(&[]), Vec::<i16>::new());
    assert_eq!(Convert::int16_8k_to_16k(&[10]), vec![10]);
    assert_eq!(Convert::int16_8k_to_16k(&[10, 20]), vec![10, 15, 20]);
    // the inserted average truncates toward zero, as (a + b) / 2 does
    assert_eq!(Convert::int16_8k_to_16k(&[-10, -21]), vec![-10, -15, -21]);
}

#[test]
fn padding_surrounds_with_silence() {
    let padded = Convert::add_padding(&vec![1, 2], 1, 0);
    assert_eq!(padded.len(), 8002);
    assert_eq!(padded[0], 0);
    assert_eq!(padded[7999], 0);
    assert_eq!(padded[8000], 1);
    assert_eq!(padded[8001], 2);

    let both = Convert::add_padding(&vec![7], 0, 1);
    assert_eq!(both.len(), 8001);
    assert_eq!(both[0], 7);
    assert_eq!(both[8000], 0);
}

#[test]
fn le_bytes_to_samples() {
    let ok = Convert::samples_from_le_bytes(&vec![0x01, 0x00, 0xFF, 0xFF]).unwrap();
    assert_eq!(ok, vec![1, -1]);
    let err = Convert::samples_from_le_bytes(&vec![0x01, 0x00, 0xFF]);
    assert_eq!(err, Err(ConvertError::InvalidPcmLength));
}

#[test]
fn base64_decodes_pcm16() {
    // bytes 01 00 FF 7F carry the samples 1 and 32767
    let ok = Convert::base64_to_i16("AQD/fw==").unwrap();
    assert_eq!(ok, vec![1, 32767]);

    assert_eq!(Convert::base64_to_i16("!!!"), Err(ConvertError::InvalidBase64));
    // three decoded bytes cannot be PCM16
    assert_eq!(Convert::base64_to_i16("AQAC"), Err(ConvertError::InvalidPcmLength));
}

#[test]
fn wav_container_bytes() {
    let fmt = WavSpec { channels: 1, sample_rate: 16000, bits_per_sample: 16 };
    let bytes = Convert::i16_to_i8(&vec![0, 1, -1], fmt).unwrap();
    assert_eq!(&bytes[0..4], b"RIFF");
    assert_eq!(&bytes[8..12], b"WAVE");
    assert_eq!(bytes.len(), 44 + 6);
    assert_eq!(&bytes[44..], &[0x00, 0x00, 0x01, 0x00, 0xFF, 0xFF]);
}

#[test]
fn energy_sums_squares() {
    assert_eq!(Utils::sum_square_energy(&[]), 0);
    assert_eq!(Utils::sum_square_energy(&[3, 4]), 25);
    assert_eq!(Utils::sum_square_energy(&[-32768]), 1 << 30);
}

#[test]
fn convert_error_messages() {
    assert_eq!(ConvertError::InvalidPcmLength.message(), "Invalid PCM16 byte length");
    assert_eq!(ConvertError::InvalidBase64.message(), "invalid base64 input");
    assert_eq!(ConvertError::WavEncoding.message(), "Error creating WavWriter");
    assert_eq!(ConvertError::StreamTooLarge.message(), "decoded stream too large");
}
