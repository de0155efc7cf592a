use vstd::prelude::*;

verus! {

/// Conversions between buffer lengths (in raw sample-stream units) and
/// durations in milliseconds, at the fixed stream rate of 16 kHz.
pub struct Convert;

impl Convert {
    pub const SAMPLE_RATE: u64 = 16_000;

    pub const SAMPLE_WIDTH_FLOAT32: u64 = 4;

    pub const SAMPLE_WIDTH_INT16: u64 = 2;

    /// Duration in ms of a float32 stream of `buffer_length` units.
    pub fn float32_to_ms(buffer_length: u64) -> (r: u64)
        ensures
            r == buffer_length / Self::SAMPLE_RATE / Self::SAMPLE_WIDTH_FLOAT32 * 1000,
    {
        buffer_length / Self::SAMPLE_RATE / Self::SAMPLE_WIDTH_FLOAT32 * 1000
    }

    /// Number of float32 stream units that play for `ms` milliseconds.
    pub fn ms_to_float32(ms: u64) -> (r: u64)
        requires
            ms * Self::SAMPLE_RATE * Self::SAMPLE_WIDTH_FLOAT32 <= u64::MAX,
        ensures
            r == ms * Self::SAMPLE_RATE * Self::SAMPLE_WIDTH_FLOAT32 / 1000,
    {
        ms * Self::SAMPLE_RATE * Self::SAMPLE_WIDTH_FLOAT32 / 1000
    }

    /// Duration in ms of an int16 stream of `buffer_length` units.
    pub fn int16_to_ms(buffer_length: u64) -> (r: u64)
        ensures
            r == buffer_length / Self::SAMPLE_RATE / Self::SAMPLE_WIDTH_INT16 * 1000,
    {
        buffer_length / Self::SAMPLE_RATE / Self::SAMPLE_WIDTH_INT16 * 1000
    }

    /// Number of int16 stream units that play for `ms` milliseconds.
    pub fn ms_to_int16(ms: u64) -> (r: u64)
        requires
            ms * Self::SAMPLE_RATE * Self::SAMPLE_WIDTH_INT16 <= u64::MAX,
        ensures
            r == ms * Self::SAMPLE_RATE * Self::SAMPLE_WIDTH_INT16 / 1000,
    {
        ms * Self::SAMPLE_RATE * Self::SAMPLE_WIDTH_INT16 / 1000
    }
}

} // verus!
