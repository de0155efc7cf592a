use vstd::prelude::*;

verus! {

/// Failure of a sample-format conversion.
#[derive(Debug, Clone, Copy, PartialEq, Eq, Structural)]
pub enum ConvertError {
    /// The input text is not valid standard base64.
    InvalidBase64,
    /// The decoded byte stream has an odd length and so cannot be PCM16.
    InvalidPcmLength,
    /// The WAV container writer rejected the requested format.
    WavEncoding,
    /// The decoded stream is too large to upsample on this machine.
    StreamTooLarge,
}

impl ConvertError {
    /// Short description, usable in log or error messages.
    pub fn message(&self) -> (r: &'static str)
        ensures
            self is InvalidBase64 ==> r@ == "invalid base64 input"@,
            self is InvalidPcmLength ==> r@ == "Invalid PCM16 byte length"@,
            self is WavEncoding ==> r@ == "Error creating WavWriter"@,
            self is StreamTooLarge ==> r@ == "decoded stream too large"@,
    {
        match self {
            ConvertError::InvalidBase64 => "invalid base64 input",
            ConvertError::InvalidPcmLength => "Invalid PCM16 byte length",
            ConvertError::WavEncoding => "Error creating WavWriter",
            ConvertError::StreamTooLarge => "decoded stream too large",
        }
    }
}

/// Why a pipeline stopped before delivering audio.
///
/// `Cancelled` marks work superseded by a newer utterance; it is discarded
/// silently. `BackendFailure` marks a failed remote stage and aborts only the
/// current pipeline. `PlaybackTimeout` marks a gated send that never became
/// permitted within its bound.
#[derive(Debug, Clone, Copy, PartialEq, Eq, Structural)]
pub enum PipelineError {
    BackendFailure,
    Cancelled,
    PlaybackTimeout,
}

impl PipelineError {
    /// Short description, usable in log or error messages.
    pub fn message(&self) -> (r: &'static str)
        ensures
            self is BackendFailure ==> r@ == "backend stage failed"@,
            self is Cancelled ==> r@ == "superseded by newer work"@,
            self is PlaybackTimeout ==> r@ == "timeout waiting for CanSendAudio"@,
    {
        match self {
            PipelineError::BackendFailure => "backend stage failed",
            PipelineError::Cancelled => "superseded by newer work",
            PipelineError::PlaybackTimeout => "timeout waiting for CanSendAudio",
        }
    }
}

} // verus!
