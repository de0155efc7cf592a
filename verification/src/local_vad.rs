use crate::audio_buffer::AudioBuffer;
use crate::utils::convert::Convert;
use crate::utils::Utils;
use crate::vad::{scan, spec_is_speech, Vad, VadEvent, VadParams};
use vstd::pervasive::unreached;
use vstd::prelude::*;

verus! {

/// The built-in energy-threshold turn detector: 32 ms frames, a fixed
/// speech threshold, a 200 ms minimum speech run before a provisional
/// pause, and a 2 s silence run before a durable full stop.
#[derive(Debug, Clone)]
pub struct LocalVadAdapter {
    pub frame_size: u64,
    pub threshold: u64,
    pub full_stop_bytes: u64,
    pub min_speech_bytes: u64,
}

impl LocalVadAdapter {
    pub fn new() -> (r: Self)
        ensures
            r.frame_size == 1024,
            r.threshold == 800,
            r.full_stop_bytes == 64000,
            r.min_speech_bytes == 6400,
            r.params().wf(),
    {
        LocalVadAdapter {
            threshold: 800,
            frame_size: Convert::ms_to_int16(32),
            full_stop_bytes: Convert::ms_to_int16(2000),
            min_speech_bytes: Convert::ms_to_int16(200),
        }
    }
}

impl Vad for LocalVadAdapter {
    open spec fn params(&self) -> VadParams {
        VadParams {
            frame_size: self.frame_size,
            threshold: self.threshold,
            full_stop_bytes: self.full_stop_bytes,
            min_speech_bytes: self.min_speech_bytes,
        }
    }

    fn process_audio(&mut self, audio_buffer: &mut AudioBuffer) -> (event: VadEvent) {
        loop
            invariant
                *self == *old(self),
                self.params().wf(),
                audio_buffer.wf(),
                audio_buffer.user == old(audio_buffer).user,
                audio_buffer.agent == old(audio_buffer).agent,
                audio_buffer.streamed_content == old(audio_buffer).streamed_content,
                audio_buffer.events == old(audio_buffer).events,
                scan(
                    self.params(),
                    audio_buffer.user@,
                    audio_buffer.cursor,
                    audio_buffer.start,
                    audio_buffer.end,
                ) == scan(
                    old(self).params(),
                    old(audio_buffer).user@,
                    old(audio_buffer).cursor,
                    old(audio_buffer).start,
                    old(audio_buffer).end,
                ),
            decreases audio_buffer.user@.len() - audio_buffer.cursor,
        {
            let len_u64: u64 = audio_buffer.user.len() as u64;
            if len_u64 - audio_buffer.cursor < self.frame_size {
                return VadEvent::WaitingMoreChunks;
            }

            let cursor = audio_buffer.cursor;
            let c2 = cursor + self.frame_size;
            audio_buffer.cursor = c2;
            let frame = vstd::slice::slice_subrange(
                audio_buffer.user.as_slice(),
                cursor as usize,
                c2 as usize,
            );
            let speech = self.is_speech(frame);

            match (speech, audio_buffer.start, audio_buffer.end) {
                (true, None, None) => {
                    // speech started for the first time this turn, with
                    // up to three frames of pre-roll recovered
                    let start = if c2 >= 3 * self.frame_size {
                        c2 - 3 * self.frame_size
                    } else {
                        0
                    };
                    audio_buffer.start = Some(start);

                    return VadEvent::SpeechStarted;
                },
                (true, Some(_), None) => {},  // speech is continuing, no pause yet
                (true, Some(_), Some(_)) => {
                    // speech had paused but the user resumed speaking
                    audio_buffer.end = None;
                    return VadEvent::SpeechResumed;
                },
                (false, None, None) => {},  // the user still did not talk this turn
                (false, Some(start), None) => {
                    // the user paused; a pipeline shall start
                    if c2 - start >= self.min_speech_bytes {
                        audio_buffer.end = Some(c2);

                        return VadEvent::SpeechPaused(start, c2);
                    }
                },
                (false, Some(_), Some(end)) => {
                    // the user is still pausing; it may be a full stop
                    if c2 - end > self.full_stop_bytes {
                        audio_buffer.start = None;
                        audio_buffer.end = None;

                        return VadEvent::SpeechFullStop;
                    }
                },
                (_, None, Some(_)) => {
                    // an end marker without a start cannot arise from a
                    // well-formed buffer
                    return unreached();
                },
            }
        }
    }

    fn is_speech(&self, bytes: &[i16]) -> (b: bool) {
        let energy = Utils::sum_square_energy(bytes);
        proof {
            assert(self.threshold * self.threshold <= 0xFFFE_0001) by (nonlinear_arith)
                requires
                    self.threshold <= 0xFFFF,
            ;
        }
        let threshold_sq: u64 = self.threshold * self.threshold;
        let n64: u64 = bytes.len() as u64;
        proof {
            assert(threshold_sq * n64 <= 0xFFFE_0001 * 0x1_0000_0000) by (nonlinear_arith)
                requires
                    threshold_sq <= 0xFFFE_0001,
                    n64 <= 0x1_0000_0000,
            ;
        }
        energy > threshold_sq * n64
    }
}

} // verus!
