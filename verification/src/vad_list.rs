use crate::audio_buffer::AudioBuffer;
use crate::local_vad::LocalVadAdapter;
use crate::vad::{Vad, VadEvent, VadParams};
use vstd::prelude::*;

verus! {

/// The closed set of interchangeable turn detectors, dispatched by call
/// type.
#[derive(Debug, Clone)]
pub enum VadList {
    Local(LocalVadAdapter),
}

impl Vad for VadList {
    open spec fn params(&self) -> VadParams {
        match self {
            VadList::Local(adapter) => adapter.params(),
        }
    }

    fn process_audio(&mut self, audio_buffer: &mut AudioBuffer) -> (event: VadEvent) {
        match self {
            VadList::Local(adapter) => adapter.process_audio(audio_buffer),
        }
    }

    fn is_speech(&self, bytes: &[i16]) -> (b: bool) {
        match self {
            VadList::Local(adapter) => adapter.is_speech(bytes),
        }
    }
}

} // verus!
