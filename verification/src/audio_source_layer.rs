use crate::audio_buffer::AudioBuffer;
use crate::history::History;
use crate::history_event::{event_like, payload_like, spec_event_of};
use crate::pool_manager::PoolManager;
use crate::vad::{lemma_scan_wf, scan, Vad, VadEvent};
use crate::vad_list::VadList;
use vstd::prelude::*;

verus! {

/// What the driver decided after one scan pass; the surrounding executor
/// performs the asynchronous part of each decision.
#[derive(Debug, Clone, Copy, PartialEq, Eq, Structural)]
pub enum DriverAction {
    /// No event that requires work (speech started, or waiting for more
    /// audio).
    NoAction,
    /// A provisional utterance boundary was detected: a fresh pipeline was
    /// registered under `generation`; `superseded` carries the generation
    /// of the preempted pipeline, if one was live.
    StartPipeline { generation: u64, superseded: Option<u64> },
    /// Speech resumed: the provisional pipeline was removed and cancelled
    /// (`stopped` says whether one was live).
    StopPipeline { stopped: bool },
    /// The turn durably ended: playback was permitted for the live
    /// pipeline and its transcript was folded into the history (`allowed`
    /// says whether one was live).
    AllowPlayback { allowed: bool },
}

/// Per-call glue: feeds incoming PCM into the detector, interprets the
/// turn event, and drives the pool manager.
pub struct AudioSourceLayer {
    pub id: u64,
    pub vad: VadList,
    pub audio_buffer: AudioBuffer,
    pub history: History,
}

impl AudioSourceLayer {
    /// Appends the decoded samples, runs one scan pass, and reacts to the
    /// event: a pause starts (and possibly preempts) a pipeline for the
    /// utterance slice, a resume stops the provisional one, a full stop
    /// permits playback and folds the transcript into the history.
    pub fn process(&mut self, pool: &mut PoolManager, pcm: &Vec<i16>) -> (action: DriverAction)
        requires
            old(self).vad.params().wf(),
            old(self).audio_buffer.wf(),
            old(self).audio_buffer.user@.len() + pcm@.len() <= usize::MAX,
            old(pool).wf(),
            old(pool).gen_counter < u64::MAX,
        ensures
            final(self).id == old(self).id,
            final(self).vad == old(self).vad,
            final(self).audio_buffer.wf(),
            final(self).audio_buffer.user@ == old(self).audio_buffer.user@ + pcm@,
            final(self).audio_buffer.agent == old(self).audio_buffer.agent,
            final(self).audio_buffer.streamed_content == old(self).audio_buffer.streamed_content,
            final(self).audio_buffer.events == old(self).audio_buffer.events,
            final(pool).wf(),
            ({
                let r = scan(
                    old(self).vad.params(),
                    old(self).audio_buffer.user@ + pcm@,
                    old(self).audio_buffer.cursor,
                    old(self).audio_buffer.start,
                    old(self).audio_buffer.end,
                );
                &&& final(self).audio_buffer.cursor == r.cursor
                &&& final(self).audio_buffer.start == r.start
                &&& final(self).audio_buffer.end == r.end
                &&& (r.event is SpeechStarted || r.event is WaitingMoreChunks ==> {
                    &&& action is NoAction
                    &&& *final(pool) == *old(pool)
                    &&& final(self).history == old(self).history
                })
                &&& (r.event matches VadEvent::SpeechPaused(s, e) ==> {
                    &&& action matches DriverAction::StartPipeline { generation, superseded }
                    &&& generation == old(pool).gen_counter + 1
                    &&& final(pool).gen_counter == generation
                    &&& final(pool).generations() == old(pool).generations().insert(
                        old(self).id,
                        generation,
                    )
                    &&& final(pool).pipelines@.contains_key(old(self).id)
                    &&& final(pool).pipelines@[old(self).id].generation == generation
                    &&& final(pool).pipelines@[old(self).id].utterance@ == (old(
                        self,
                    ).audio_buffer.user@ + pcm@).subrange(s as int, e as int)
                    &&& (superseded is Some <==> old(pool).pipelines@.contains_key(old(self).id))
                    &&& (superseded matches Some(g) ==> g == old(pool).pipelines@[old(
                        self,
                    ).id].generation)
                    &&& final(self).history == old(self).history
                })
                &&& (r.event is SpeechResumed ==> {
                    &&& action matches DriverAction::StopPipeline { stopped }
                    &&& (stopped <==> old(pool).pipelines@.contains_key(old(self).id))
                    &&& final(pool).pipelines@ == old(pool).pipelines@.remove(old(self).id)
                    &&& final(self).history == old(self).history
                })
                &&& (r.event is SpeechFullStop ==> {
                    &&& action matches DriverAction::AllowPlayback { allowed }
                    &&& (allowed <==> old(pool).pipelines@.contains_key(old(self).id))
                    &&& (allowed ==> {
                        let transcript = old(pool).pipelines@[old(self).id].transcripted@;
                        &&& final(pool).pipelines@[old(self).id] == (crate::pipeline::Pipeline {
                            status: crate::pipeline::PipelineStatus::CanSendAudio,
                            ..old(pool).pipelines@[old(self).id]
                        })
                        &&& final(self).history.events@.len() == old(self).history.events@.len()
                            + transcript.len()
                        &&& (forall|i: int| 0 <= i < old(self).history.events@.len()
                            ==> final(self).history.events@[i] == #[trigger] old(
                            self,
                        ).history.events@[i])
                        &&& (forall|i: int| 0 <= i < transcript.len() ==> event_like(
                            final(self).history.events@[old(self).history.events@.len() + i],
                            spec_event_of(#[trigger] transcript[i]),
                        ))
                    })
                    &&& (!allowed ==> {
                        &&& final(pool).pipelines@ == old(pool).pipelines@
                        &&& final(pool).gen_counter == old(pool).gen_counter
                        &&& final(self).history == old(self).history
                    })
                })
            }),
    {
        self.audio_buffer.append(pcm.as_slice());

        let event = self.vad.process_audio(&mut self.audio_buffer);
        proof {
            lemma_scan_wf(
                old(self).vad.params(),
                old(self).audio_buffer.user@ + pcm@,
                old(self).audio_buffer.cursor,
                old(self).audio_buffer.start,
                old(self).audio_buffer.end,
            );
        }

        match event {
            VadEvent::SpeechStarted => DriverAction::NoAction,
            VadEvent::SpeechPaused(start, end) => {
                let utterance = self.audio_buffer.slice(start, end);
                let outcome = pool.start_pipeline(self.id, utterance);
                let superseded = match outcome.superseded {
                    Option::Some(prev) => Option::Some(prev.generation),
                    Option::None => Option::None,
                };
                DriverAction::StartPipeline { generation: outcome.generation, superseded }
            },
            VadEvent::SpeechResumed => {
                let stopped = pool.stop_pipeline(self.id);
                DriverAction::StopPipeline { stopped: stopped.is_some() }
            },
            VadEvent::SpeechFullStop => {
                match pool.allow_playback(self.id) {
                    Option::Some(entries) => {
                        let ghost transcript = old(pool).pipelines@[old(self).id].transcripted@;
                        let ghost copies = entries@;
                        let ghost base = self.history.events@.len();
                        self.history.append_payloads(entries);
                        proof {
                            assert forall|i: int| 0 <= i < transcript.len() implies event_like(
                                self.history.events@[base + i],
                                spec_event_of(transcript[i]),
                            ) by {
                                assert(payload_like(copies[i], transcript[i]));
                                assert(self.history.events@[base + i] == spec_event_of(copies[i]));
                            }
                        }
                        DriverAction::AllowPlayback { allowed: true }
                    },
                    Option::None => DriverAction::AllowPlayback { allowed: false },
                }
            },
            VadEvent::WaitingMoreChunks => DriverAction::NoAction,
        }
    }
}

} // verus!
