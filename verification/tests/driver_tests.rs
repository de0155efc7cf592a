use voicehandler::audio_buffer::AudioBuffer;
use voicehandler::audio_source_layer::{AudioSourceLayer, DriverAction};
use voicehandler::history::History;
use voicehandler::local_vad::LocalVadAdapter;
use voicehandler::pool_manager::PoolManager;
use voicehandler::vad_list::VadList;

fn new_layer(id: u64) -> AudioSourceLayer {
    AudioSourceLayer {
        id,
        vad: VadList::Local(LocalVadAdapter::new()),
        audio_buffer: AudioBuffer::new(),
        history: History::new(),
    }
}

#[test]
fn pause_starts_pipeline_with_utterance() {
    let mut layer = new_layer(11);
    let mut pool = PoolManager::new(4);

    // silence, then speech: the turn opens but nothing to run yet
    let mut lead = vec![0i16; 2048];
    lead.extend(vec![1000i16; 4 * 1024]);
    assert_eq!(layer.process(&mut pool, &lead), DriverAction::NoAction);
    assert!(pool.pipelines.is_empty());

    // the first silent frame closes a provisional utterance
    let action = layer.process(&mut pool, &vec![0i16; 1024]);
    assert_eq!(action, DriverAction::StartPipeline { generation: 1, superseded: None });
    let entry = pool.pipelines.get(&11).unwrap();
    assert_eq!(entry.generation, 1);
    // the utterance is the marked slice [start, end)
    assert_eq!(entry.utterance.len(), 7 * 1024);
    assert!(entry.utterance[2048] == 1000);
}

#[test]
fn resume_stops_the_provisional_pipeline() {
    let mut layer = new_layer(11);
    let mut pool = PoolManager::new(4);

    let mut samples = vec![0i16; 2048];
    samples.extend(vec![1000i16; 4 * 1024]);
    layer.process(&mut pool, &samples);
    layer.process(&mut pool, &vec![0i16; 1024]);
    assert_eq!(pool.pipelines.len(), 1);

    let action = layer.process(&mut pool, &vec![1000i16; 1024]);
    assert_eq!(action, DriverAction::StopPipeline { stopped: true });
    assert!(pool.pipelines.is_empty());
}

#[test]
fn full_stop_permits_playback_and_folds_transcript() {
    let mut layer = new_layer(11);
    let mut pool = PoolManager::new(4);

    let mut samples = vec![0i16; 2048];
    samples.extend(vec![1000i16; 4 * 1024]);
    layer.process(&mut pool, &samples);
    let start_action = layer.process(&mut pool, &vec![0i16; 1024]);
    assert!(matches!(start_action, DriverAction::StartPipeline { .. }));

    // the transcription stage completed meanwhile
    pool.pipelines
        .get_mut(&11)
        .unwrap()
        .record_transcript(Some(String::from("hello")), 1704067200);

    // a long silence runs the turn out
    let action = layer.process(&mut pool, &vec![0i16; 66 * 1024]);
    assert_eq!(action, DriverAction::AllowPlayback { allowed: true });
    assert_eq!(
        pool.pipelines.get(&11).unwrap().status,
        voicehandler::pipeline::PipelineStatus::CanSendAudio
    );
    assert_eq!(layer.history.events.len(), 1);
    assert_eq!(layer.history.events[0].content.as_deref(), Some("hello"));

    // marker invariant after the whole exchange
    assert!(!(layer.audio_buffer.end.is_some() && layer.audio_buffer.start.is_none()));
}

#[test]
fn barge_in_supersedes_older_generation() {
    let mut layer = new_layer(4);
    let mut pool = PoolManager::new(4);

    let mut samples = vec![0i16; 2048];
    samples.extend(vec![1000i16; 4 * 1024]);
    layer.process(&mut pool, &samples);
    let first = layer.process(&mut pool, &vec![0i16; 1024]);
    assert_eq!(first, DriverAction::StartPipeline { generation: 1, superseded: None });

    // the caller resumes (removing the provisional pipeline) and pauses
    // again: the next pipeline carries a strictly newer generation
    layer.process(&mut pool, &vec![1000i16; 2 * 1024]);
    let second = layer.process(&mut pool, &vec![0i16; 1024]);
    assert_eq!(second, DriverAction::StartPipeline { generation: 2, superseded: None });
    assert_eq!(pool.pipelines.len(), 1);
}

#[test]
fn full_stop_without_pipeline_is_a_no_op() {
    let mut layer = new_layer(2);
    let mut pool = PoolManager::new(4);

    let mut samples = vec![0i16; 2048];
    samples.extend(vec![1000i16; 4 * 1024]);
    layer.process(&mut pool, &samples);
    layer.process(&mut pool, &vec![0i16; 1024]);
    // the driver's pipeline is torn down externally
    pool.stop_pipeline(2);

    let action = layer.process(&mut pool, &vec![0i16; 66 * 1024]);
    assert_eq!(action, DriverAction::AllowPlayback { allowed: false });
    assert!(layer.history.events.is_empty());
}
