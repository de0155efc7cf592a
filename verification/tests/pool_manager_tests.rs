use voicehandler::pipeline::PipelineStatus;
use voicehandler::pool_manager::PoolManager;

#[test]
fn rapid_restarts_leave_one_entry() {
    let mut m = PoolManager::new(4);
    let mut cancellations = 0;
    let mut last_generation = 0;
    for _ in 0..5 {
        let outcome = m.start_pipeline(42, vec![1, 2]);
        if let Some(prev) = outcome.superseded {
            assert!(prev.cancelled);
            assert_eq!(prev.generation, last_generation);
            cancellations += 1;
        }
        last_generation = outcome.generation;
    }
    // exactly one live entry, carrying the newest generation, and
    // exactly N - 1 cancellations
    assert_eq!(m.pipelines.len(), 1);
    assert_eq!(m.pipelines.get(&42).unwrap().generation, 5);
    assert_eq!(cancellations, 4);
}

#[test]
fn generations_are_call_scoped_and_increasing() {
    let mut m = PoolManager::new(4);
    let g1 = m.start_pipeline(1, vec![]).generation;
    let g2 = m.start_pipeline(2, vec![]).generation;
    let g3 = m.start_pipeline(1, vec![]).generation;
    assert!(g1 < g2 && g2 < g3);
    assert_eq!(m.pipelines.len(), 2);
}

#[test]
fn stale_generation_cannot_evict() {
    let mut m = PoolManager::new(4);
    let old_gen = m.start_pipeline(7, vec![]).generation;
    let new_gen = m.start_pipeline(7, vec![]).generation;

    // the superseded pipeline finishes late: its generation is stale,
    // the newer entry must survive
    assert!(!m.finalize_pipeline(7, old_gen));
    assert_eq!(m.pipelines.get(&7).unwrap().generation, new_gen);

    assert!(m.finalize_pipeline(7, new_gen));
    assert!(m.pipelines.is_empty());
    assert!(!m.finalize_pipeline(7, new_gen));
}

#[test]
fn stop_pipeline_cancels_if_present() {
    let mut m = PoolManager::new(4);
    let g = m.start_pipeline(3, vec![9]).generation;
    let stopped = m.stop_pipeline(3).unwrap();
    assert!(stopped.cancelled);
    assert_eq!(stopped.generation, g);
    assert!(m.pipelines.is_empty());
    assert!(m.stop_pipeline(3).is_none());
}

#[test]
fn shutdown_drains_and_cancels_everything() {
    let mut m = PoolManager::new(4);
    m.start_pipeline(1, vec![]);
    m.start_pipeline(2, vec![]);
    m.start_pipeline(3, vec![]);
    let drained = m.shutdown();
    assert_eq!(drained.len(), 3);
    assert!(m.pipelines.is_empty());
    // no entry escapes both removal and cancellation
    assert!(drained.iter().all(|p| p.cancelled));
    let mut ids: Vec<u64> = drained.iter().map(|p| p.id).collect();
    ids.sort();
    assert_eq!(ids, vec![1, 2, 3]);
}

#[test]
fn admission_cap_is_never_exceeded() {
    let mut m = PoolManager::new(2);
    assert!(m.try_admit());
    assert!(m.try_admit());
    // the cap is saturated: further requests wait
    assert!(!m.try_admit());
    assert!(!m.try_admit());
    assert_eq!(m.active, 2);

    m.release_permit();
    assert_eq!(m.active, 1);
    assert!(m.try_admit());
    assert!(!m.try_admit());
    assert!(m.active <= m.max_concurrent);
}

#[test]
fn allow_playback_flips_status_and_copies_transcript() {
    let mut m = PoolManager::new(4);
    m.start_pipeline(5, vec![]);
    m.pipelines
        .get_mut(&5)
        .unwrap()
        .record_transcript(Some(String::from("salut")), 1704067200);

    let transcript = m.allow_playback(5).unwrap();
    assert_eq!(transcript.len(), 1);
    assert_eq!(transcript[0].content.as_deref(), Some("salut"));
    assert_eq!(m.pipelines.get(&5).unwrap().status, PipelineStatus::CanSendAudio);
    // the live entry keeps its transcript
    assert_eq!(m.pipelines.get(&5).unwrap().transcripted.len(), 1);

    assert!(m.allow_playback(99).is_none());
}
