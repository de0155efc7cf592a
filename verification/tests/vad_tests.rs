use voicehandler::audio_buffer::AudioBuffer;
use voicehandler::local_vad::LocalVadAdapter;
use voicehandler::vad::{Vad, VadEvent};
use voicehandler::vad_list::VadList;

fn frames(silence_frames: usize, speech_frames: usize) -> Vec<i16> {
    let mut samples = vec![0i16; silence_frames * 1024];
    samples.extend(std::iter::repeat(1000i16).take(speech_frames * 1024));
    samples
}

fn drain_events(vad: &mut LocalVadAdapter, buffer: &mut AudioBuffer) -> Vec<VadEvent> {
    let mut events = Vec::new();
    loop {
        let event = vad.process_audio(buffer);
        // end is never observed set while start is unset
        assert!(!(buffer.end.is_some() && buffer.start.is_none()));
        if event == VadEvent::WaitingMoreChunks {
            return events;
        }
        events.push(event);
    }
}

#[test]
fn adapter_tuning() {
    let vad = LocalVadAdapter::new();
    assert_eq!(vad.frame_size, 1024);
    assert_eq!(vad.threshold, 800);
    assert_eq!(vad.full_stop_bytes, 64000);
    assert_eq!(vad.min_speech_bytes, 6400);
}

#[test]
fn is_speech_boundary() {
    let vad = LocalVadAdapter::new();
    // one sample at the threshold: 800^2 is not strictly above 640000
    assert!(!vad.is_speech(&[800]));
    assert!(vad.is_speech(&[801]));
    assert!(!vad.is_speech(&[0; 1024]));
    assert!(vad.is_speech(&[1000; 1024]));
    assert!(!vad.is_speech(&[]));
}

#[test]
fn waiting_when_no_full_frame() {
    let mut vad = LocalVadAdapter::new();
    let mut buffer = AudioBuffer::new();
    buffer.append(&vec![500i16; 1000]);
    assert_eq!(vad.process_audio(&mut buffer), VadEvent::WaitingMoreChunks);
    assert_eq!(buffer.cursor, 0);
    assert!(buffer.start.is_none());
    assert!(buffer.end.is_none());
}

#[test]
fn one_event_per_pass() {
    let mut vad = LocalVadAdapter::new();
    let mut buffer = AudioBuffer::new();
    // enough audio for a whole started-paused-stopped turn at once,
    // but each pass still reports only the first event
    let mut samples = frames(2, 4);
    samples.extend(vec![0i16; 66 * 1024]);
    buffer.append(&samples);

    assert_eq!(vad.process_audio(&mut buffer), VadEvent::SpeechStarted);
    assert_eq!(buffer.cursor, 3 * 1024);
}

#[test]
fn turn_sequence_started_paused_fullstop() {
    let mut vad = LocalVadAdapter::new();
    let mut buffer = AudioBuffer::new();
    // 2 silent frames, 4 speech frames, then 66 silent frames:
    // (4 * 1024) + 3 * 1024 >= 6400 crosses the minimum speech run, and
    // 63 * 1024 > 64000 crosses the full-stop run
    let mut samples = frames(2, 4);
    samples.extend(vec![0i16; 66 * 1024]);
    buffer.append(&samples);

    let events = drain_events(&mut vad, &mut buffer);
    assert_eq!(
        events,
        vec![
            VadEvent::SpeechStarted,
            VadEvent::SpeechPaused(0, 7 * 1024),
            VadEvent::SpeechFullStop,
        ]
    );
    assert!(buffer.start.is_none());
    assert!(buffer.end.is_none());
}

#[test]
fn resume_preempts_full_stop() {
    let mut vad = LocalVadAdapter::new();
    let mut buffer = AudioBuffer::new();
    // speech resumes two frames after the pause, well inside the
    // full-stop window; only then does silence run the turn out
    let mut samples = frames(2, 4);
    samples.extend(vec![0i16; 2 * 1024]);
    samples.extend(vec![1000i16; 2 * 1024]);
    samples.extend(vec![0i16; 67 * 1024]);
    buffer.append(&samples);

    let events = drain_events(&mut vad, &mut buffer);
    assert_eq!(
        events,
        vec![
            VadEvent::SpeechStarted,
            VadEvent::SpeechPaused(0, 7 * 1024),
            VadEvent::SpeechResumed,
            VadEvent::SpeechPaused(0, 11 * 1024),
            VadEvent::SpeechFullStop,
        ]
    );
}

#[test]
fn preroll_rollback_saturates() {
    let mut vad = LocalVadAdapter::new();
    let mut buffer = AudioBuffer::new();
    // speech from the very first frame: the three-frame rollback clips
    // at the start of the buffer
    buffer.append(&vec![1000i16; 1024]);
    assert_eq!(vad.process_audio(&mut buffer), VadEvent::SpeechStarted);
    assert_eq!(buffer.start, Some(0));

    let mut buffer2 = AudioBuffer::new();
    buffer2.append(&frames(4, 1));
    assert_eq!(vad.process_audio(&mut buffer2), VadEvent::SpeechStarted);
    assert_eq!(buffer2.start, Some(2 * 1024));
}

#[test]
fn markers_stay_consistent_over_random_sequences() {
    // a small linear congruential generator drives pseudo-random
    // speech/silence frame sequences; after every pass the end marker is
    // never set without the start marker, and the cursor never outruns
    // the samples
    let mut seed: u64 = 0x9E3779B97F4A7C15;
    let mut vad = LocalVadAdapter::new();
    for _ in 0..20 {
        let mut buffer = AudioBuffer::new();
        for _ in 0..120 {
            seed = seed.wrapping_mul(6364136223846793005).wrapping_add(1442695040888963407);
            let speech = (seed >> 33) & 1 == 1;
            let frame = if speech { vec![1000i16; 1024] } else { vec![0i16; 1024] };
            buffer.append(&frame);
            let _ = vad.process_audio(&mut buffer);
            assert!(!(buffer.end.is_some() && buffer.start.is_none()));
            assert!(buffer.cursor as usize <= buffer.user.len());
            if let (Some(s), Some(e)) = (buffer.start, buffer.end) {
                assert!(s <= e && e <= buffer.cursor);
            }
        }
    }
}

#[test]
fn incremental_feeding_matches_scan() {
    let mut vad = VadList::Local(LocalVadAdapter::new());
    let mut buffer = AudioBuffer::new();

    buffer.append(&vec![0i16; 2048]);
    assert_eq!(vad.process_audio(&mut buffer), VadEvent::WaitingMoreChunks);

    buffer.append(&vec![1000i16; 1024]);
    assert_eq!(vad.process_audio(&mut buffer), VadEvent::SpeechStarted);

    buffer.append(&vec![1000i16; 3 * 1024]);
    assert_eq!(vad.process_audio(&mut buffer), VadEvent::WaitingMoreChunks);

    buffer.append(&vec![0i16; 1024]);
    assert_eq!(vad.process_audio(&mut buffer), VadEvent::SpeechPaused(0, 7 * 1024));
    assert_eq!(buffer.end, Some(7 * 1024));

    buffer.append(&vec![1000i16; 1024]);
    assert_eq!(vad.process_audio(&mut buffer), VadEvent::SpeechResumed);
    assert_eq!(buffer.end, None);
    assert_eq!(buffer.start, Some(0));
}
