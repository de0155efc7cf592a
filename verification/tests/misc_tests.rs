use voicehandler::audio_buffer::AudioBuffer;
use voicehandler::audio_source::AudioSourceList;
use voicehandler::env::{AiStudioEnv, Args, ElevenLabsEnv, LogLevel, LoggerEnv};
use voicehandler::errors::ConvertError;
use voicehandler::history_event::HistoryEvent;
use voicehandler::history_member::HistoryMember;
use voicehandler::job::{Job, JobState};
use voicehandler::llm::{prepare_chat_messages, ChatRole};
use voicehandler::local_source_adapter::LocalAdapter;
use voicehandler::pool::Pool;
use voicehandler::twilio_source_adapter::TwilioAdapter;

#[test]
fn audio_buffer_basics() {
    let mut b = AudioBuffer::new();
    assert_eq!(b.cursor, 0);
    assert!(b.user.is_empty());
    b.append(&[1, 2, 3]);
    b.append(&[4]);
    assert_eq!(b.user, vec![1, 2, 3, 4]);
    assert_eq!(b.slice(1, 3), vec![2, 3]);
    assert_eq!(b.slice(0, 0), Vec::<i16>::new());
    b.override_streamed_buffer(String::from("{\"event\":\"media\"}"));
    assert_eq!(b.streamed_content, "{\"event\":\"media\"}");
    // appending raw text does not disturb the samples
    assert_eq!(b.user, vec![1, 2, 3, 4]);
}

#[test]
fn job_default_is_pending_and_empty() {
    let j = Job::default();
    assert_eq!(j.id, 0);
    assert!(matches!(j.state, JobState::Pending));
    assert!(j.data.is_empty());
}

#[test]
fn pool_queues_jobs() {
    let mut p = Pool::new();
    p.compute(3, vec![1, 2]);
    p.compute(3, vec![9]);
    p.compute(4, vec![]);
    assert_eq!(p.jobs.len(), 2);
    assert_eq!(p.jobs.get(&3).unwrap().data, vec![9]);
    assert!(matches!(p.jobs.get(&4).unwrap().state, JobState::Pending));
}

#[test]
fn log_level_parsing() {
    assert_eq!(LogLevel::from(String::from("debug")), LogLevel::Debug);
    assert_eq!(LogLevel::from(String::from("info")), LogLevel::Info);
    assert_eq!(LogLevel::from(String::from("whatever")), LogLevel::Info);
    assert_eq!(LogLevel::default(), LogLevel::Info);
    assert_eq!(LogLevel::Debug.as_str(), "debug");
    assert_eq!(LogLevel::Info.as_str(), "info");
}

#[test]
fn args_hold_plain_values() {
    let args = Args {
        elevenlabs: ElevenLabsEnv { elevenlabs_api_key: String::from("k1") },
        logger: LoggerEnv { level: LogLevel::Debug, prettify: true },
        llm: AiStudioEnv {
            aistudio_api_key: String::from("k2"),
            aistudio_base_url: String::from("https://example.invalid"),
        },
    };
    assert_eq!(args.elevenlabs.elevenlabs_api_key, "k1");
    assert!(args.logger.prettify);
    assert_eq!(args.llm.aistudio_base_url, "https://example.invalid");
}

#[test]
fn chat_messages_mirror_history() {
    let events = vec![
        HistoryEvent {
            member: HistoryMember::System,
            content: Some(String::from("mark")),
            created_at: 0,
            is_saved: true,
        },
        HistoryEvent {
            member: HistoryMember::User,
            content: Some(String::from("hi")),
            created_at: 1,
            is_saved: false,
        },
        HistoryEvent {
            member: HistoryMember::Agent,
            content: None,
            created_at: 2,
            is_saved: false,
        },
        HistoryEvent {
            member: HistoryMember::ToolCall,
            content: Some(String::from("t")),
            created_at: 3,
            is_saved: false,
        },
    ];
    let messages = prepare_chat_messages(&events);
    assert_eq!(messages.len(), 4);
    assert_eq!(messages[0].role, ChatRole::System);
    assert_eq!(messages[1].role, ChatRole::User);
    assert_eq!(messages[1].content, "hi");
    assert_eq!(messages[2].role, ChatRole::Assistant);
    assert_eq!(messages[2].content, "");
    assert_eq!(messages[3].role, ChatRole::Tool);
}

#[test]
fn twilio_payload_decodes_to_16k() {
    // two µ-law bytes 0xFF (each expands to 132), upsampled to three
    // samples with the interpolated middle
    let pcm = TwilioAdapter::decode_media_payload("//8=").unwrap();
    assert_eq!(pcm, vec![132, 132, 132]);

    assert_eq!(
        TwilioAdapter::decode_media_payload("!!!"),
        Err(ConvertError::InvalidBase64)
    );
    assert_eq!(TwilioAdapter::decode_media_payload(""), Ok(Vec::<i16>::new()));
}

#[test]
fn adapters_construct() {
    let sources = vec![
        AudioSourceList::Twilio(TwilioAdapter::new()),
        AudioSourceList::Local(LocalAdapter::new()),
    ];
    assert!(matches!(sources[0], AudioSourceList::Twilio(_)));
    assert!(matches!(sources[1], AudioSourceList::Local(_)));
}
