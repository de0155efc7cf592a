pub mod audio_buffer;
pub mod audio_source;
pub mod audio_source_layer;
pub mod calendar;
pub mod env;
pub mod errors;
pub mod history;
pub mod history_event;
pub mod history_member;
pub mod job;
pub mod llm;
pub mod local_source_adapter;
pub mod local_vad;
pub mod pipeline;
pub mod pool;
pub mod pool_manager;
pub mod twilio_source_adapter;
pub mod utils;
pub mod vad;
pub mod vad_list;
