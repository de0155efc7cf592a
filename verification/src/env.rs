use vstd::prelude::*;
use vstd::string::StringExecFns;

verus! {

/// ElevenLabs credentials, read from the process environment by the host
/// program.
#[derive(Debug, Clone)]
pub struct ElevenLabsEnv {
    pub elevenlabs_api_key: String,
}

/// AI Studio credentials and endpoint, read from the process environment
/// by the host program.
#[derive(Debug, Clone)]
pub struct AiStudioEnv {
    pub aistudio_api_key: String,
    pub aistudio_base_url: String,
}

/// Logging configuration, read from the process environment by the host
/// program.
#[derive(Debug, Clone)]
pub struct LoggerEnv {
    pub level: LogLevel,
    pub prettify: bool,
}

#[derive(Debug, Clone, Copy, PartialEq, Eq, Structural, Default)]
pub enum LogLevel {
    #[default]
    Info,
    Debug,
}

/// The whole process configuration.
#[derive(Debug, Clone)]
pub struct Args {
    pub elevenlabs: ElevenLabsEnv,
    pub logger: LoggerEnv,
    pub llm: AiStudioEnv,
}

impl LogLevel {
    /// Parses a level name; anything unknown defaults to `Info`.
    pub fn from(value: String) -> (r: LogLevel)
        ensures
            value@ == "debug"@ ==> r is Debug,
            value@ != "debug"@ ==> r is Info,
    {
        if value == String::from_str("debug") {
            LogLevel::Debug
        } else {
            LogLevel::Info
        }
    }

    /// The level's name, as the logging filter expects it.
    pub fn as_str(&self) -> (r: &'static str)
        ensures
            self is Info ==> r@ == "info"@,
            self is Debug ==> r@ == "debug"@,
    {
        match self {
            LogLevel::Info => "info",
            LogLevel::Debug => "debug",
        }
    }
}

} // verus!
