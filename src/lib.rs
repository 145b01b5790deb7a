//! Bridge between a desktop interface and the VoiceForge daemon on the
//! session message bus: the requests the interface can issue, the decisions
//! taken while one is in flight, the four signal subscriptions relayed back
//! as local events, and the export command's argument checks.
pub mod bus;
pub mod command;
pub mod endpoint;
pub mod export;
pub mod relay;
pub mod signals;

pub use export::export_session;
pub use command::{
    analyze, get_analytics, get_session_detail, get_sessions, get_settings,
    get_streaming_transcript, is_listening, listen_start, listen_stop, ping,
};

