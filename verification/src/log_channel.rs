pub mod user_events;
pub mod voice_events;
