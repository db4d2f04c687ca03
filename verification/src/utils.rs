pub mod discord_cdn;
pub mod time;
