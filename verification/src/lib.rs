//! Verified core of a Discord voice bot that relays live PCM audio: message
//! templates, configuration, per-guild autoleave settings, command decisions
//! and the PCM byte bridge.

pub mod text;
pub mod messages;
pub mod autoleave;
pub mod config;
pub mod bridge;
pub mod commands;
pub mod voice;
pub mod ffmpeg;
pub mod ingest;
