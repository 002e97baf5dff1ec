//! The verified core of an agent session.

pub mod bash;
pub mod bind;
pub mod boundary;
pub mod bridge;
pub mod bridge_types;
pub mod commands;
pub mod compaction;
pub mod events;
pub mod extension;
pub mod extension_runner;
pub mod json;
pub mod messages;
pub mod model;
pub mod number;
pub mod overflow;
pub mod pattern;
pub mod persistence;
pub mod prompt;
pub mod reload;
pub mod resources;
pub mod retry;
pub mod session;
pub mod stats;
pub mod text;
pub mod timestamp;
pub mod wire;
pub mod wire_read;
