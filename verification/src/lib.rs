//! Server-side core of a social drawing party game.
//!
//! Players in a shared room submit drawings, vote to eliminate suspected
//! AI-generated entries, and the room moves through timed phases until a
//! win or loss condition is reached. A companion single-player mode runs a
//! timed catch-the-impostor challenge. This crate holds the room game-state
//! engine, the vote-threshold policy, the AI-entry spawn selector, and the
//! single-player run engine; storage and transport live outside.

pub mod ai_task;
pub mod api;
pub mod auth_token;
pub mod b64;
pub mod engine;
pub mod entry;
pub mod errors;
pub mod events;
pub mod image_codec;
pub mod laws;
pub mod messages;
pub mod moderation;
pub mod preset_fish;
pub mod policy;
pub mod random;
pub mod room;
pub mod single_player;
pub mod spawn;
pub mod strutil;
pub mod submission;
pub mod voting;

pub use policy::ai_overflow;
