//! Per-guild audio session coordination for a web-radio voice bot.
//!
//! The library holds the decisions: which guild is connected, which track
//! is registered, what volume applies, and what each command answers.
//! Talking to the chat gateway, the voice engine and the database is left
//! to the program around it, which reports outcomes as plain values.

pub mod commands;
pub mod config;
pub mod database;
pub mod decimal;
pub mod error;
pub mod laws;
pub mod session;
pub mod tracks;
pub mod voice;
