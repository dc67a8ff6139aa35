//! Rule-driven canned responses for a chat bot: a small rule language over
//! regular expressions, a registry of responses gated by cooldown and hit
//! rate, and the configuration snapshot that owns both.

pub mod class_commands;
pub mod config;
pub mod data;
pub mod gating;
pub mod laws;
pub mod pattern;
pub mod response;
pub mod ruleset;
pub mod text;
pub mod text_detection;
