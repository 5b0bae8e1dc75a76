//! Orchestration core for driving a GUI-only text-to-speech host through
//! its settings file, its phrase-dictionary side channel and its automation
//! surface, exposing a structured synthesis API.
//!
//! This crate holds the decision logic and the data formats: process
//! lifecycle decisions, settings patching, the dictionary file format,
//! preset mapping, prosody rendering and audio sample bookkeeping.
//! The surrounding process (HTTP server, file system, automation calls)
//! lives outside and hands plain values in and out.

pub mod aivoice;
pub mod audio;
pub mod audio_query;
pub mod dictionary;
pub mod error;
pub mod host;
pub mod info;
pub mod prosody;
pub mod roster;
pub mod settings_modifier;
pub mod speakers;
pub mod synthesis;
pub mod text;
pub mod user_dict;
pub mod uuid_text;
