//! Capture of chat and meeting messages from third-party applications:
//! a registry of per-application context profiles, the rules that pick a
//! browser tab and an extraction script for it, and the state machine that
//! turns repeated observations into a stream of distinct messages.

pub mod text;
pub mod context_mapper;
pub mod cdp;
pub mod vision;
pub mod capture;
pub mod pipeline;
pub mod notifications;
pub mod stt;
pub mod admin;
