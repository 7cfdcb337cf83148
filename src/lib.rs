//! Verified core of a managed assistant session layer for a Hangul typing
//! trainer: availability verdicts, connection lifecycle decisions, prompt
//! construction, response aggregation and the command envelopes.

pub mod commands;
pub mod copilot;
pub mod events;
pub mod service;
pub mod text;
