//! Conversion of complete mahjong game-protocol logs into per-participant
//! supervised training records: an event-window scanning state machine with
//! batch orchestration, participant filtering, and column-oriented output.
pub mod action;
pub mod batch;
pub mod chi;
pub mod config;
pub mod errors;
pub mod events;
pub mod gameplay;
pub mod names;
pub mod scan;
pub mod trace;
