//! Core of an ambient-sound mixer: a fixed set of independently loopable
//! audio tracks, each with its own play/pause state and volume, driven by
//! commands routed from a session object to per-track workers.
//!
//! The playback backend (decoding, the output device) is an external
//! capability; this crate holds the control logic and a recording model of
//! the backend, so that command ordering, state flags and teardown can be
//! verified and tested without a sound card.

pub mod command;
pub mod controller;
pub mod handle;
pub mod session;
pub mod track;
pub mod worker;
