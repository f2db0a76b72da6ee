//! Real-time voice activity gating for a live audio stream.
//!
//! Samples are carried as the raw bit patterns of IEEE-754 single-precision
//! numbers, so that every buffer operation and every decision of the detector
//! is stated over integers.

pub mod config;
pub mod error;
pub mod frame;
pub mod hotkey;
pub mod ieee;
pub mod recorder;
pub mod resample;
pub mod ring;
pub mod stream;
pub mod trace;
pub mod transcript;
pub mod vad;
