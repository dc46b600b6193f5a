//! Core of a monophonic software synthesizer: a note-tracking state machine,
//! a functional model of the host-visible parameter store, a MIDI event
//! decoder, and the engine that turns note events and parameter snapshots
//! into per-block render commands for a signal graph.
//!
//! Control values are carried as IEEE-754 bit patterns (`u32` for the host's
//! single-precision knobs, `u64` for the graph's double-precision control
//! inputs), so every decision the engine makes is stated and proved exactly.

pub mod engine;
pub mod notes;
pub mod midi;
pub mod params;
