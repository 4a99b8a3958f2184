//! Core of an input-to-audio latency probe.
//!
//! A click or key press raises a one-shot trigger; the audio side consumes it
//! at the start of its next buffer and restarts a short decaying tone, while
//! the window flashes for a few frames. This crate holds the parts of that
//! probe that are plain integer and boolean logic: the shared trigger cell,
//! the reaction to each input event, the flash countdown and colour choice,
//! and the integer side of the sample conversion.

pub mod audio;
pub mod event;
pub mod render_loop;
pub mod trigger;
