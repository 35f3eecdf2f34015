//! A verified core for a live audio recorder.
//!
//! Samples are carried as fixed-point amplitudes (`sample`), handed from the
//! capture side to consumers through a bounded, non-blocking queue (`bridge`)
//! and fanned out to all of them (`fanout`): a three-state recording session
//! (`controller`) that owns a WAV container encoder (`wav`), and a peak
//! decimator for display (`meter`).  Elapsed time is queried over a line
//! protocol (`protocol`) whose replies are rendered by `text`.  Device
//! access, file writes and the user interface live outside this crate and
//! talk to it in plain values.

pub mod bridge;
pub mod controller;
pub mod fanout;
pub mod meter;
pub mod protocol;
pub mod text;
pub mod wav;
pub mod sample;
