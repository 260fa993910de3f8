//! Core of an audio playback engine: the playback state machine, the sample
//! queue between decoder and device, the capture snapshot for visualisers,
//! the decoder's bookkeeping, and track metadata; beside them, the plugin
//! error type and checks, and the plain records shared with the interface.
//!
//! Floating-point signal processing (the equalizer) and all I/O stay with the
//! caller; every decision they depend on is taken here, under a contract.

pub mod capture;
pub mod controller;
pub mod decoder;
pub mod output;
pub mod platform;
pub mod plugins;
pub mod skins;
pub mod track;
pub mod ui;
