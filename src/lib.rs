//! A terminal audio player's engine: effect parameters with clamped steps,
//! playback sessions on rodio sinks with loop restarts and cleanup, a bounded
//! diagnostic log, a waveform display that decays when idle, a directory
//! browser model and the key dispatch table that drives them.
//!
//! Levels and parameters are fixed-point integers: speed and volume in
//! tenths, waveform bins and samples in ten-thousandths of full scale.

pub mod controller;
pub mod effects;
pub mod engine;
pub mod files;
pub mod mixing;
pub mod visualizer;
