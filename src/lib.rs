//! Tone detection for a 4x4 DTMF keypad and a four-button ultrasonic remote.
//!
//! The library holds the decision side of the detector: the catalog of
//! buttons and their target tones, the table of per-tone power readings that
//! one analysis cycle produces, the per-button trigger decisions, the
//! quarter-circle display curve, the keypad snapshot and its rendering onto
//! an 8x8 bicolor LED matrix.
//!
//! Power readings are fixed-point: one unit of signal power is
//! [`power::POWER_UNIT`] counts.

pub mod tones;
pub mod power;
pub mod catalog;
pub mod spectrum;
pub mod dtmf;
pub mod remote;
pub mod keypad;
pub mod samples;
pub mod display;
