//! Spect drives a WS2812 LED strip over Bluetooth Low Energy.
//!
//! The [`client`] runs on a computer: it reads colors, searches for the strip and
//! writes the colors to it. The [`device`] drives the strip: it advertises,
//! collects what is written to it and turns it into pulses on the data line.
//! [`end_to_end`] states what the two achieve together, and [`text`] holds what
//! they print.
//!
//! Both sides are state machines: they take an event and decide on an action. The
//! radio, the timers and the terminal belong to the programs around them.

pub mod client;
pub mod device;
pub mod end_to_end;
pub mod text;
