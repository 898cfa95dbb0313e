//! The device at the strip: a Bluetooth peripheral that shows what is written to it.

pub mod advertising;
pub mod attributes;
pub mod leds;
pub mod pair;
pub mod server;
pub mod ws2812;
