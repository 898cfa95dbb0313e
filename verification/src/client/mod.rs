//! The command line client that sends colors to the strip.

pub mod characteristics;
pub mod colors;
pub mod discovery;
pub mod hex;
pub mod session;
