//! The attributes that the device serves.
//!
//! A UUID is written as it goes over the air, least significant byte first.

use vstd::prelude::*;

verus! {

/// The service of the strip.
pub const LED_SERVICE_UUID: [u8; 16] = [
    0xaa,
    0xbb,
    0xcc,
    0xde,
    0x12,
    0x34,
    0x56,
    0x78,
    0x12,
    0x34,
    0x56,
    0x78,
    0x9a,
    0xbc,
    0xde,
    0xf0,
];

/// The characteristic that takes pixel data.
pub const LED_DATA_UUID: [u8; 16] = [
    0xaa,
    0xbb,
    0xcc,
    0xde,
    0x12,
    0x34,
    0x56,
    0x78,
    0x12,
    0x34,
    0x56,
    0x78,
    0x9a,
    0xbc,
    0xde,
    0xf0,
];

/// The characteristic that shows it.
pub const LED_SHOW_UUID: [u8; 16] = [
    0xaa,
    0xbb,
    0xcc,
    0xdf,
    0x12,
    0x34,
    0x56,
    0x78,
    0x12,
    0x34,
    0x56,
    0x78,
    0x9a,
    0xbc,
    0xde,
    0xf0,
];

} // verus!
