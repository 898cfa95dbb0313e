# spect

Spect drives a WS2812 LED strip over Bluetooth Low Energy: a command line client
on a computer sends colors, one for each pixel, to a device that turns them into
pulses on the data line of the strip.

    spect [--rgb] [--verbose] <device> <color>...

`<device>` is the address of the device, or what its name begins with. A color is
eight hexadecimal digits (red, green, blue and white), or six with `--rgb`.

## Layout

- `src/` is the library. It decides and never waits: the client's session and
  search, and the device's server, take an event and return an action. Its
  contracts are proved with Verus.
  - `client/`: colors, the search for the device, the session.
  - `device/`: the pulses of the strip, advertising, the GATT server.
  - `end_to_end.rs`: what both sides achieve together.
  - `text.rs`: text that is printed and compared.
- `app/` is what performs the actions: `main.rs` is the client, `firmware.rs` the
  program on the device, with `gatt.rs` and `pair.rs` for its radio.
- `tests/` runs the library on concrete values.
