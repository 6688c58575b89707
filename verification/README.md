# storz_rs

Protocol logic for Storz & Bickel vaporizers (Volcano Hybrid, Venty, Veazy,
Crafty+) controlled over Bluetooth Low Energy, written in Verus with its
behaviour stated in contracts and proved.

- `src/` — the verified library:
  - `device` — device models, the state snapshot (temperatures in tenths of a
    degree Celsius), heater modes, Volcano activity flags;
  - `codec` — little-endian temperature readings and their encodings;
  - `uuids` — characteristic identifiers as 128-bit values;
  - `discovery` — recognising vaporizers by advertised name;
  - `protocol::{venty, volcano, crafty}` — what each device's notifications
    do to the state, and the Venty/Veazy command buffers;
  - `protocol::control` — what is written for each request on each model,
    which requests are refused, where readings come from.
- `app/` — the Bluetooth plumbing (btleplug, tokio), the async control
  trait, logging, and the conversion between tenths and floating-point
  degrees.
- `tests/` — tests of the library on concrete values.
