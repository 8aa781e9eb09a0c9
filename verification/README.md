# d20controller

Board support for the d20 LED controller (ATSAMD51G, iCE40 FPGA, IMU).

- `src/pins.rs`: `Pins`, the board's named pins as `atsamd-hal` pin types,
  `Pins::new` (splits the PORT peripheral) and `Pins::split` into `Sets`.
- `src/wiring.rs`: the same pin assignment as plain values (`BoardPin`,
  `PinId`), with proofs that no port pin serves two signals and that every
  pin exists on its group.
- `src/hal_types.rs`: declarations of the `atsamd-hal` types carried through.
- `app/lib.rs`: the firmware-facing facade that re-exports the HAL.
