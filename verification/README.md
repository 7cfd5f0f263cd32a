# discovery

The decision logic of the BBC micro:bit v2 discovery programs, written in
Verus and verified against its contracts; the firmware around it is in
`app/`.

- `src/roulette.rs`: the LED roulette (one LED running round the border).
- `src/turn_signal.rs`: the button-driven turn signal.
- `src/reverse_echo.rs`: the serial line reverser.
- `src/sensor_commands.rs`: the serial `acc` / `mag` command reader.
- `src/punch.rs`: the punch-o-meter.
- `src/siren.rs`, `src/launcher.rs`: the siren and the launch countdown of
  the interrupts program.
- `src/buffers.rs`: the `heapless::Vec` byte buffers, behind trusted items.
- `app/`: the firmware that drives display, buttons, serial port, sensor,
  timers and interrupts, and hands each event to the library.

The library uses `std` (`Vec`, `vstd`); the firmware therefore leaves the
panic handler to `std`.
