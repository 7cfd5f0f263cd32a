//! Decision logic of the micro:bit discovery programs, as verified state
//! machines: the driving loops (display, buttons, serial port, sensor,
//! timers and interrupts) stand outside the library and feed it events.

pub mod buffers;
pub mod reverse_echo;
pub mod sensor_commands;
pub mod roulette;
pub mod turn_signal;
pub mod punch;
pub mod siren;
pub mod launcher;
