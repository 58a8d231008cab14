//! Core of a 1978 arcade-board emulator: the memory-mapped address router,
//! the I/O port controller with its hardware shift register, and the frame
//! scheduler that drives an external CPU stepping engine two interrupts per
//! frame.

pub mod io;
pub mod memory;
pub mod scheduler;
pub mod shift_register;

pub use shift_register::ShiftRegister;
