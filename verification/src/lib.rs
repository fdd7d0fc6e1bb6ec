//! Hardware-access layer for the general-purpose I/O ports of the
//! MSP430FR2355 microcontroller, with the port registers modelled as plain
//! values so that every register write the driver performs is verified.
//!
//! The core of the crate is the pin typestate machine: a pin handle's type
//! records its direction, pull, alternate-function and power-lock state, and
//! every transition method consumes the handle, performs the matching
//! register update and returns a handle of the new type.  Shared per-port
//! registers are mutated only through non-duplicable contention tokens, which
//! carry the modelled register bytes themselves.

pub mod bits;
pub mod clock;
pub mod delay;
pub mod gpio;
pub mod pmm;
pub mod spi;
