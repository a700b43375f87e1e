//! The firmware's own decisions, apart from the HAL and the interrupt
//! framework that carry them out: serial settings per protocol, the default
//! port routing, the clock setup, output polarity, and what boot and each
//! interrupt handler do, and the linker memory layout of the selected part.

pub mod serial_protocol;
pub mod routing;
pub mod clock;
pub mod nucleo_f401re;
pub mod boot;
pub mod selection;
pub mod memory;
pub mod gpio;
pub mod tasks;
pub mod laws;
