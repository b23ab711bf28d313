//! Pin state-machine and signal-routing core for a microcontroller's
//! general-purpose I/O subsystem.
//!
//! The crate models the chip's memory-mapped configuration registers as a
//! [`regs::RegisterFile`] value owned by the caller; every pin operation is a
//! verified update of that value. Pins are obtained once from [`io::IO::new`]
//! and carry their electrical mode and capability class in their type, so an
//! operation a pin's hardware cannot perform is rejected at compile time.

use vstd::prelude::*;

pub mod bank;
pub mod dac;
pub mod interrupt;
pub mod io;
pub mod laws;
pub mod pin;
pub mod regs;
pub mod types;

verus! {

/// A configuration-shape error, detected before any register write.
#[derive(Clone, Copy, PartialEq, Eq, Structural, Debug)]
pub enum GpioError {
    /// Wake-from-sleep was requested together with an edge-triggered event;
    /// edge detection is unavailable while the core sleeps.
    InvalidInterruptConfig,
    /// The requested input signal has no dedicated slot on this pin and its id
    /// lies beyond the crossbar's addressable range, so no path exists.
    UnroutableInputSignal,
}

} // verus!
