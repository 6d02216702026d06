//! Clock configuration consumed by peripheral constructors.

use vstd::prelude::*;

verus! {

/// Frozen clock settings of the system.
///
/// Peripheral constructors read the source clock frequencies from here;
/// the values are fixed at system start.
#[derive(Clone, Copy, Debug, PartialEq, Eq, Structural)]
pub struct Clocks {
    /// Frequency, in hertz, of the clock that feeds the UART peripherals.
    pub uart_clock_hz: u32,
}

impl Clocks {
    /// Frequency, in hertz, of the clock that feeds the UART peripherals.
    pub fn uart_clock(&self) -> (r: u32)
        ensures
            r == self.uart_clock_hz,
    {
        self.uart_clock_hz
    }
}

} // verus!
