use vstd::prelude::*;

pub mod memory;
pub mod uart;
pub mod util;

verus! {

use crate::uart::Uart;

/// A handle on a UART through which text is written.
pub struct UartWrapper<'a> {
    uart: &'a Uart,
}

impl<'a> UartWrapper<'a> {
    /// The UART written through.
    pub closed spec fn uart_spec(self) -> Uart {
        *self.uart
    }

    /// A handle on `uart`.
    pub fn new(uart: &'a Uart) -> (w: Self)
        ensures
            w.uart_spec() == *uart,
    {
        UartWrapper { uart }
    }

    /// The UART written through.
    pub fn uart(&self) -> (u: &'a Uart)
        ensures
            *u == self.uart_spec(),
    {
        self.uart
    }
}

} // verus!
