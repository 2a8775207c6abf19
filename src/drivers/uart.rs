//! UART drivers.

use crate::drivers::Data;
use vstd::prelude::*;

verus! {

/// A UART driver's error and handle types.
pub trait UartDriver {
    /// What goes wrong.
    type Error;

    /// What an operation returns when it completes, or starts if it is
    /// asynchronous.
    type Handle;
}

/// A UART driver that transmits.
pub trait UartTxDriver: UartDriver {
    /// Sends `data`.
    fn send<D: Data>(&self, data: &[D]) -> Result<Self::Handle, Self::Error>;
}

/// A UART driver that receives.
pub trait UartRxDriver: UartDriver {
    /// Receives into `data`.
    fn recv<D: Data>(&self, data: &mut [D]) -> Result<Self::Handle, Self::Error>;
}

/// A UART driver that transmits and receives.
pub trait UartDuplexDriver: UartTxDriver + UartRxDriver {
    /// Sends `send` while receiving into `recv`.
    fn send_recv<DTX: Data, DRX: Data>(&self, send: &[DTX], recv: &mut [DRX]) -> Result<
        Self::Handle,
        Self::Error,
    >;

    /// Sends `send`, then receives into `recv`.
    fn send_then_recv<DTX: Data, DRX: Data>(&self, send: &[DTX], recv: &mut [DRX]) -> Result<
        Self::Handle,
        Self::Error,
    >;
}

} // verus!
