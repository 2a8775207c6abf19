//! I2C drivers and addresses.

use crate::drivers::{CommunicationError, Data};
use vstd::prelude::*;

verus! {

/// A blocking I2C driver.
pub trait I2CDriver: CommunicationError {
    /// Sends `buffer` on the bus, ending with a stop condition if `stop`.
    fn send(&mut self, buffer: &[u8], stop: bool) -> Result<(), Self::Error>;

    /// Sends `send`, then receives until `receive` is full.
    fn transfer(&mut self, send: &[u8], receive: &mut [u8]) -> Result<(), Self::Error>;
}

/// A non-blocking I2C driver, whose operations return futures.
pub trait I2CAsyncDriver: CommunicationError {
    type WriteFuture<'a>: core::future::Future<Output = Result<(), Self::Error>> where Self: 'a;

    type WriteReadFuture<'a>: core::future::Future<Output = Result<(), Self::Error>> where
        Self: 'a;

    /// Sends `data` on the bus, ending with a stop condition if `stop`.
    fn send<'a>(&mut self, data: &[u8], stop: bool) -> Self::WriteFuture<'a>;

    /// Sends `send`, then receives until `recv` is full.
    fn transfer<'a>(&mut self, send: &[u8], recv: &mut [u8]) -> Self::WriteReadFuture<'a>;
}

/// An I2C address of either width.
pub trait I2CAddress: Sized + Data + PartialEq + Eq {
    /// The address as a half-word.
    fn bits(&self) -> u16;
}

/// A 7-bit I2C address.
#[derive(Clone, Copy, Debug, PartialEq, Eq, Structural)]
pub struct I2CAddress7bit(pub u8);

impl I2CAddress7bit {
    /// The 7-bit address made of the low seven bits of `addr`.
    pub fn new(addr: u8) -> (r: Self)
        ensures
            r.0 == addr & 0x7F,
            r.0 < 0x80,
    {
        let a = addr & 0x7F;
        assert(addr & 0x7F < 0x80) by (bit_vector);
        I2CAddress7bit(a)
    }
}

impl Data for I2CAddress7bit {}

impl I2CAddress for I2CAddress7bit {
    fn bits(&self) -> u16 {
        self.0 as u16
    }
}

impl From<I2CAddress7bit> for u16 {
    fn from(addr: I2CAddress7bit) -> u16 {
        addr.0 as u16
    }
}

impl vstd::std_specs::convert::FromSpecImpl<I2CAddress7bit> for u16 {
    open spec fn obeys_from_spec() -> bool {
        true
    }

    open spec fn from_spec(addr: I2CAddress7bit) -> u16 {
        addr.0 as u16
    }
}

impl From<I2CAddress7bit> for u32 {
    fn from(addr: I2CAddress7bit) -> u32 {
        addr.0 as u32
    }
}

impl vstd::std_specs::convert::FromSpecImpl<I2CAddress7bit> for u32 {
    open spec fn obeys_from_spec() -> bool {
        true
    }

    open spec fn from_spec(addr: I2CAddress7bit) -> u32 {
        addr.0 as u32
    }
}

/// A 10-bit I2C address.
#[derive(Clone, Copy, Debug, PartialEq, Eq, Structural)]
pub struct I2CAddress10bit(pub u16);

impl I2CAddress10bit {
    /// The 10-bit address made of the low ten bits of `addr`.
    pub fn new(addr: u16) -> (r: Self)
        ensures
            r.0 == addr & 0x3FF,
            r.0 < 0x400,
    {
        let a = addr & 0x3FF;
        assert(addr & 0x3FF < 0x400) by (bit_vector);
        I2CAddress10bit(a)
    }
}

impl Data for I2CAddress10bit {}

impl I2CAddress for I2CAddress10bit {
    fn bits(&self) -> u16 {
        self.0
    }
}

impl From<I2CAddress10bit> for u16 {
    fn from(addr: I2CAddress10bit) -> u16 {
        addr.0
    }
}

impl vstd::std_specs::convert::FromSpecImpl<I2CAddress10bit> for u16 {
    open spec fn obeys_from_spec() -> bool {
        true
    }

    open spec fn from_spec(addr: I2CAddress10bit) -> u16 {
        addr.0
    }
}

impl From<I2CAddress10bit> for u32 {
    fn from(addr: I2CAddress10bit) -> u32 {
        addr.0 as u32
    }
}

impl vstd::std_specs::convert::FromSpecImpl<I2CAddress10bit> for u32 {
    open spec fn obeys_from_spec() -> bool {
        true
    }

    open spec fn from_spec(addr: I2CAddress10bit) -> u32 {
        addr.0 as u32
    }
}

/// An I2C interface and its error type.
pub trait I2CInterface {
    type Error;
}

/// The state of an I2C operation, returned by every interface operation.
pub trait I2CHandle: core::future::Future {
    /// Whether the operation has completed. A blocking handle is complete
    /// once returned, which this default says.
    fn done(&self) -> bool {
        true
    }

    /// Waits until the operation has completed.
    fn join(&self);
}

/// An I2C interface that can write.
pub trait Write<A: I2CAddress, H: I2CHandle>: I2CInterface {
    /// Writes `bytes` to `addr`, ending with a stop condition if `stop`.
    fn write(&mut self, addr: A, bytes: &[u8], stop: bool) -> Result<H, Self::Error>;
}

/// An I2C interface that can write, then read.
pub trait WriteRead<A: I2CAddress, H: I2CHandle>: I2CInterface {
    /// Writes `bytes` to `addr`, then reads into `buffer`, with a repeated
    /// start in between if `restart`.
    fn write_read(&mut self, addr: A, bytes: &[u8], buffer: &mut [u8], restart: bool) -> Result<
        H,
        Self::Error,
    >;
}

} // verus!
