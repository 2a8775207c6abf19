//! Interfaces that peripheral drivers implement, and the data they move.

use vstd::prelude::*;

pub mod i2c;

pub mod uart;

pub mod usb;

verus! {

/// A plain value that a peripheral can move.
pub trait Data: Copy + Sized {}

impl Data for i8 {}

impl Data for u8 {}

impl Data for i16 {}

impl Data for u16 {}

impl Data for i32 {}

impl Data for u32 {}

impl Data for i64 {}

impl Data for u64 {}

/// The error type of a communication interface.
pub trait CommunicationError {
    type Error;
}

/// A driver that can take data from a DMA channel.
pub trait DMADigest {}

/// A driver that can feed data to a DMA channel.
pub trait DMAFeed {}

} // verus!
