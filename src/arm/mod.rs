//! ARM Cortex-M core peripherals.

pub mod cpu;
pub mod mpu;
pub mod scb;
pub mod exc;
pub mod nvic;
pub mod irq;
pub mod systick;
pub mod units;
