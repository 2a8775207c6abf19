//! Common library for the `micro` framework: a verified model of the ARM
//! Cortex-M system control space (vector tables, exception and interrupt
//! control, memory protection, system timer) together with the small data
//! types shared by drivers.
//!
//! Every register block is held as plain words and every operation states,
//! over those words, exactly what it changes. Operations that must be ordered
//! against interrupt delivery record each bus access, barrier and interrupt
//! mask change on a [`arm::cpu::Core`], so the order is part of their
//! contract.

pub mod reg;

pub mod arm;

pub use arm::cpu::{critical, Core, Event};
pub use arm::exc::{Exception, ExceptionControl, InterruptControl};
pub use arm::irq::IRQTable;
pub use arm::mpu::{MPUConfiguration, MPUPermissions, MPURegionSize, MPU};
pub use arm::nvic::{Context, IRQConfig, Nvic};
pub use arm::scb::{cpuid, Scb, SystemControl};
pub use arm::systick::Systick;

pub mod buffer;

pub mod freq;

pub mod handler;

pub mod res;

pub mod drivers;
