//! The core of a small multi-core kernel for a 64-bit ARM single-board
//! computer, as plain data and verified transitions.
//!
//! The crate holds what the kernel decides: how an arena carves out regions,
//! which register writes configure a device and in which order, who may hold
//! a device, which task a core runs next. It touches no hardware. Every
//! operation on the machine is recorded as an [`drivers::Effect`], and the
//! platform layer around this crate performs the recorded effects.

pub mod allocators;
pub mod boot;
pub mod drivers;
pub mod error;
pub mod kernel;
pub mod print;
pub mod shared;
pub mod utils;
