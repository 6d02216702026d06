//! Pin multiplexing and peripheral register configuration for Bouffalo
//! microcontrollers, with machine-checked contracts.
//!
//! The crate models each hardware register as a plain value and states the
//! effect of every configuration operation as an exact bit-level contract.
//! Pads are tagged with a compile-time role; the operations that move a pad
//! between roles consume the old value, so at most one live value stands for
//! a given pin in a given role.

pub mod clocks;
pub mod dma;
pub mod glb;
pub mod gpio;
pub mod input_async;
pub mod pad_v1;
pub mod soc;
pub mod spi;
pub mod uart;
