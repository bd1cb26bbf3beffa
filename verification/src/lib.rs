//! A register-level hardware abstraction layer for an LM4F120-class
//! microcontroller: GPIO pin configuration, an eight-instance UART,
//! the free-running system tick counter, and a PWM-capable timer.
//!
//! On silicon every peripheral is a block of memory-mapped registers
//! that must be touched through volatile accesses. Here each block is
//! modelled as an owned value with one field per register, so a driver
//! handle can never alias another handle's hardware state, and every
//! operation states in its contract the exact bit pattern it leaves
//! behind. Bits that belong to other pins or other instances are proved
//! to be preserved by every read-modify-write sequence.

pub mod bits;
pub mod gpio;
pub mod regmap;
pub mod sysctl;
pub mod systick;
pub mod timer;
pub mod uart;
