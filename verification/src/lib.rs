//! Register-level drivers for the peripherals of a microcontroller
//! system-on-chip: clock and reset gating, general-purpose I/O pin
//! configuration, a dual-channel digital-to-analog converter, a
//! direct-memory-transfer controller, and a general timer.
//!
//! Every driver operation is a sequence of read-modify-write steps on
//! 32-bit memory-mapped registers. The operations run against a
//! [`regbank::RegisterBank`], an in-memory register store with the same
//! word-addressed layout as the hardware, so that the bit-exact effect of
//! each operation is stated in its contract and checked against a
//! simulated bank. An embedding that targets real silicon replays the
//! same writes through volatile accesses at the same addresses.

pub mod dac;
pub mod dma;
pub mod gpio;
pub mod rcu;
pub mod regbank;
pub mod register_helpers;
pub mod sim;
pub mod timer;
